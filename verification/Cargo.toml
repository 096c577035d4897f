[package]
name = "slog_env_cfg"
version = "0.1.0"
edition = "2021"
publish = false

[dependencies]
slog = "2"
slog-async = "2"
slog-envlogger = "2"
slog-json = "2"
slog-term = "2"
