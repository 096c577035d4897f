//! Configuration-driven factory for `slog` log pipelines.
//!
//! The crate reads a small set of options (output format, verbosity filter,
//! async buffering) and assembles a ready-to-use log sink: a format encoder,
//! optionally wrapped in a verbosity filter, wrapped in an asynchronous
//! delivery stage. Loading the options from environment variables and
//! composing the stages are verified; the `slog` family of crates supplies
//! the rendering, filtering and queueing engines behind trusted wrappers.
//!
//! Reading the process environment is left to the embedding application: it
//! hands the raw variable states to `config_from_env` and receives a fully
//! resolved `Config`, whose `build` method turns it into a sink ready for
//! `slog::Logger::root`.

mod log_format;
pub use log_format::InvalidLogFormat;
pub use log_format::LogFormat;
pub use log_format::eq_ignore_case;
pub use log_format::lemma_parse_canonical_round_trip;
pub use log_format::lemma_parse_case_insensitive;
pub use log_format::lower_char;
pub use log_format::spec_canonical_name;
pub use log_format::spec_parse_log_format;

mod parse_from_env;
pub use parse_from_env::EnvValue;
pub use parse_from_env::ParseFromEnvError;
pub use parse_from_env::parse_from_env;

mod error;
pub use error::LogFormatFromEnvError;
pub use error::LogFormatFromEnvWithDefaultError;

mod env;
pub use env::log_format_from_env;
pub use env::log_format_from_env_with_default;

mod drain;
pub use drain::RawReadySink;
pub use drain::RawSink;
pub use drain::ReadySink;
pub use drain::Sink;
pub use drain::SinkPlan;
pub use drain::buffer_sink;
pub use drain::filter_sink;
pub use drain::filter_sink_default;
pub use drain::json_sink;
pub use drain::terminal_sink;

mod config;
pub use config::Config;
pub use config::ConfigView;
pub use config::lemma_build_deterministic;
pub use config::lemma_disable_env_logger_identity;
pub use config::lemma_empty_filters_fall_through;
pub use config::spec_build_plan;
pub use config::spec_chosen_filter;
pub use config::spec_filter_stage;

mod config_from_env;
pub use config_from_env::ConfigFromEnvError;
pub use config_from_env::DISABLE_ENV_LOGGER_ENV_KEY;
pub use config_from_env::ENV_LOGGER_FILTERS_ENV_KEY;
pub use config_from_env::ENV_LOGGER_OVERRIDE_DEFAULT_FILTER_DEFAULT;
pub use config_from_env::EnvSnapshot;
pub use config_from_env::LOG_FORMAT_ENV_KEY;
pub use config_from_env::ParseBoolError;
pub use config_from_env::config_from_env;
pub use config_from_env::parse_bool;
pub use config_from_env::spec_disable_resolves;
pub use config_from_env::spec_env_resolves;
pub use config_from_env::spec_filters_resolve;
pub use config_from_env::spec_format_resolves;
pub use config_from_env::spec_load_error;
pub use config_from_env::spec_parse_bool;
pub use config_from_env::spec_resolved_config;

mod convenience;
pub use convenience::drain_from_env;

pub mod standard;
pub mod util;
