//! The configuration record and the pipeline composition core.

use crate::drain::ReadySink;
use crate::drain::Sink;
use crate::drain::SinkPlan;
use crate::drain::buffer_sink;
use crate::drain::filter_sink;
use crate::drain::filter_sink_default;
use crate::drain::json_sink;
use crate::drain::terminal_sink;
use crate::log_format::LogFormat;
use vstd::prelude::*;

verus! {

/// Holds the configuration parameters.
/// Used to build sinks.
#[derive(Debug, PartialEq, Clone)]
pub struct Config {
    /// Log format to provide.
    pub format: LogFormat,

    /// Disable env logger.
    /// You might want this for performance reasons or just for convenience:
    /// env logger hides log values by default, and turning the whole env
    /// logger off is a simple workaround for that behavior.
    pub disable_env_logger: bool,

    /// Env logger configuration to use (usually passed via the `RUST_LOG`
    /// env var).
    pub env_logger_filters: Option<String>,

    /// If no configuration is passed to the env logger, it blocks everything
    /// below "error" severity by default. This allows for overriding that
    /// default with something more suitable.
    pub env_logger_override_default_filter: Option<String>,
}

/// The mathematical content of a [`Config`]: the same four fields with the
/// strings abstracted to character sequences.
pub struct ConfigView {
    /// Log format to provide.
    pub format: LogFormat,
    /// Disable env logger.
    pub disable_env_logger: bool,
    /// Env logger configuration to use.
    pub env_logger_filters: Option<Seq<char>>,
    /// Override for the env logger's built-in default filter.
    pub env_logger_override_default_filter: Option<Seq<char>>,
}

impl View for Config {
    type V = ConfigView;

    open spec fn view(&self) -> ConfigView {
        ConfigView {
            format: self.format,
            disable_env_logger: self.disable_env_logger,
            env_logger_filters: self.env_logger_filters.deep_view(),
            env_logger_override_default_filter: self.env_logger_override_default_filter.deep_view(),
        }
    }
}

/// The filter expression handed to the filter engine, resolved through the
/// three-tier priority chain: the configured expression when present and
/// non-empty, else the override default when present, else `None` — the
/// engine's own built-in default.
pub open spec fn spec_chosen_filter(c: ConfigView) -> Option<Seq<char>> {
    match c.env_logger_filters {
        Some(f) => if f.len() > 0 {
            Some(f)
        } else {
            c.env_logger_override_default_filter
        },
        None => c.env_logger_override_default_filter,
    }
}

/// What the filter stage makes of an inner stage: the inner stage unchanged
/// when filtering is disabled, else a filter wrapper whose expression is
/// resolved by [`spec_chosen_filter`].
pub open spec fn spec_filter_stage(c: ConfigView, inner: SinkPlan) -> SinkPlan {
    if c.disable_env_logger {
        inner
    } else {
        SinkPlan::Filtered { filter: spec_chosen_filter(c), inner: Box::new(inner) }
    }
}

/// The pipeline a configuration resolves to, stages in fixed order: the
/// format encoder, then the optional verbosity filter, then asynchronous
/// buffering outermost.
pub open spec fn spec_build_plan(c: ConfigView) -> SinkPlan {
    SinkPlan::Buffered(Box::new(spec_filter_stage(c, SinkPlan::Format(c.format))))
}

impl Config {
    /// Build a ready-to-use sink according to the specified parameters.
    /// The result is asynchronously buffered and ready for
    /// `slog::Logger::root`. Total: building never fails for any
    /// configuration value.
    pub fn build(&self) -> (s: ReadySink)
        ensures
            s@ == spec_build_plan(self@),
    {
        let drain = self.build_format_drain();
        let drain = self.wrap_with_env_logger(drain);
        let drain = self.wrap_with_async(drain);
        drain
    }

    /// Wraps a sink in the asynchronous buffering stage.
    fn wrap_with_async(&self, drain: Sink) -> (s: ReadySink)
        ensures
            s@ == SinkPlan::Buffered(Box::new(drain@)),
    {
        buffer_sink(drain)
    }

    /// Applies the verbosity filter stage decision: pass the sink through
    /// untouched when `disable_env_logger` is set, else wrap it with the
    /// filter expression resolved through the three-tier priority chain.
    fn wrap_with_env_logger(&self, drain: Sink) -> (s: Sink)
        ensures
            s@ == spec_filter_stage(self@, drain@),
    {
        if self.disable_env_logger {
            return drain;
        }

        if let Some(val) = &self.env_logger_filters {
            if !val.as_str().is_empty() {
                return filter_sink(drain, val.as_str());
            }
        }

        match &self.env_logger_override_default_filter {
            Some(val) => filter_sink(drain, val.as_str()),
            None => filter_sink_default(drain),
        }
    }

    /// Selects the format encoder stage.
    fn build_format_drain(&self) -> (s: Sink)
        ensures
            s@ == SinkPlan::Format(self.format),
    {
        match self.format {
            LogFormat::Terminal => terminal_sink(),
            LogFormat::Json => json_sink(),
        }
    }
}

/// Law: with the env logger disabled, filtering-disabled is a true identity —
/// the built pipeline is exactly the buffered format encoder, with no filter
/// stage of any permissiveness in between.
pub proof fn lemma_disable_env_logger_identity(c: ConfigView)
    requires
        c.disable_env_logger,
    ensures
        spec_filter_stage(c, SinkPlan::Format(c.format)) == SinkPlan::Format(c.format),
        spec_build_plan(c) == SinkPlan::Buffered(Box::new(SinkPlan::Format(c.format))),
{
}

/// Law: building is deterministic in the configuration value — equal
/// configurations resolve to the same pipeline plan, so two sinks built from
/// them accept and emit the same records.
pub proof fn lemma_build_deterministic(c1: ConfigView, c2: ConfigView)
    requires
        c1 == c2,
    ensures
        spec_build_plan(c1) == spec_build_plan(c2),
{
}

/// Law: a present-but-empty filter expression is not handed to the engine;
/// the choice falls through to the override default tier, exactly as when
/// the expression is absent.
pub proof fn lemma_empty_filters_fall_through(c: ConfigView)
    requires
        c.env_logger_filters == Some(Seq::<char>::empty()),
    ensures
        spec_chosen_filter(c) == c.env_logger_override_default_filter,
{
}

} // verus!
