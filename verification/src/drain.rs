//! The sink types and the trusted wrappers around the `slog` stage
//! constructors.
//!
//! A built pipeline is carried behind one uniform type per stage class:
//! [`Sink`] for synchronous stages (a format encoder, a verbosity filter)
//! and [`ReadySink`] for the asynchronously buffered, thread-safe result.
//! Each carries a ghost [`SinkPlan`] that records which stages were applied,
//! with which filter expression, and in what order; the verified composition
//! code in `config` pins that plan down.

use crate::log_format::LogFormat;
use slog::Drain;
use vstd::prelude::*;

verus! {

/// The shape of an assembled pipeline: a format encoder, optionally wrapped
/// in a verbosity filter, optionally wrapped in asynchronous buffering.
pub enum SinkPlan {
    /// A bare format encoder.
    Format(LogFormat),
    /// A verbosity filter around an inner stage. `filter` is the expression
    /// handed to the filter engine, or `None` for the engine's built-in
    /// default behavior.
    Filtered { filter: Option<Seq<char>>, inner: Box<SinkPlan> },
    /// Asynchronous buffering around an inner stage.
    Buffered(Box<SinkPlan>),
}

/// A synchronous drain stage behind one uniform type, so that the two format
/// encoders and the optional filter stage collapse into a single return type.
/// Opaque to the verifier; its contents are described only by the ghost plan
/// of the [`Sink`] that carries it.
#[verifier::external_body]
pub struct RawSink {
    drain: Box<dyn slog::Drain<Ok = (), Err = slog::Never> + Send>,
}

/// A synchronous sink: a drain plus the ghost record of the stages that
/// built it.
pub struct Sink {
    raw: RawSink,
    plan: Ghost<SinkPlan>,
}

impl View for Sink {
    type V = SinkPlan;

    closed spec fn view(&self) -> SinkPlan {
        self.plan@
    }
}

/// An asynchronously buffered drain, safe for concurrent use from arbitrary
/// producer threads and ready for `slog::Logger::root`. Opaque to the
/// verifier; its contents are described only by the ghost plan of the
/// [`ReadySink`] that carries it.
#[verifier::external_body]
pub struct RawReadySink {
    /// The drain itself, reachable by the embedding application so that it
    /// can bind it to a logger root.
    pub drain: std::sync::Arc<dyn slog::SendSyncRefUnwindSafeDrain<Ok = (), Err = slog::Never>>,
}

/// An asynchronously buffered sink, ready to use: the buffering stage owns a
/// consumer thread that serializes delivery, so the sink can be shared across
/// producer threads for the rest of the process lifetime.
pub struct ReadySink {
    /// The drain itself, reachable by the embedding application so that it
    /// can bind it to a logger root.
    pub raw: RawReadySink,
    plan: Ghost<SinkPlan>,
}

impl View for ReadySink {
    type V = SinkPlan;

    closed spec fn view(&self) -> SinkPlan {
        self.plan@
    }
}

/// Relies on `slog_term::TermDecorator::new().stdout().build()` and
/// `slog_term::CompactFormat::new(..).build().fuse()`: builds the
/// human-readable single-line encoder writing to standard output.
#[verifier::external_body]
fn raw_terminal() -> RawSink {
    let decorator = slog_term::TermDecorator::new().stdout().build();
    let drain = slog_term::CompactFormat::new(decorator).build().fuse();
    RawSink { drain: Box::new(drain) }
}

/// Relies on `slog_json::Json::default(..)` and `slog::Drain::fuse`: builds
/// the one-record-per-line JSON encoder writing to standard output.
#[verifier::external_body]
fn raw_json() -> RawSink {
    let drain = slog_json::Json::default(std::io::stdout()).fuse();
    RawSink { drain: Box::new(drain) }
}

/// Relies on `slog_envlogger::LogBuilder::new(..).parse(filters).build()`:
/// wraps a drain in the verbosity filter configured with the given filter
/// expression.
#[verifier::external_body]
fn raw_envlogger(inner: RawSink, filters: &str) -> RawSink {
    let builder = slog_envlogger::LogBuilder::new(inner.drain).parse(filters);
    RawSink { drain: Box::new(builder.build()) }
}

/// Relies on `slog_envlogger::LogBuilder::new(..).build()`: wraps a drain in
/// the verbosity filter with the engine's built-in default behavior (a
/// directive blocking everything below "error" severity).
#[verifier::external_body]
fn raw_envlogger_default(inner: RawSink) -> RawSink {
    let builder = slog_envlogger::LogBuilder::new(inner.drain);
    RawSink { drain: Box::new(builder.build()) }
}

/// Relies on `slog_async::Async::new(..).build()` and `slog::Drain::fuse`:
/// moves log delivery off the producing thread onto a queue owned by a
/// consumer thread, yielding a thread-safe drain.
#[verifier::external_body]
fn raw_async(inner: RawSink) -> RawReadySink {
    let drain = slog_async::Async::new(inner.drain).build().fuse();
    RawReadySink { drain: std::sync::Arc::new(drain) }
}

/// Builds the terminal (human-readable) format encoder stage.
pub fn terminal_sink() -> (s: Sink)
    ensures
        s@ == SinkPlan::Format(LogFormat::Terminal),
{
    Sink { raw: raw_terminal(), plan: Ghost(SinkPlan::Format(LogFormat::Terminal)) }
}

/// Builds the JSON (machine-readable) format encoder stage.
pub fn json_sink() -> (s: Sink)
    ensures
        s@ == SinkPlan::Format(LogFormat::Json),
{
    Sink { raw: raw_json(), plan: Ghost(SinkPlan::Format(LogFormat::Json)) }
}

/// Wraps a sink in the verbosity filter stage, handing the given expression
/// to the filter engine.
pub fn filter_sink(inner: Sink, filters: &str) -> (s: Sink)
    ensures
        s@ == (SinkPlan::Filtered { filter: Some(filters@), inner: Box::new(inner@) }),
{
    let ghost plan = SinkPlan::Filtered { filter: Some(filters@), inner: Box::new(inner@) };
    Sink { raw: raw_envlogger(inner.raw, filters), plan: Ghost(plan) }
}

/// Wraps a sink in the verbosity filter stage with the engine's built-in
/// default behavior.
pub fn filter_sink_default(inner: Sink) -> (s: Sink)
    ensures
        s@ == (SinkPlan::Filtered { filter: None, inner: Box::new(inner@) }),
{
    let ghost plan = SinkPlan::Filtered { filter: None, inner: Box::new(inner@) };
    Sink { raw: raw_envlogger_default(inner.raw), plan: Ghost(plan) }
}

/// Wraps a sink in the asynchronous buffering stage, the outermost layer.
pub fn buffer_sink(inner: Sink) -> (s: ReadySink)
    ensures
        s@ == SinkPlan::Buffered(Box::new(inner@)),
{
    let ghost plan = SinkPlan::Buffered(Box::new(inner@));
    ReadySink { raw: raw_async(inner.raw), plan: Ghost(plan) }
}

} // verus!
