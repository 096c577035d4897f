//! Utilities for callers who drive the build process manually.

use crate::drain::ReadySink;
use crate::drain::Sink;
use crate::drain::SinkPlan;
use crate::drain::buffer_sink;
use vstd::prelude::*;

verus! {

/// Wraps a synchronous sink with the asynchronous buffering stage, making it
/// thread-safe and ready for `slog::Logger::root`.
pub fn drain_async_fuse(drain: Sink) -> (s: ReadySink)
    ensures
        s@ == SinkPlan::Buffered(Box::new(drain@)),
{
    buffer_sink(drain)
}

} // verus!
