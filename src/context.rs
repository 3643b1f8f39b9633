//! The position of a span in a distributed trace.
use vstd::prelude::*;

verus! {

/// A trace identifier, a span identifier and the sampling decision.
///
/// The all-zero value stands for "no trace information": a span started
/// under it is the root of a new trace.
#[derive(Clone, Copy, Debug, PartialEq, Eq, Structural)]
pub struct TraceContext {
    pub trace_id: u128,
    pub span_id: u64,
    pub sampled: bool,
}

impl TraceContext {
    /// Both identifiers are set.
    pub open spec fn valid(self) -> bool {
        self.trace_id != 0 && self.span_id != 0
    }

    /// The context that carries no trace information.
    pub open spec fn none() -> TraceContext {
        TraceContext { trace_id: 0, span_id: 0, sampled: false }
    }

    /// The context that carries no trace information.
    pub fn empty() -> (r: TraceContext)
        ensures
            r == TraceContext::none(),
    {
        TraceContext { trace_id: 0, span_id: 0, sampled: false }
    }

    /// Whether both identifiers are set.
    pub fn is_valid(&self) -> (r: bool)
        ensures
            r == self.valid(),
    {
        self.trace_id != 0 && self.span_id != 0
    }
}

} // verus!
