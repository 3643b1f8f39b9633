//! The record of one timed operation: its identity, attributes and outcome.
use vstd::prelude::*;
use crate::attributes::{AttributeSeq, KeyValue, attrs_view, push_attribute};
use crate::context::TraceContext;

verus! {

/// The role of a span.
#[derive(Clone, Copy, Debug, PartialEq, Eq, Structural)]
pub enum SpanKind {
    /// Handling an inbound request.
    Server,
    /// Sending an outbound request.
    Client,
}

/// The terminal status of a span, as it is reasoned about.
pub enum StatusView {
    Unset,
    Success,
    Error(Seq<char>),
}

/// The terminal status of a span.
#[derive(Clone, Debug)]
pub enum SpanStatus {
    Unset,
    Success,
    /// A failure, with its description.
    Error(String),
}

impl View for SpanStatus {
    type V = StatusView;

    open spec fn view(&self) -> StatusView {
        match self {
            SpanStatus::Unset => StatusView::Unset,
            SpanStatus::Success => StatusView::Success,
            SpanStatus::Error(s) => StatusView::Error(s@),
        }
    }
}

/// What the id generator and sampler decided for a new span: its span id,
/// and the trace id and sampling decision used when it starts a new trace.
#[derive(Clone, Copy, Debug, PartialEq, Eq, Structural)]
pub struct SpanIds {
    pub trace_id: u128,
    pub span_id: u64,
    pub sampled: bool,
}

/// The context of a span started under `parent` with the drawn `ids`, kept as
/// they came: a child of a valid parent keeps the parent's trace and sampling
/// decision; otherwise the drawn trace id and decision start a new trace. Ids
/// that are unset stay unset.
pub open spec fn child_context(parent: TraceContext, ids: SpanIds) -> TraceContext {
    if parent.valid() {
        TraceContext { trace_id: parent.trace_id, span_id: ids.span_id, sampled: parent.sampled }
    } else {
        TraceContext { trace_id: ids.trace_id, span_id: ids.span_id, sampled: ids.sampled }
    }
}

/// Drawn ids that make a valid child of `parent`: a span id that is set and
/// is not the parent's, and a set trace id where a new trace starts.
pub open spec fn fresh_ids(parent: TraceContext, ids: SpanIds) -> bool {
    &&& ids.span_id != 0
    &&& ids.span_id != parent.span_id
    &&& (parent.valid() || ids.trace_id != 0)
}

/// The context for a new span under `parent`.
pub fn start_context(parent: &TraceContext, ids: &SpanIds) -> (r: TraceContext)
    ensures
        r == child_context(*parent, *ids),
{
    if parent.is_valid() {
        TraceContext { trace_id: parent.trace_id, span_id: ids.span_id, sampled: parent.sampled }
    } else {
        TraceContext { trace_id: ids.trace_id, span_id: ids.span_id, sampled: ids.sampled }
    }
}

/// A child started with fresh ids has a valid context with a span id of its
/// own, in its parent's trace where the parent is valid.
pub proof fn lemma_child_context_valid(parent: TraceContext, ids: SpanIds)
    requires
        fresh_ids(parent, ids),
    ensures
        child_context(parent, ids).valid(),
        child_context(parent, ids).span_id != parent.span_id,
        parent.valid() ==> child_context(parent, ids).trace_id == parent.trace_id,
{
}

/// A span about to start, as it is reasoned about.
pub struct PlanView {
    pub name: Seq<char>,
    pub kind: SpanKind,
    pub parent: TraceContext,
    pub trace_state: Seq<char>,
    pub attributes: AttributeSeq,
}

/// The span a plan gives once `ids` are drawn.
pub open spec fn started(p: PlanView, ids: SpanIds) -> SpanView {
    SpanView {
        name: p.name,
        kind: p.kind,
        parent: p.parent,
        context: child_context(p.parent, ids),
        trace_state: p.trace_state,
        attributes: p.attributes,
        status: StatusView::Unset,
        ended: false,
    }
}

/// Everything a span starts with but its identifiers: name, kind, parent
/// context, the parent's trace state and the attributes. The identifiers are
/// drawn once the telemetry backend has seen the rest.
#[derive(Debug)]
pub struct SpanPlan {
    name: String,
    kind: SpanKind,
    parent: TraceContext,
    trace_state: String,
    attributes: Vec<KeyValue>,
}

impl View for SpanPlan {
    type V = PlanView;

    closed spec fn view(&self) -> PlanView {
        PlanView {
            name: self.name@,
            kind: self.kind,
            parent: self.parent,
            trace_state: self.trace_state@,
            attributes: attrs_view(self.attributes@),
        }
    }
}

impl SpanPlan {
    /// A plan from its parts.
    pub fn new(
        name: String,
        kind: SpanKind,
        parent: TraceContext,
        trace_state: String,
        attributes: Vec<KeyValue>,
    ) -> (r: SpanPlan)
        ensures
            r@ == (PlanView {
                name: name@,
                kind,
                parent,
                trace_state: trace_state@,
                attributes: attrs_view(attributes@),
            }),
    {
        SpanPlan { name, kind, parent, trace_state, attributes }
    }

    /// The span name.
    pub fn name(&self) -> (r: &str)
        ensures
            r@ == self@.name,
    {
        self.name.as_str()
    }

    /// The span kind.
    pub fn kind(&self) -> (r: SpanKind)
        ensures
            r == self@.kind,
    {
        self.kind
    }

    /// The parent context.
    pub fn parent(&self) -> (r: TraceContext)
        ensures
            r == self@.parent,
    {
        self.parent
    }

    /// The trace state carried along with the parent context.
    pub fn trace_state(&self) -> (r: &str)
        ensures
            r@ == self@.trace_state,
    {
        self.trace_state.as_str()
    }

    /// The attributes the span starts with.
    pub fn attributes(&self) -> (r: &Vec<KeyValue>)
        ensures
            attrs_view(r@) == self@.attributes,
    {
        &self.attributes
    }

    /// Starts the span with the drawn `ids`.
    pub fn start(self, ids: SpanIds) -> (r: Span)
        ensures
            r@ == started(self@, ids),
    {
        let context = start_context(&self.parent, &ids);
        Span {
            name: self.name,
            kind: self.kind,
            parent: self.parent,
            context,
            trace_state: self.trace_state,
            attributes: self.attributes,
            status: SpanStatus::Unset,
            ended: false,
        }
    }
}

/// A span as it is reasoned about.
pub struct SpanView {
    pub name: Seq<char>,
    pub kind: SpanKind,
    pub parent: TraceContext,
    pub context: TraceContext,
    pub trace_state: Seq<char>,
    pub attributes: AttributeSeq,
    pub status: StatusView,
    pub ended: bool,
}

/// One span: created when an operation starts, extended while it runs, and
/// ended exactly once. Nothing changes an ended span.
#[derive(Debug)]
pub struct Span {
    name: String,
    kind: SpanKind,
    parent: TraceContext,
    context: TraceContext,
    trace_state: String,
    attributes: Vec<KeyValue>,
    status: SpanStatus,
    ended: bool,
}

impl View for Span {
    type V = SpanView;

    closed spec fn view(&self) -> SpanView {
        SpanView {
            name: self.name@,
            kind: self.kind,
            parent: self.parent,
            context: self.context,
            trace_state: self.trace_state@,
            attributes: attrs_view(self.attributes@),
            status: self.status@,
            ended: self.ended,
        }
    }
}

impl Span {
    /// Appends an attribute to a running span.
    pub fn set_attribute(&mut self, kv: KeyValue)
        requires
            !old(self)@.ended,
        ensures
            final(self)@ == (SpanView { attributes: old(self)@.attributes.push(kv@), ..old(self)@ }),
    {
        push_attribute(&mut self.attributes, kv);
    }

    /// Sets the status of a running span.
    pub fn set_status(&mut self, status: SpanStatus)
        requires
            !old(self)@.ended,
        ensures
            final(self)@ == (SpanView { status: status@, ..old(self)@ }),
    {
        self.status = status;
    }

    /// Ends a running span.
    pub fn end(&mut self)
        requires
            !old(self)@.ended,
        ensures
            final(self)@ == (SpanView { ended: true, ..old(self)@ }),
    {
        self.ended = true;
    }

    /// The span name.
    pub fn name(&self) -> (r: &str)
        ensures
            r@ == self@.name,
    {
        self.name.as_str()
    }

    /// The span kind.
    pub fn kind(&self) -> (r: SpanKind)
        ensures
            r == self@.kind,
    {
        self.kind
    }

    /// The context the span was started under.
    pub fn parent(&self) -> (r: TraceContext)
        ensures
            r == self@.parent,
    {
        self.parent
    }

    /// The span's own context.
    pub fn context(&self) -> (r: TraceContext)
        ensures
            r == self@.context,
    {
        self.context
    }

    /// The trace state carried along with the span's context.
    pub fn trace_state(&self) -> (r: &str)
        ensures
            r@ == self@.trace_state,
    {
        self.trace_state.as_str()
    }

    /// The attributes, in the order they were set.
    pub fn attributes(&self) -> (r: &Vec<KeyValue>)
        ensures
            attrs_view(r@) == self@.attributes,
    {
        &self.attributes
    }

    /// The status.
    pub fn status(&self) -> (r: &SpanStatus)
        ensures
            r@ == self@.status,
    {
        &self.status
    }

    /// Whether the span has ended.
    pub fn is_ended(&self) -> (r: bool)
        ensures
            r == self@.ended,
    {
        self.ended
    }
}

} // verus!
