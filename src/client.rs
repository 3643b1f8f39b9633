//! The client side: a span for each outbound request, and the context that
//! the request carries to the server.
use vstd::prelude::*;
use crate::attributes::{
    AttributeSeq, AttributeView, KeyValue, Method, attrs_view, decimal, decimal_i64,
    http_method_str, method_name, parse_i64, push_attribute, push_decimal,
    HTTP_REQUEST_METHOD, HTTP_RESPONSE_STATUS_CODE, MESSAGING_MESSAGE_BODY_SIZE, SERVER_ADDRESS,
    SERVER_PORT, URL_FULL, USER_AGENT_ORIGINAL,
};
use crate::carrier::{HeaderCarrier, HeaderSeq};
use crate::context::TraceContext;
use crate::propagation::{Propagator, injected, injected_state, lemma_state_round_trip};
use crate::server::{Outcome, OutcomeView, ServerRequest, server_span_started};
use crate::span::{
    PlanView, Span, SpanIds, SpanKind, SpanPlan, SpanStatus, SpanView, StatusView, child_context,
    fresh_ids, lemma_child_context_valid, started,
};
use crate::text::{push_char, push_str, to_string};

verus! {

/// What the tracer reads of an outbound request.
#[derive(Clone, Debug)]
pub struct ClientRequest {
    pub method: Method,
    pub scheme: Option<String>,
    pub host: Option<String>,
    pub port: Option<u16>,
    pub path: String,
    pub query: Option<String>,
    /// The user agent header, where it is valid text.
    pub user_agent: Option<String>,
    /// The content length header, where it is valid text.
    pub content_length: Option<String>,
}

/// The text of an optional string; empty where there is none.
pub open spec fn text_or_empty(s: Option<String>) -> Seq<char> {
    match s {
        Some(t) => t@,
        None => Seq::empty(),
    }
}

/// A port worth recording: given, and neither 80 nor 443.
pub open spec fn explicit_port(port: Option<u16>) -> Option<u16> {
    match port {
        Some(p) => if p != 80 && p != 443 {
            Some(p)
        } else {
            None
        },
        None => None,
    }
}

/// `{scheme}://{host}[:{port}]{path}[?{query}]`, the port only where it is
/// neither 80 nor 443.
pub open spec fn url_of(req: ClientRequest) -> Seq<char> {
    let port = match explicit_port(req.port) {
        Some(p) => seq![':'] + decimal(p as nat),
        None => Seq::empty(),
    };
    let query = match req.query {
        Some(q) => seq!['?'] + q@,
        None => Seq::empty(),
    };
    text_or_empty(req.scheme) + "://"@ + text_or_empty(req.host) + port + req.path@ + query
}

/// The full URL of the request.
pub fn http_url(req: &ClientRequest) -> (r: String)
    ensures
        r@ == url_of(*req),
{
    let mut out = String::new();
    if let Some(scheme) = &req.scheme {
        push_str(&mut out, scheme.as_str());
    }
    push_str(&mut out, "://");
    if let Some(host) = &req.host {
        push_str(&mut out, host.as_str());
    }
    if let Some(port) = req.port {
        if port != 80 && port != 443 {
            push_char(&mut out, ':');
            push_decimal(&mut out, port as u64);
        }
    }
    push_str(&mut out, req.path.as_str());
    if let Some(query) = &req.query {
        push_char(&mut out, '?');
        push_str(&mut out, query.as_str());
    }
    assert(out@ =~= url_of(*req));
    out
}

/// The host recorded as the server address; `unknown` where there is none.
pub open spec fn server_address_of(req: ClientRequest) -> Seq<char> {
    match req.host {
        Some(h) => h@,
        None => "unknown"@,
    }
}

/// The attributes of a client span, in order: server address, method, full
/// URL, port unless 80 or 443, user agent, and the content length where it
/// reads as a number.
pub open spec fn client_attributes(req: ClientRequest) -> AttributeSeq {
    let a0 = seq![
        (SERVER_ADDRESS@, AttributeView::Str(server_address_of(req))),
        (HTTP_REQUEST_METHOD@, AttributeView::Str(method_name(req.method))),
        (URL_FULL@, AttributeView::Str(url_of(req))),
    ];
    let a1 = match explicit_port(req.port) {
        Some(p) => a0.push((SERVER_PORT@, AttributeView::I64(p as i64))),
        None => a0,
    };
    let a2 = match req.user_agent {
        Some(u) => a1.push((USER_AGENT_ORIGINAL@, AttributeView::Str(u@))),
        None => a1,
    };
    match req.content_length {
        Some(t) => match decimal_i64(t@) {
            Some(n) => a2.push((MESSAGING_MESSAGE_BODY_SIZE@, AttributeView::I64(n))),
            None => a2,
        },
        None => a2,
    }
}

/// Appends the attributes of the client span for `req` to `attrs`.
pub fn push_client_attributes(attrs: &mut Vec<KeyValue>, req: &ClientRequest)
    ensures
        attrs_view(final(attrs)@) == attrs_view(old(attrs)@) + client_attributes(*req),
{
    let ghost start = attrs_view(attrs@);
    let address = match &req.host {
        Some(h) => h.clone(),
        None => to_string("unknown"),
    };
    push_attribute(attrs, KeyValue::string(SERVER_ADDRESS, address));
    push_attribute(attrs, KeyValue::string(HTTP_REQUEST_METHOD, http_method_str(&req.method)));
    push_attribute(attrs, KeyValue::string(URL_FULL, http_url(req)));
    if let Some(port) = req.port {
        if port != 80 && port != 443 {
            push_attribute(attrs, KeyValue::integer(SERVER_PORT, port as i64));
        }
    }
    if let Some(agent) = &req.user_agent {
        push_attribute(attrs, KeyValue::string(USER_AGENT_ORIGINAL, agent.clone()));
    }
    if let Some(text) = &req.content_length {
        if let Some(n) = parse_i64(text.as_str()) {
            push_attribute(attrs, KeyValue::integer(MESSAGING_MESSAGE_BODY_SIZE, n));
        }
    }
    assert(attrs_view(attrs@) =~= start + client_attributes(*req));
}

/// The authority of the request: the host, with the port where one is given.
pub open spec fn authority_of(req: ClientRequest) -> Seq<char> {
    text_or_empty(req.host) + match req.port {
        Some(p) => seq![':'] + decimal(p as nat),
        None => Seq::empty(),
    }
}

/// The default client span name: the method, then the URL without its query.
pub open spec fn default_span_name(req: ClientRequest) -> Seq<char> {
    method_name(req.method) + seq![' '] + text_or_empty(req.scheme) + "://"@ + authority_of(req)
        + req.path@
}

/// The default client span name: `{method} {scheme}://{authority}{path}`.
pub fn default_span_namer(req: &ClientRequest) -> (r: String)
    ensures
        r@ == default_span_name(*req),
{
    let mut out = http_method_str(&req.method);
    push_char(&mut out, ' ');
    if let Some(scheme) = &req.scheme {
        push_str(&mut out, scheme.as_str());
    }
    push_str(&mut out, "://");
    if let Some(host) = &req.host {
        push_str(&mut out, host.as_str());
    }
    if let Some(port) = req.port {
        push_char(&mut out, ':');
        push_decimal(&mut out, port as u64);
    }
    push_str(&mut out, req.path.as_str());
    assert(out@ =~= default_span_name(*req));
    out
}

/// The status of a client span for a response: unset for 100 to 399; an
/// error for 400 to 599, since the request did not achieve its goal; an
/// error naming the code for anything else.
pub open spec fn client_status(code: u16) -> StatusView {
    if 100 <= code <= 399 {
        StatusView::Unset
    } else if 400 <= code <= 599 {
        StatusView::Error("Unexpected status code"@)
    } else {
        StatusView::Error("Invalid HTTP status code "@ + decimal(code as nat))
    }
}

/// The span status for a response status code.
pub fn convert_status(code: u16) -> (r: SpanStatus)
    ensures
        r@ == client_status(code),
{
    if 100 <= code && code <= 399 {
        SpanStatus::Unset
    } else if 400 <= code && code <= 599 {
        SpanStatus::Error(to_string("Unexpected status code"))
    } else {
        let mut text = to_string("Invalid HTTP status code ");
        push_decimal(&mut text, code as u64);
        SpanStatus::Error(text)
    }
}

/// Client-side classification: a response from 100 to 399 is no error; one
/// from 400 to 599 is an error, 4xx included; any other code is an error whose
/// description names the code. A transport error is an error with its
/// description.
pub proof fn lemma_client_error_classification(
    cx: TraceContext,
    state: Seq<char>,
    extra: AttributeSeq,
    req: ClientRequest,
    name: Seq<char>,
    ids: SpanIds,
    code: u16,
    description: Seq<char>,
)
    ensures
        ({
            let s = client_span_started(cx, state, extra, req, name, ids);
            let st = client_span_finished(s, OutcomeView::Response(code)).status;
            &&& 100 <= code <= 399 ==> st == StatusView::Unset
            &&& 400 <= code <= 599 ==> st == StatusView::Error("Unexpected status code"@)
            &&& (code < 100 || code > 599) ==> st == StatusView::Error(
                "Invalid HTTP status code "@ + decimal(code as nat),
            )
            &&& client_span_finished(s, OutcomeView::Failure(description)).status
                == StatusView::Error(description)
        }),
{
}

/// The client span once the request finished: a response sets the status by
/// its code and records the code; a transport error marks it failed with its
/// description. Either way the span ends.
pub open spec fn client_span_finished(s: SpanView, o: OutcomeView) -> SpanView {
    match o {
        OutcomeView::Response(code) => SpanView {
            attributes: s.attributes.push(
                (HTTP_RESPONSE_STATUS_CODE@, AttributeView::I64(code as i64)),
            ),
            status: client_status(code),
            ended: true,
            ..s
        },
        OutcomeView::Failure(d) => SpanView { status: StatusView::Error(d), ended: true, ..s },
    }
}

/// Records how the request finished on a running client span and ends it.
pub fn record_client_outcome(span: &mut Span, outcome: Outcome)
    requires
        !old(span)@.ended,
    ensures
        final(span)@ == client_span_finished(old(span)@, outcome@),
{
    match outcome {
        Outcome::Response(code) => {
            span.set_status(convert_status(code));
            span.set_attribute(KeyValue::integer(HTTP_RESPONSE_STATUS_CODE, code as i64));
        },
        Outcome::Failure(description) => {
            span.set_status(SpanStatus::Error(description));
        },
    }
    span.end();
}

/// The client span before its identifiers are drawn: under `cx` and its
/// trace state, with the caller's attributes followed by the request's.
pub open spec fn client_plan(
    cx: TraceContext,
    state: Seq<char>,
    extra: AttributeSeq,
    req: ClientRequest,
    name: Seq<char>,
) -> PlanView {
    PlanView {
        name,
        kind: SpanKind::Client,
        parent: cx,
        trace_state: state,
        attributes: extra + client_attributes(req),
    }
}

/// The client span as it is started with the drawn `ids`.
pub open spec fn client_span_started(
    cx: TraceContext,
    state: Seq<char>,
    extra: AttributeSeq,
    req: ClientRequest,
    name: Seq<char>,
    ids: SpanIds,
) -> SpanView {
    started(client_plan(cx, state, extra, req, name), ids)
}

/// Tracing intent attached to an outbound request: the parent context, its
/// trace state, and extra attributes for its span.
#[derive(Debug)]
pub struct ClientTrace {
    cx: TraceContext,
    trace_state: String,
    attrs: Vec<KeyValue>,
}

impl ClientTrace {
    /// Traces a request as a child of `cx`.
    pub fn new(cx: TraceContext) -> (r: ClientTrace)
        ensures
            r.parent_spec() == cx,
            r.state_spec() == Seq::<char>::empty(),
            r.extra_spec() == Seq::<(Seq<char>, AttributeView)>::empty(),
    {
        let r = ClientTrace { cx, trace_state: String::new(), attrs: Vec::new() };
        assert(attrs_view(r.attrs@) =~= Seq::<(Seq<char>, AttributeView)>::empty());
        r
    }

    /// The parent context.
    pub closed spec fn parent_spec(&self) -> TraceContext {
        self.cx
    }

    /// The trace state of the parent context.
    pub closed spec fn state_spec(&self) -> Seq<char> {
        self.trace_state@
    }

    /// The same intent, with `trace_state` as the parent's trace state.
    pub fn with_trace_state(self, trace_state: String) -> (r: ClientTrace)
        ensures
            r.parent_spec() == self.parent_spec(),
            r.state_spec() == trace_state@,
            r.extra_spec() == self.extra_spec(),
    {
        ClientTrace { cx: self.cx, trace_state, attrs: self.attrs }
    }

    /// The extra attributes.
    pub closed spec fn extra_spec(&self) -> AttributeSeq {
        attrs_view(self.attrs@)
    }

    /// The parent context.
    pub fn parent(&self) -> (r: TraceContext)
        ensures
            r == self.parent_spec(),
    {
        self.cx
    }

    /// Adds attributes to the span; the standard ones are still recorded.
    pub fn with_attributes(self, attrs: Vec<KeyValue>) -> (r: ClientTrace)
        ensures
            r.parent_spec() == self.parent_spec(),
            r.state_spec() == self.state_spec(),
            r.extra_spec() == self.extra_spec() + attrs_view(attrs@),
    {
        let mut all = self.attrs;
        let mut i: usize = 0;
        let ghost start = attrs_view(all@);
        while i < attrs.len()
            invariant
                i <= attrs@.len(),
                attrs_view(all@) == start + attrs_view(attrs@.subrange(0, i as int)),
            decreases attrs@.len() - i,
        {
            push_attribute(&mut all, attrs[i].duplicate());
            assert(attrs_view(attrs@.subrange(0, i + 1)) =~= attrs_view(
                attrs@.subrange(0, i as int),
            ).push(attrs@[i as int]@));
            i += 1;
        }
        assert(attrs@.subrange(0, attrs@.len() as int) =~= attrs@);
        ClientTrace { cx: self.cx, trace_state: self.trace_state, attrs: all }
    }

    /// The attributes of the span of `req`: the extra ones, then the request's.
    pub fn span_attributes(&self, req: &ClientRequest) -> (r: Vec<KeyValue>)
        ensures
            attrs_view(r@) == self.extra_spec() + client_attributes(*req),
    {
        let mut attrs: Vec<KeyValue> = Vec::new();
        let mut i: usize = 0;
        assert(attrs_view(attrs@) =~= attrs_view(self.attrs@.subrange(0, 0)));
        while i < self.attrs.len()
            invariant
                i <= self.attrs@.len(),
                attrs_view(attrs@) == attrs_view(self.attrs@.subrange(0, i as int)),
            decreases self.attrs@.len() - i,
        {
            push_attribute(&mut attrs, self.attrs[i].duplicate());
            assert(attrs_view(self.attrs@.subrange(0, i + 1)) =~= attrs_view(
                self.attrs@.subrange(0, i as int),
            ).push(self.attrs@[i as int]@));
            i += 1;
        }
        assert(self.attrs@.subrange(0, self.attrs@.len() as int) =~= self.attrs@);
        push_client_attributes(&mut attrs, req);
        attrs
    }

    /// Prepares the client span of `req`, named `name`.
    pub fn plan_span(&self, req: &ClientRequest, name: String) -> (r: SpanPlan)
        ensures
            r@ == client_plan(self.parent_spec(), self.state_spec(), self.extra_spec(), *req, name@),
    {
        let attrs = self.span_attributes(req);
        SpanPlan::new(name, SpanKind::Client, self.cx, self.trace_state.clone(), attrs)
    }

    /// Starts the client span of `req`, named `name`.
    pub fn start_span(&self, req: &ClientRequest, name: String, ids: SpanIds) -> (r: Span)
        ensures
            r@ == client_span_started(
                self.parent_spec(),
                self.state_spec(),
                self.extra_spec(),
                *req,
                name@,
                ids,
            ),
    {
        self.plan_span(req, name).start(ids)
    }
}

/// Writes the context of a client span, and its trace state, into the
/// outbound headers, so that the server reads the span as its parent.
pub fn inject_span_context(propagator: Propagator, span: &Span, headers: &mut HeaderCarrier)
    ensures
        final(headers)@ == injected_state(
            propagator,
            span@.context,
            span@.trace_state,
            injected(propagator, span@.context, old(headers)@),
        ),
{
    let cx = span.context();
    propagator.inject(&cx, headers);
    propagator.inject_state(&cx, span.trace_state(), headers);
}

/// Context chaining: a client span started under a valid context `cx`
/// injects its context into the request headers; the server span that reads
/// them has that client span as its parent, stays in the trace of `cx`, gets
/// a span id of its own where its drawn id is fresh, and in the W3C format
/// carries on the client's trace state.
pub proof fn lemma_context_chaining(
    p: Propagator,
    cx: TraceContext,
    state: Seq<char>,
    extra: AttributeSeq,
    client_req: ClientRequest,
    name: Seq<char>,
    client_ids: SpanIds,
    headers: HeaderSeq,
    route: Seq<char>,
    server_req: ServerRequest,
    server_ids: SpanIds,
)
    requires
        cx.valid(),
        fresh_ids(cx, client_ids),
        fresh_ids(child_context(cx, client_ids), server_ids),
    ensures
        ({
            let client = client_span_started(cx, state, extra, client_req, name, client_ids);
            let server = server_span_started(
                p,
                route,
                injected_state(
                    p,
                    client.context,
                    client.trace_state,
                    injected(p, client.context, headers),
                ),
                server_req,
                server_ids,
            );
            &&& server.parent == client.context
            &&& server.parent.trace_id == cx.trace_id
            &&& server.context.trace_id == cx.trace_id
            &&& server.context.span_id != client.context.span_id
            &&& p == Propagator::W3c ==> server.trace_state == client.trace_state
        }),
{
    let c = child_context(cx, client_ids);
    lemma_child_context_valid(cx, client_ids);
    lemma_state_round_trip(p, c, state, headers);
    lemma_child_context_valid(c, server_ids);
}

} // verus!
