//! The server side: a span for each inbound request.
use vstd::prelude::*;
use crate::attributes::{
    AttributeSeq, AttributeView, KeyValue, Method, Version, attrs_view, decimal_i64,
    http_method_str, method_name, parse_i64, protocol_version, push_attribute, url_scheme,
    version_name, CLIENT_ADDRESS, HTTP_REQUEST_METHOD, HTTP_ROUTE, MESSAGING_MESSAGE_BODY_SIZE,
    NETWORK_PEER_ADDRESS, NETWORK_PROTOCOL_VERSION, HTTP_RESPONSE_STATUS_CODE, SERVER_ADDRESS, SERVER_PORT, URL_PATH,
    URL_QUERY, URL_SCHEME, USER_AGENT_ORIGINAL,
};
use crate::carrier::{HeaderCarrier, HeaderSeq};
use crate::context::TraceContext;
use crate::propagation::{Propagator, extracted, extracted_state};
use crate::route_formatter::{RouteFormatter, PassThroughFormatter};
use crate::span::{
    PlanView, Span, SpanIds, SpanKind, SpanPlan, SpanStatus, SpanView, StatusView, child_context,
    started,
};
use crate::status::{canonical_reason, status_reason};
use crate::text::{find_char, first_index, substring, to_string};

verus! {

/// What the tracer reads of an inbound request.
#[derive(Clone, Debug)]
pub struct ServerRequest {
    pub method: Method,
    pub version: Version,
    /// The scheme the request came in with.
    pub scheme: String,
    /// The host the request was addressed to, with its port if one was given.
    pub host: String,
    /// The path of the request target, where it has one.
    pub path: Option<String>,
    /// The query of the request target, where it has a path and a query.
    pub query: Option<String>,
    /// The route pattern that matched the request, where one did.
    pub match_pattern: Option<String>,
    /// The client address as reported through proxies.
    pub realip_remote_addr: Option<String>,
    /// The address of the directly connected peer.
    pub peer_ip: Option<String>,
    /// The user agent header, where it is valid text.
    pub user_agent: Option<String>,
    /// The content length header, where it is valid text.
    pub content_length: Option<String>,
}

/// The host name: the host up to its first colon; none for an empty host.
pub open spec fn host_name(host: Seq<char>) -> Option<Seq<char>> {
    if host.len() == 0 {
        None
    } else {
        Some(host.subrange(0, first_index(host, ':')))
    }
}

/// The port text: what stands between the first colon of the host and the next.
pub open spec fn port_text(host: Seq<char>) -> Option<Seq<char>> {
    let k = first_index(host, ':');
    if k < host.len() {
        let rest = host.subrange(k + 1, host.len() as int);
        Some(rest.subrange(0, first_index(rest, ':')))
    } else {
        None
    }
}

/// The port given with the host, where it reads as a number.
pub open spec fn host_port(host: Seq<char>) -> Option<i64> {
    match port_text(host) {
        Some(t) => decimal_i64(t),
        None => None,
    }
}

/// Splits the host into its name and port, as they are recorded.
pub fn split_host(host: &str) -> (r: (Option<String>, Option<i64>))
    ensures
        match r.0 {
            Some(s) => host_name(host@) == Some(s@),
            None => host_name(host@) is None,
        },
        r.1 == host_port(host@),
{
    let n = host.unicode_len();
    let k = find_char(host, ':');
    let name = if n == 0 {
        None
    } else {
        Some(substring(host, 0, k))
    };
    let port = if k < n {
        let rest = substring(host, k + 1, n);
        let j = find_char(rest.as_str(), ':');
        let text = substring(rest.as_str(), 0, j);
        parse_i64(text.as_str())
    } else {
        None
    };
    (name, port)
}

/// `a` with `kv` appended when `cond` holds.
pub open spec fn push_if(a: AttributeSeq, cond: bool, kv: (Seq<char>, AttributeView)) -> AttributeSeq {
    if cond {
        a.push(kv)
    } else {
        a
    }
}

/// The peer address is recorded when it differs from the client address,
/// that is when the request came through a proxy.
pub open spec fn peer_differs(req: ServerRequest) -> bool {
    match (req.peer_ip, req.realip_remote_addr) {
        (Some(p), Some(r)) => p@ != r@,
        (Some(p), None) => true,
        _ => false,
    }
}

/// The attributes of a server span, in order: route, client address, peer
/// address when it differs, host name, port unless 80 or 443, path unless
/// `/`, query, scheme, method, protocol version, a positive content length,
/// and the user agent.
pub open spec fn server_attributes(req: ServerRequest, route: Seq<char>) -> AttributeSeq {
    let a0 = seq![(HTTP_ROUTE@, AttributeView::Str(route))];
    let a1 = match req.realip_remote_addr {
        Some(r) => a0.push((CLIENT_ADDRESS@, AttributeView::Str(r@))),
        None => a0,
    };
    let a2 = match req.peer_ip {
        Some(p) => push_if(a1, peer_differs(req), (NETWORK_PEER_ADDRESS@, AttributeView::Str(p@))),
        None => a1,
    };
    let a3 = match host_name(req.host@) {
        Some(h) => a2.push((SERVER_ADDRESS@, AttributeView::Str(h))),
        None => a2,
    };
    let a4 = match host_port(req.host@) {
        Some(p) => push_if(a3, p != 80 && p != 443, (SERVER_PORT@, AttributeView::I64(p))),
        None => a3,
    };
    let a5 = match req.path {
        Some(p) => push_if(a4, p@ != "/"@, (URL_PATH@, AttributeView::Str(p@))),
        None => a4,
    };
    let a6 = match (req.path, req.query) {
        (Some(_), Some(q)) => a5.push((URL_QUERY@, AttributeView::Str(q@))),
        _ => a5,
    };
    let a7 = a6.push((URL_SCHEME@, AttributeView::Str(req.scheme@))).push(
        (HTTP_REQUEST_METHOD@, AttributeView::Str(method_name(req.method))),
    ).push((NETWORK_PROTOCOL_VERSION@, AttributeView::Str(version_name(req.version))));
    let a8 = match req.content_length {
        Some(t) => match decimal_i64(t@) {
            Some(n) => push_if(a7, n > 0, (MESSAGING_MESSAGE_BODY_SIZE@, AttributeView::I64(n))),
            None => a7,
        },
        None => a7,
    };
    match req.user_agent {
        Some(u) => a8.push((USER_AGENT_ORIGINAL@, AttributeView::Str(u@))),
        None => a8,
    }
}

/// The attributes of the server span for `req` under `route`.
pub fn trace_attributes_from_request(req: &ServerRequest, http_route: &str) -> (r: Vec<KeyValue>)
    ensures
        attrs_view(r@) == server_attributes(*req, http_route@),
{
    let mut attributes: Vec<KeyValue> = Vec::new();
    proof {
        assert(attrs_view(attributes@) =~= Seq::<(Seq<char>, AttributeView)>::empty());
    }
    push_attribute(&mut attributes, KeyValue::string(HTTP_ROUTE, to_string(http_route)));
    if let Some(remote) = &req.realip_remote_addr {
        push_attribute(&mut attributes, KeyValue::string(CLIENT_ADDRESS, remote.clone()));
    }
    if let Some(peer) = &req.peer_ip {
        let differs = match &req.realip_remote_addr {
            Some(remote) => !crate::text::str_equal(peer.as_str(), remote.as_str()),
            None => true,
        };
        if differs {
            push_attribute(&mut attributes, KeyValue::string(NETWORK_PEER_ADDRESS, peer.clone()));
        }
    }
    let (name, port) = split_host(req.host.as_str());
    if let Some(name) = name {
        push_attribute(&mut attributes, KeyValue::string(SERVER_ADDRESS, name));
    }
    if let Some(port) = port {
        if port != 80 && port != 443 {
            push_attribute(&mut attributes, KeyValue::integer(SERVER_PORT, port));
        }
    }
    if let Some(path) = &req.path {
        proof {
            reveal_strlit("/");
        }
        if !crate::text::str_equal(path.as_str(), "/") {
            push_attribute(&mut attributes, KeyValue::string(URL_PATH, path.clone()));
        }
        if let Some(query) = &req.query {
            push_attribute(&mut attributes, KeyValue::string(URL_QUERY, query.clone()));
        }
    }
    push_attribute(&mut attributes, KeyValue::string(URL_SCHEME, url_scheme(req.scheme.as_str())));
    push_attribute(
        &mut attributes,
        KeyValue::string(HTTP_REQUEST_METHOD, http_method_str(&req.method)),
    );
    push_attribute(
        &mut attributes,
        KeyValue::string(NETWORK_PROTOCOL_VERSION, protocol_version(&req.version)),
    );
    if let Some(text) = &req.content_length {
        if let Some(n) = parse_i64(text.as_str()) {
            if n > 0 {
                push_attribute(&mut attributes, KeyValue::integer(MESSAGING_MESSAGE_BODY_SIZE, n));
            }
        }
    }
    if let Some(agent) = &req.user_agent {
        push_attribute(&mut attributes, KeyValue::string(USER_AGENT_ORIGINAL, agent.clone()));
    }
    attributes
}

} // verus!

verus! {

/// How the inner handler finished, as it is reasoned about.
pub enum OutcomeView {
    Response(u16),
    Failure(Seq<char>),
}

/// How the wrapped handler, or the transport, finished: a response with its
/// status code, or an error before any response, with its description.
#[derive(Clone, Debug)]
pub enum Outcome {
    Response(u16),
    Failure(String),
}

impl View for Outcome {
    type V = OutcomeView;

    open spec fn view(&self) -> OutcomeView {
        match self {
            Outcome::Response(code) => OutcomeView::Response(*code),
            Outcome::Failure(d) => OutcomeView::Failure(d@),
        }
    }
}

/// The route pattern of the request, or `default` where none matched.
pub open spec fn route_pattern(req: ServerRequest) -> Seq<char> {
    match req.match_pattern {
        Some(p) => p@,
        None => "default"@,
    }
}

/// The server span before its identifiers are drawn: named after the route,
/// under the extracted context and its trace state, with the request's
/// attributes.
pub open spec fn server_plan(
    p: Propagator,
    route: Seq<char>,
    headers: HeaderSeq,
    req: ServerRequest,
) -> PlanView {
    PlanView {
        name: route,
        kind: SpanKind::Server,
        parent: extracted(p, headers),
        trace_state: extracted_state(p, headers),
        attributes: server_attributes(req, route),
    }
}

/// The server span as it is started with the drawn `ids`.
pub open spec fn server_span_started(
    p: Propagator,
    route: Seq<char>,
    headers: HeaderSeq,
    req: ServerRequest,
    ids: SpanIds,
) -> SpanView {
    started(server_plan(p, route, headers, req), ids)
}

/// The server span once the handler finished: a response records its status
/// code and marks the span failed with `reason` for a server error (500 to
/// 599) only; a handler error marks it failed with its description. Either way
/// the span ends.
pub open spec fn server_span_finished(s: SpanView, o: OutcomeView, reason: Seq<char>) -> SpanView {
    match o {
        OutcomeView::Response(code) => SpanView {
            attributes: s.attributes.push(
                (HTTP_RESPONSE_STATUS_CODE@, AttributeView::I64(code as i64)),
            ),
            status: if 500 <= code <= 599 {
                StatusView::Error(reason)
            } else {
                s.status
            },
            ended: true,
            ..s
        },
        OutcomeView::Failure(d) => SpanView { status: StatusView::Error(d), ended: true, ..s },
    }
}

/// The reason phrase that finishing a server span with `o` records.
pub open spec fn outcome_reason(o: OutcomeView) -> Seq<char> {
    match o {
        OutcomeView::Response(code) => status_reason(code),
        OutcomeView::Failure(_) => Seq::empty(),
    }
}

/// The route pattern of the request, or `default` where none matched.
pub fn matched_route(req: &ServerRequest) -> (r: String)
    ensures
        r@ == route_pattern(*req),
{
    match &req.match_pattern {
        Some(p) => p.clone(),
        None => to_string("default"),
    }
}

/// Server request tracing: the wire format that inbound contexts are read
/// in, and the formatter that turns route patterns into span names.
#[derive(Clone, Copy, Debug)]
pub struct RequestTracing<R: RouteFormatter> {
    pub propagator: Propagator,
    pub route_formatter: R,
}

impl RequestTracing<PassThroughFormatter> {
    /// Traces each request, reading W3C trace context and naming spans after
    /// the matched route pattern as it is.
    pub fn new() -> (r: RequestTracing<PassThroughFormatter>)
        ensures
            r.propagator == Propagator::W3c,
    {
        RequestTracing { propagator: Propagator::W3c, route_formatter: PassThroughFormatter::new() }
    }
}

impl<R: RouteFormatter> RequestTracing<R> {
    /// Traces each request, reading W3C trace context and naming spans after
    /// the route pattern as `route_formatter` formats it.
    pub fn with_formatter(route_formatter: R) -> (r: RequestTracing<R>)
        ensures
            r.propagator == Propagator::W3c,
            r.route_formatter == route_formatter,
    {
        RequestTracing { propagator: Propagator::W3c, route_formatter }
    }

    /// The same tracing, reading contexts in wire format `propagator`.
    pub fn with_propagator(self, propagator: Propagator) -> (r: RequestTracing<R>)
        ensures
            r.propagator == propagator,
            r.route_formatter == self.route_formatter,
    {
        RequestTracing { propagator, route_formatter: self.route_formatter }
    }

    /// The route label of a request: its formatted route pattern.
    pub fn route_label(&self, req: &ServerRequest) -> (r: String)
        ensures
            r@ == self.route_formatter.route(route_pattern(*req)),
    {
        match &req.match_pattern {
            Some(p) => self.route_formatter.format(p.as_str()),
            None => self.route_formatter.format("default"),
        }
    }

    /// Prepares the server span of a request: reads the parent context and
    /// its trace state from the headers, and names the span after the route.
    pub fn plan_span(&self, headers: &HeaderCarrier, req: &ServerRequest) -> (r: SpanPlan)
        ensures
            r@ == server_plan(
                self.propagator,
                self.route_formatter.route(route_pattern(*req)),
                headers@,
                *req,
            ),
    {
        let parent = self.propagator.extract(headers);
        let trace_state = self.propagator.extract_state(headers);
        let route = self.route_label(req);
        let attributes = trace_attributes_from_request(req, route.as_str());
        SpanPlan::new(route, SpanKind::Server, parent, trace_state, attributes)
    }

    /// Starts the server span of a request: reads the parent context from
    /// its headers and builds the span as its child.
    pub fn start_span(&self, headers: &HeaderCarrier, req: &ServerRequest, ids: SpanIds) -> (r:
        Span)
        ensures
            r@ == server_span_started(
                self.propagator,
                self.route_formatter.route(route_pattern(*req)),
                headers@,
                *req,
                ids,
            ),
    {
        self.plan_span(headers, req).start(ids)
    }
}

/// Records how the handler finished on a running server span and ends it;
/// `reason` is the reason phrase of the response status.
pub fn record_server_outcome(span: &mut Span, outcome: Outcome, reason: String)
    requires
        !old(span)@.ended,
    ensures
        final(span)@ == server_span_finished(old(span)@, outcome@, reason@),
{
    match outcome {
        Outcome::Response(code) => {
            span.set_attribute(KeyValue::integer(HTTP_RESPONSE_STATUS_CODE, code as i64));
            if 500 <= code && code <= 599 {
                span.set_status(SpanStatus::Error(reason));
            }
        },
        Outcome::Failure(description) => {
            span.set_status(SpanStatus::Error(description));
        },
    }
    span.end();
}

/// Records how the handler finished on a running server span and ends it.
pub fn finish_server_span(span: &mut Span, outcome: Outcome)
    requires
        !old(span)@.ended,
    ensures
        final(span)@ == server_span_finished(old(span)@, outcome@, outcome_reason(outcome@)),
{
    let reason = match &outcome {
        Outcome::Response(code) => canonical_reason(*code),
        Outcome::Failure(_) => String::new(),
    };
    record_server_outcome(span, outcome, reason);
}

/// Each request gets exactly one server span: it starts running and is ended
/// by whichever way the handler finishes — a response of any status or an
/// error — keeping its name, kind, parent and context. Ending requires a
/// running span, so no span is ended twice.
pub proof fn lemma_server_span_paired(
    p: Propagator,
    route: Seq<char>,
    headers: HeaderSeq,
    req: ServerRequest,
    ids: SpanIds,
    o: OutcomeView,
    reason: Seq<char>,
)
    ensures
        !server_span_started(p, route, headers, req, ids).ended,
        server_span_finished(server_span_started(p, route, headers, req, ids), o, reason).ended,
        server_span_finished(server_span_started(p, route, headers, req, ids), o, reason).name
            == route,
        server_span_finished(server_span_started(p, route, headers, req, ids), o, reason).kind
            == SpanKind::Server,
        server_span_finished(server_span_started(p, route, headers, req, ids), o, reason).parent
            == extracted(p, headers),
        server_span_finished(server_span_started(p, route, headers, req, ids), o, reason).context
            == child_context(extracted(p, headers), ids),
{
}

/// Server-side classification: a response is an error only for a status from
/// 500 to 599; any other status, 4xx included, leaves the status unset. A
/// handler error is always an error.
pub proof fn lemma_server_error_classification(
    p: Propagator,
    route: Seq<char>,
    headers: HeaderSeq,
    req: ServerRequest,
    ids: SpanIds,
    code: u16,
    reason: Seq<char>,
    description: Seq<char>,
)
    ensures
        server_span_finished(
            server_span_started(p, route, headers, req, ids),
            OutcomeView::Response(code),
            reason,
        ).status == if 500 <= code <= 599 {
            StatusView::Error(reason)
        } else {
            StatusView::Unset
        },
        server_span_finished(
            server_span_started(p, route, headers, req, ids),
            OutcomeView::Failure(description),
            reason,
        ).status == StatusView::Error(description),
{
}

} // verus!
