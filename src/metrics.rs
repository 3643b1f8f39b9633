//! Request metrics: the attributes they are labelled with and what is
//! recorded when a request starts and when it finishes.
use vstd::prelude::*;
use crate::attributes::{
    AttributeSeq, AttributeView, KeyValue, attrs_view, decimal_u64, http_method_str, method_name,
    parse_u64, protocol_version, push_attribute, url_scheme, version_name, HTTP_REQUEST_METHOD,
    HTTP_RESPONSE_STATUS_CODE, HTTP_ROUTE, NETWORK_PROTOCOL_VERSION, SERVER_ADDRESS, SERVER_PORT,
    URL_SCHEME,
};
use crate::server::{ServerRequest, host_name, host_port, split_host};
use crate::text::to_string;

verus! {

/// The name of the request duration histogram.
pub const HTTP_SERVER_DURATION: &'static str = "http.server.duration";

/// The name of the in-flight request gauge.
pub const HTTP_SERVER_ACTIVE_REQUESTS: &'static str = "http.server.active_requests";

/// The name of the request size histogram.
pub const HTTP_SERVER_REQUEST_SIZE: &'static str = "http.server.request.size";

/// The name of the response size histogram.
pub const HTTP_SERVER_RESPONSE_SIZE: &'static str = "http.server.response.size";

/// One update of a request metric.
#[derive(Clone, Copy, Debug, PartialEq, Eq, Structural)]
pub enum MetricUpdate {
    /// Adds to the in-flight request gauge.
    ActiveRequests(i64),
    /// Records a request body size.
    RequestSize(u64),
    /// Records a response body size.
    ResponseSize(u64),
    /// Records the time the request took, measured by the caller.
    Duration,
}

/// How the handler finished, as far as metrics go.
#[derive(Clone, Copy, Debug, PartialEq, Eq, Structural)]
pub enum MetricsOutcome {
    /// A response with its status code and body size.
    Response { status: u16, body_size: u64 },
    /// An error before any response.
    Failure,
}

/// The attributes that label request metrics, in order: route, method,
/// protocol version, host name, port, scheme.
pub open spec fn metrics_attributes(req: ServerRequest, route: Seq<char>) -> AttributeSeq {
    let a0 = seq![
        (HTTP_ROUTE@, AttributeView::Str(route)),
        (HTTP_REQUEST_METHOD@, AttributeView::Str(method_name(req.method))),
        (NETWORK_PROTOCOL_VERSION@, AttributeView::Str(version_name(req.version))),
    ];
    let a1 = match host_name(req.host@) {
        Some(h) => a0.push((SERVER_ADDRESS@, AttributeView::Str(h))),
        None => a0,
    };
    let a2 = match host_port(req.host@) {
        Some(p) => a1.push((SERVER_PORT@, AttributeView::I64(p))),
        None => a1,
    };
    a2.push((URL_SCHEME@, AttributeView::Str(req.scheme@)))
}

/// The attributes that label the metrics of `req` under `route`.
pub fn metrics_attributes_from_request(req: &ServerRequest, http_route: &str) -> (r: Vec<
    KeyValue,
>)
    ensures
        attrs_view(r@) == metrics_attributes(*req, http_route@),
{
    let mut attributes: Vec<KeyValue> = Vec::new();
    proof {
        assert(attrs_view(attributes@) =~= Seq::<(Seq<char>, AttributeView)>::empty());
    }
    push_attribute(&mut attributes, KeyValue::string(HTTP_ROUTE, to_string(http_route)));
    push_attribute(
        &mut attributes,
        KeyValue::string(HTTP_REQUEST_METHOD, http_method_str(&req.method)),
    );
    push_attribute(
        &mut attributes,
        KeyValue::string(NETWORK_PROTOCOL_VERSION, protocol_version(&req.version)),
    );
    let (name, port) = split_host(req.host.as_str());
    if let Some(name) = name {
        push_attribute(&mut attributes, KeyValue::string(SERVER_ADDRESS, name));
    }
    if let Some(port) = port {
        push_attribute(&mut attributes, KeyValue::integer(SERVER_PORT, port));
    }
    push_attribute(&mut attributes, KeyValue::string(URL_SCHEME, url_scheme(req.scheme.as_str())));
    attributes
}

/// The request body size: the content length where it reads as a number, else 0.
pub open spec fn request_size(req: ServerRequest) -> u64 {
    match req.content_length {
        Some(t) => match decimal_u64(t@) {
            Some(n) => n,
            None => 0,
        },
        None => 0,
    }
}

/// What is recorded when a request starts: one more request in flight, and
/// its size.
pub open spec fn start_updates(req: ServerRequest) -> Seq<MetricUpdate> {
    seq![MetricUpdate::ActiveRequests(1i64), MetricUpdate::RequestSize(request_size(req))]
}

/// What is recorded when a request finishes: one request fewer in flight,
/// whatever the outcome; for a response also its size and the duration. These
/// two carry the completion attributes.
pub open spec fn finish_updates(o: MetricsOutcome) -> Seq<MetricUpdate> {
    match o {
        MetricsOutcome::Response { status, body_size } => seq![
            MetricUpdate::ActiveRequests(-1i64),
            MetricUpdate::ResponseSize(body_size),
            MetricUpdate::Duration,
        ],
        MetricsOutcome::Failure => seq![MetricUpdate::ActiveRequests(-1i64)],
    }
}

/// The updates to record when `req` starts.
pub fn on_request_start(req: &ServerRequest) -> (r: Vec<MetricUpdate>)
    ensures
        r@ == start_updates(*req),
{
    let size = match &req.content_length {
        Some(t) => match parse_u64(t.as_str()) {
            Some(n) => n,
            None => 0,
        },
        None => 0,
    };
    let r = vec![MetricUpdate::ActiveRequests(1), MetricUpdate::RequestSize(size)];
    assert(r@ =~= start_updates(*req));
    r
}

/// The updates to record when a request finishes with `outcome`.
pub fn on_request_finish(outcome: MetricsOutcome) -> (r: Vec<MetricUpdate>)
    ensures
        r@ == finish_updates(outcome),
{
    let r = match outcome {
        MetricsOutcome::Response { status, body_size } => vec![
            MetricUpdate::ActiveRequests(-1),
            MetricUpdate::ResponseSize(body_size),
            MetricUpdate::Duration,
        ],
        MetricsOutcome::Failure => vec![MetricUpdate::ActiveRequests(-1)],
    };
    assert(r@ =~= finish_updates(outcome));
    r
}

/// The attributes of the completion metrics: the request's, then the status code.
pub fn completion_attributes(attrs: &Vec<KeyValue>, status: u16) -> (r: Vec<KeyValue>)
    ensures
        attrs_view(r@) == attrs_view(attrs@).push(
            (HTTP_RESPONSE_STATUS_CODE@, AttributeView::I64(status as i64)),
        ),
{
    let mut out: Vec<KeyValue> = Vec::new();
    let mut i: usize = 0;
    assert(attrs_view(out@) =~= attrs_view(attrs@.subrange(0, 0)));
    while i < attrs.len()
        invariant
            i <= attrs@.len(),
            attrs_view(out@) == attrs_view(attrs@.subrange(0, i as int)),
        decreases attrs@.len() - i,
    {
        push_attribute(&mut out, attrs[i].duplicate());
        assert(attrs_view(attrs@.subrange(0, i + 1)) =~= attrs_view(
            attrs@.subrange(0, i as int),
        ).push(attrs@[i as int]@));
        i += 1;
    }
    assert(attrs@.subrange(0, attrs@.len() as int) =~= attrs@);
    push_attribute(&mut out, KeyValue::integer(HTTP_RESPONSE_STATUS_CODE, status as i64));
    out
}

/// The sum of the in-flight gauge changes among `u`.
pub open spec fn active_delta(u: Seq<MetricUpdate>) -> int
    decreases u.len(),
{
    if u.len() == 0 {
        0
    } else {
        active_delta(u.drop_last()) + match u.last() {
            MetricUpdate::ActiveRequests(d) => d as int,
            _ => 0int,
        }
    }
}

/// The number of in-flight gauge changes among `u`.
pub open spec fn active_changes(u: Seq<MetricUpdate>) -> nat
    decreases u.len(),
{
    if u.len() == 0 {
        0
    } else {
        active_changes(u.drop_last()) + match u.last() {
            MetricUpdate::ActiveRequests(_) => 1nat,
            _ => 0nat,
        }
    }
}

/// The in-flight gauge is incremented exactly once when a request starts and
/// decremented exactly once when it finishes, whether the handler returned a
/// response or failed; so over a request it is back where it was.
pub proof fn lemma_active_requests_balanced(req: ServerRequest, o: MetricsOutcome)
    ensures
        active_changes(start_updates(req)) == 1,
        active_delta(start_updates(req)) == 1,
        active_changes(finish_updates(o)) == 1,
        active_delta(finish_updates(o)) == -1,
        active_delta(start_updates(req) + finish_updates(o)) == 0,
{
    reveal_with_fuel(active_changes, 4);
    reveal_with_fuel(active_delta, 6);
    let s = start_updates(req);
    let f = finish_updates(o);
    assert(s.drop_last().drop_last() =~= Seq::<MetricUpdate>::empty());
    assert(s.drop_last() =~= seq![MetricUpdate::ActiveRequests(1i64)]);
    assert(seq![MetricUpdate::ActiveRequests(1i64)].drop_last() =~= Seq::<MetricUpdate>::empty());
    let sf = s + f;
    match o {
        MetricsOutcome::Response { status, body_size } => {
            assert(f.drop_last() =~= seq![
                MetricUpdate::ActiveRequests(-1i64),
                MetricUpdate::ResponseSize(body_size),
            ]);
            assert(f.drop_last().drop_last() =~= seq![MetricUpdate::ActiveRequests(-1i64)]);
            assert(seq![MetricUpdate::ActiveRequests(-1i64)].drop_last() =~= Seq::<
                MetricUpdate,
            >::empty());
            assert(sf.drop_last() =~= s + f.drop_last());
            assert(sf.drop_last().drop_last() =~= s + seq![MetricUpdate::ActiveRequests(-1i64)]);
            assert(sf.drop_last().drop_last().drop_last() =~= s);
        },
        MetricsOutcome::Failure => {
            assert(f.drop_last() =~= Seq::<MetricUpdate>::empty());
            assert(sf.drop_last() =~= s);
        },
    }
}

} // verus!

verus! {

#[verifier::external_type_specification]
#[verifier::external_body]
pub struct ExRegistry(prometheus::Registry);

/// Serves the metrics of a Prometheus registry.
#[derive(Debug)]
pub struct PrometheusMetricsHandler {
    prometheus_registry: prometheus::Registry,
}

impl PrometheusMetricsHandler {
    /// A handler that serves the metrics of `registry`.
    pub fn new(registry: prometheus::Registry) -> (r: PrometheusMetricsHandler)
        ensures
            r.registry_spec() == registry,
    {
        PrometheusMetricsHandler { prometheus_registry: registry }
    }

    /// The registry served.
    pub closed spec fn registry_spec(&self) -> prometheus::Registry {
        self.prometheus_registry
    }

    /// The registry served.
    pub fn registry(&self) -> (r: &prometheus::Registry)
        ensures
            *r == self.registry_spec(),
    {
        &self.prometheus_registry
    }
}

} // verus!
