use actix_web_opentelemetry::attributes::{AttributeValue, KeyValue, Method, Version};
use actix_web_opentelemetry::server::{finish_server_span, record_server_outcome, trace_attributes_from_request};
use actix_web_opentelemetry::{
    HeaderCarrier, Outcome, Propagator, RequestTracing, ServerRequest, SpanIds, SpanKind,
    SpanStatus, TraceContext, UuidWildcardFormatter,
};

fn request() -> ServerRequest {
    ServerRequest {
        method: Method::Get,
        version: Version::Http11,
        scheme: "http".to_string(),
        host: "localhost:8080".to_string(),
        path: Some("/users/103240ba-3d8d-4695-a176-e19cbc627483".to_string()),
        query: Some("a=1".to_string()),
        match_pattern: Some("/users/{id}".to_string()),
        realip_remote_addr: Some("10.0.0.1".to_string()),
        peer_ip: Some("10.0.0.1".to_string()),
        user_agent: Some("curl/8.0".to_string()),
        content_length: None,
    }
}

fn pairs(attrs: &[KeyValue]) -> Vec<(String, String)> {
    attrs
        .iter()
        .map(|kv| {
            let v = match &kv.value {
                AttributeValue::Str(s) => s.clone(),
                AttributeValue::I64(n) => format!("#{n}"),
                AttributeValue::Bool(b) => format!("?{b}"),
            };
            (kv.key.clone(), v)
        })
        .collect()
}

fn ids() -> SpanIds {
    SpanIds { trace_id: 0xabc, span_id: 0x123, sampled: true }
}

#[test]
fn server_attributes_follow_the_request() {
    let attrs = trace_attributes_from_request(&request(), "/users/{id}");
    let expected: Vec<(String, String)> = [
        ("http.route", "/users/{id}"),
        ("client.address", "10.0.0.1"),
        ("server.address", "localhost"),
        ("server.port", "#8080"),
        ("url.path", "/users/103240ba-3d8d-4695-a176-e19cbc627483"),
        ("url.query", "a=1"),
        ("url.scheme", "http"),
        ("http.request.method", "GET"),
        ("network.protocol.version", "1.1"),
        ("user_agent.original", "curl/8.0"),
    ]
    .iter()
    .map(|(k, v)| (k.to_string(), v.to_string()))
    .collect();
    assert_eq!(pairs(&attrs), expected);
}

#[test]
fn proxied_request_records_the_peer_and_a_positive_length() {
    let mut req = request();
    req.peer_ip = Some("192.168.1.9".to_string());
    req.host = "example.com:443".to_string();
    req.path = Some("/".to_string());
    req.query = None;
    req.content_length = Some("42".to_string());
    req.user_agent = None;
    req.method = Method::Other("PURGE".to_string());
    req.version = Version::Http2;
    let attrs = pairs(&trace_attributes_from_request(&req, "default"));
    let expected: Vec<(String, String)> = [
        ("http.route", "default"),
        ("client.address", "10.0.0.1"),
        ("network.peer.address", "192.168.1.9"),
        ("server.address", "example.com"),
        ("url.scheme", "http"),
        ("http.request.method", "PURGE"),
        ("network.protocol.version", "2"),
        ("messaging.message.body.size", "#42"),
    ]
    .iter()
    .map(|(k, v)| (k.to_string(), v.to_string()))
    .collect();
    assert_eq!(attrs, expected);
    req.content_length = Some("0".to_string());
    let attrs = pairs(&trace_attributes_from_request(&req, "default"));
    assert!(!attrs.iter().any(|(k, _)| k == "messaging.message.body.size"));
}

#[test]
fn simple_get_in_one_process() {
    let tracing = RequestTracing::with_formatter(UuidWildcardFormatter::new());
    let mut req = request();
    req.match_pattern = Some("/users/103240ba-3d8d-4695-a176-e19cbc627483".to_string());
    let mut span = tracing.start_span(&HeaderCarrier::new(), &req, ids());
    assert_eq!(span.name(), "/users/*");
    assert_eq!(span.kind(), SpanKind::Server);
    assert!(!span.parent().is_valid());
    assert!(span.context().is_valid());
    assert!(!span.is_ended());
    let attrs = pairs(span.attributes());
    assert!(attrs.contains(&("http.request.method".to_string(), "GET".to_string())));
    assert!(attrs.contains(&("http.route".to_string(), "/users/*".to_string())));
    finish_server_span(&mut span, Outcome::Response(200));
    assert!(matches!(span.status(), SpanStatus::Unset));
    assert!(span.is_ended());
    let attrs = pairs(span.attributes());
    assert_eq!(
        attrs.last(),
        Some(&("http.response.status_code".to_string(), "#200".to_string()))
    );
}

#[test]
fn unmatched_request_is_named_default() {
    let tracing = RequestTracing::new();
    let mut req = request();
    req.match_pattern = None;
    assert_eq!(tracing.route_label(&req), "default");
}

#[test]
fn server_span_is_a_child_of_the_inbound_context() {
    let tracing = RequestTracing::new();
    let headers = HeaderCarrier::from_pairs(vec![(
        "traceparent".to_string(),
        "00-4bf92f3577b34da6a3ce929d0e0e4736-00f067aa0ba902b7-01".to_string(),
    )]);
    let span = tracing.start_span(&headers, &request(), ids());
    assert_eq!(
        span.parent(),
        TraceContext { trace_id: 0x4bf92f3577b34da6a3ce929d0e0e4736, span_id: 0x00f067aa0ba902b7, sampled: true }
    );
    assert_eq!(span.context().trace_id, 0x4bf92f3577b34da6a3ce929d0e0e4736);
    assert_eq!(span.context().span_id, 0x123);
    assert!(span.context().sampled);
    assert_eq!(span.name(), "/users/{id}");
}

#[test]
fn b3_configured_server_reads_b3_headers() {
    let tracing = RequestTracing::new().with_propagator(Propagator::B3Single);
    let headers = HeaderCarrier::from_pairs(vec![(
        "b3".to_string(),
        "80f198ee56343ba864fe8b2a57d3eff7-e457b5a2e4d86bd1-0".to_string(),
    )]);
    let span = tracing.start_span(&headers, &request(), ids());
    assert_eq!(span.parent().span_id, 0xe457b5a2e4d86bd1);
    assert!(!span.context().sampled);
}

#[test]
fn server_span_ends_once_for_every_outcome() {
    let tracing = RequestTracing::new();
    for outcome in [
        Outcome::Response(200),
        Outcome::Response(503),
        Outcome::Failure("Timeout".to_string()),
    ] {
        let mut span = tracing.start_span(&HeaderCarrier::new(), &request(), ids());
        assert!(!span.is_ended());
        let context = span.context();
        finish_server_span(&mut span, outcome);
        assert!(span.is_ended());
        assert_eq!(span.context(), context);
    }
}

#[test]
fn server_error_status_only_for_5xx() {
    let tracing = RequestTracing::new();
    let cases: [(u16, Option<&str>); 5] = [
        (200, None),
        (404, None),
        (499, None),
        (500, Some("Internal Server Error")),
        (503, Some("Service Unavailable")),
    ];
    for (code, expected) in cases {
        let mut span = tracing.start_span(&HeaderCarrier::new(), &request(), ids());
        finish_server_span(&mut span, Outcome::Response(code));
        match (span.status(), expected) {
            (SpanStatus::Unset, None) => {}
            (SpanStatus::Error(d), Some(e)) => assert_eq!(d, e),
            (s, e) => panic!("{code}: {s:?} {e:?}"),
        }
    }
}

#[test]
fn handler_error_is_recorded_with_its_description() {
    let tracing = RequestTracing::new();
    let mut span = tracing.start_span(&HeaderCarrier::new(), &request(), ids());
    record_server_outcome(&mut span, Outcome::Failure("Io(BrokenPipe)".to_string()), String::new());
    assert!(matches!(span.status(), SpanStatus::Error(d) if d == "Io(BrokenPipe)"));
    assert!(span.is_ended());
}

#[test]
fn drawn_ids_are_kept_as_they_came() {
    let tracing = RequestTracing::new();
    let headers = HeaderCarrier::from_pairs(vec![(
        "traceparent".to_string(),
        "00-4bf92f3577b34da6a3ce929d0e0e4736-0000000000000001-00".to_string(),
    )]);
    let span = tracing.start_span(&headers, &request(), SpanIds { trace_id: 9, span_id: 7, sampled: true });
    assert_eq!(span.context(), TraceContext { trace_id: 0x4bf92f3577b34da6a3ce929d0e0e4736, span_id: 7, sampled: false });
    let span = tracing.start_span(&HeaderCarrier::new(), &request(), SpanIds { trace_id: 9, span_id: 7, sampled: false });
    assert_eq!(span.context(), TraceContext { trace_id: 9, span_id: 7, sampled: false });
}

#[test]
fn unset_ids_leave_the_context_unset_and_nothing_is_injected() {
    let tracing = RequestTracing::new();
    let span = tracing.start_span(&HeaderCarrier::new(), &request(), SpanIds { trace_id: 0, span_id: 0, sampled: false });
    assert_eq!(span.context(), TraceContext::empty());
    let mut outbound = HeaderCarrier::new();
    actix_web_opentelemetry::client::inject_span_context(Propagator::W3c, &span, &mut outbound);
    assert_eq!(outbound.len(), 0);
}

#[test]
fn server_span_carries_the_inbound_trace_state() {
    let tracing = RequestTracing::new();
    let headers = HeaderCarrier::from_pairs(vec![
        ("traceparent".to_string(), "00-4bf92f3577b34da6a3ce929d0e0e4736-00f067aa0ba902b7-01".to_string()),
        ("tracestate".to_string(), "congo=t61rcWkgMzE,rojo=00f067aa0ba902b7".to_string()),
    ]);
    let plan = tracing.plan_span(&headers, &request());
    assert_eq!(plan.trace_state(), "congo=t61rcWkgMzE,rojo=00f067aa0ba902b7");
    assert_eq!(plan.name(), "/users/{id}");
    let span = plan.start(ids());
    assert_eq!(span.trace_state(), "congo=t61rcWkgMzE,rojo=00f067aa0ba902b7");
    let no_parent = HeaderCarrier::from_pairs(vec![("tracestate".to_string(), "rojo=1".to_string())]);
    assert_eq!(tracing.start_span(&no_parent, &request(), ids()).trace_state(), "");
}
