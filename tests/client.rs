use actix_web_opentelemetry::attributes::{AttributeValue, KeyValue, Method};
use actix_web_opentelemetry::client::{
    convert_status, default_span_namer, http_url, inject_span_context, record_client_outcome,
};
use actix_web_opentelemetry::{
    ClientRequest, ClientTrace, HeaderCarrier, Outcome, Propagator, RequestTracing, ServerRequest,
    SpanIds, SpanKind, SpanStatus, TraceContext,
};

fn request() -> ClientRequest {
    ClientRequest {
        method: Method::Get,
        scheme: Some("http".to_string()),
        host: Some("127.0.0.1".to_string()),
        port: Some(8080),
        path: "/users/103240ba-3d8d-4695-a176-e19cbc627483".to_string(),
        query: Some("a=1".to_string()),
        user_agent: None,
        content_length: None,
    }
}

fn pairs(attrs: &[KeyValue]) -> Vec<(String, String)> {
    attrs
        .iter()
        .map(|kv| {
            let v = match &kv.value {
                AttributeValue::Str(s) => s.clone(),
                AttributeValue::I64(n) => format!("#{n}"),
                AttributeValue::Bool(b) => format!("?{b}"),
            };
            (kv.key.clone(), v)
        })
        .collect()
}

#[test]
fn url_is_assembled_from_its_parts() {
    assert_eq!(
        http_url(&request()),
        "http://127.0.0.1:8080/users/103240ba-3d8d-4695-a176-e19cbc627483?a=1"
    );
    let mut req = request();
    req.port = Some(443);
    req.scheme = Some("https".to_string());
    req.query = None;
    req.path = "/".to_string();
    assert_eq!(http_url(&req), "https://127.0.0.1/");
    req.scheme = None;
    req.host = None;
    req.port = Some(9);
    assert_eq!(http_url(&req), "://:9/");
}

#[test]
fn default_span_name_is_method_and_url_without_query() {
    assert_eq!(
        default_span_namer(&request()),
        "GET http://127.0.0.1:8080/users/103240ba-3d8d-4695-a176-e19cbc627483"
    );
    let mut req = request();
    req.method = Method::Post;
    req.port = None;
    req.scheme = Some("https".to_string());
    assert_eq!(
        default_span_namer(&req),
        "POST https://127.0.0.1/users/103240ba-3d8d-4695-a176-e19cbc627483"
    );
}

#[test]
fn client_status_classification() {
    for code in [100u16, 200, 302, 399] {
        assert!(matches!(convert_status(code), SpanStatus::Unset), "{code}");
    }
    for code in [400u16, 404, 500, 599] {
        assert!(
            matches!(convert_status(code), SpanStatus::Error(d) if d == "Unexpected status code"),
            "{code}"
        );
    }
    assert!(matches!(convert_status(600), SpanStatus::Error(d) if d == "Invalid HTTP status code 600"));
    assert!(matches!(convert_status(99), SpanStatus::Error(d) if d == "Invalid HTTP status code 99"));
    assert!(matches!(convert_status(0), SpanStatus::Error(d) if d == "Invalid HTTP status code 0"));
}

#[test]
fn client_span_carries_extra_then_standard_attributes() {
    let parent = TraceContext { trace_id: 7, span_id: 8, sampled: true };
    let mut req = request();
    req.user_agent = Some("awc/3".to_string());
    req.content_length = Some("12".to_string());
    let trace = ClientTrace::new(parent)
        .with_attributes(vec![KeyValue::string("dye-key", "dye-value".to_string())]);
    let span = trace.start_span(&req, default_span_namer(&req), SpanIds { trace_id: 1, span_id: 9, sampled: true });
    assert_eq!(span.kind(), SpanKind::Client);
    assert_eq!(span.parent(), parent);
    assert_eq!(span.context(), TraceContext { trace_id: 7, span_id: 9, sampled: true });
    let expected: Vec<(String, String)> = [
        ("dye-key", "dye-value"),
        ("server.address", "127.0.0.1"),
        ("http.request.method", "GET"),
        ("url.full", "http://127.0.0.1:8080/users/103240ba-3d8d-4695-a176-e19cbc627483?a=1"),
        ("server.port", "#8080"),
        ("user_agent.original", "awc/3"),
        ("messaging.message.body.size", "#12"),
    ]
    .iter()
    .map(|(k, v)| (k.to_string(), v.to_string()))
    .collect();
    assert_eq!(pairs(span.attributes()), expected);
}

#[test]
fn client_without_host_records_unknown_address() {
    let mut req = request();
    req.host = None;
    let span = ClientTrace::new(TraceContext::empty()).start_span(&req, "x".to_string(), SpanIds { trace_id: 3, span_id: 4, sampled: true });
    assert_eq!(pairs(span.attributes())[0], ("server.address".to_string(), "unknown".to_string()));
    assert_eq!(span.context(), TraceContext { trace_id: 3, span_id: 4, sampled: true });
    assert_eq!(span.trace_state(), "");
}

#[test]
fn client_outcomes_end_the_span() {
    let trace = ClientTrace::new(TraceContext::empty());
    let mut span = trace.start_span(&request(), "GET".to_string(), SpanIds { trace_id: 1, span_id: 2, sampled: true });
    record_client_outcome(&mut span, Outcome::Response(404));
    assert!(span.is_ended());
    assert!(matches!(span.status(), SpanStatus::Error(d) if d == "Unexpected status code"));
    assert_eq!(
        pairs(span.attributes()).last(),
        Some(&("http.response.status_code".to_string(), "#404".to_string()))
    );
    let mut span = trace.start_span(&request(), "GET".to_string(), SpanIds { trace_id: 1, span_id: 2, sampled: true });
    record_client_outcome(&mut span, Outcome::Failure("Connect(Timeout)".to_string()));
    assert!(matches!(span.status(), SpanStatus::Error(d) if d == "Connect(Timeout)"));
    assert!(span.is_ended());
}

fn server_request() -> ServerRequest {
    ServerRequest {
        method: actix_web_opentelemetry::attributes::Method::Get,
        version: actix_web_opentelemetry::attributes::Version::Http11,
        scheme: "http".to_string(),
        host: "127.0.0.1:8080".to_string(),
        path: Some("/users/1".to_string()),
        query: None,
        match_pattern: Some("/users/{id}".to_string()),
        realip_remote_addr: None,
        peer_ip: None,
        user_agent: None,
        content_length: None,
    }
}

#[test]
fn context_chains_from_client_to_server() {
    for p in [Propagator::W3c, Propagator::B3Single, Propagator::B3Multi] {
        let current = TraceContext { trace_id: 0x1234, span_id: 0x51, sampled: true };
        let client = ClientTrace::new(current).start_span(&request(), "GET".to_string(), SpanIds { trace_id: 99, span_id: 0x61, sampled: true });
        let mut headers = HeaderCarrier::new();
        inject_span_context(p, &client, &mut headers);
        let tracing = RequestTracing::new().with_propagator(p);
        let server = tracing.start_span(&headers, &server_request(), SpanIds { trace_id: 5, span_id: 0x62, sampled: true });
        assert_eq!(server.parent(), client.context());
        assert_eq!(server.parent().trace_id, 0x1234);
        assert_eq!(server.parent().span_id, 0x61);
        assert_eq!(server.context().trace_id, 0x1234);
        assert_ne!(server.context().span_id, 0x61);
    }
}

#[test]
fn chained_call_carries_the_trace_of_the_server_span() {
    let tracing = RequestTracing::new();
    let inbound = HeaderCarrier::from_pairs(vec![(
        "traceparent".to_string(),
        "00-0af7651916cd43dd8448eb211c80319c-b7ad6b7169203331-01".to_string(),
    )]);
    let server = tracing.start_span(&inbound, &server_request(), SpanIds { trace_id: 1, span_id: 0x00f067aa0ba902b7, sampled: true });
    let client = ClientTrace::new(server.context()).start_span(&request(), "GET 127.0.0.1".to_string(), SpanIds { trace_id: 2, span_id: 0x53ce929d0e0e4736, sampled: true });
    assert_eq!(client.parent().span_id, server.context().span_id);
    let mut outbound = HeaderCarrier::new();
    inject_span_context(Propagator::W3c, &client, &mut outbound);
    assert_eq!(
        outbound.get("traceparent"),
        Some("00-0af7651916cd43dd8448eb211c80319c-53ce929d0e0e4736-01")
    );
}

#[test]
fn trace_state_travels_with_the_client_context() {
    let current = TraceContext { trace_id: 0x1234, span_id: 0x51, sampled: true };
    let trace = ClientTrace::new(current).with_trace_state("rojo=00f067aa0ba902b7".to_string());
    let client = trace.start_span(&request(), "GET".to_string(), SpanIds { trace_id: 1, span_id: 0x61, sampled: true });
    let mut headers = HeaderCarrier::from_pairs(vec![("tracestate".to_string(), "stale=1".to_string())]);
    inject_span_context(Propagator::W3c, &client, &mut headers);
    assert_eq!(headers.get("tracestate"), Some("rojo=00f067aa0ba902b7"));
    let server = RequestTracing::new().start_span(&headers, &server_request(), SpanIds { trace_id: 2, span_id: 0x71, sampled: true });
    assert_eq!(server.trace_state(), "rojo=00f067aa0ba902b7");

    let bare = ClientTrace::new(current).start_span(&request(), "GET".to_string(), SpanIds { trace_id: 1, span_id: 0x61, sampled: true });
    let mut headers = HeaderCarrier::from_pairs(vec![("tracestate".to_string(), "stale=1".to_string())]);
    inject_span_context(Propagator::W3c, &bare, &mut headers);
    assert_eq!(headers.get("tracestate"), None);
    inject_span_context(Propagator::B3Single, &client, &mut headers);
    assert_eq!(headers.get("tracestate"), None);
}
