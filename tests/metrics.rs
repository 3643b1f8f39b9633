use actix_web_opentelemetry::attributes::{AttributeValue, KeyValue, Method, Version};
use actix_web_opentelemetry::metrics::{
    completion_attributes, metrics_attributes_from_request, on_request_finish, on_request_start,
    MetricUpdate, MetricsOutcome,
};
use actix_web_opentelemetry::{PrometheusMetricsHandler, ServerRequest};

fn request() -> ServerRequest {
    ServerRequest {
        method: Method::Post,
        version: Version::Http10,
        scheme: "https".to_string(),
        host: "api.example.com:443".to_string(),
        path: Some("/items".to_string()),
        query: None,
        match_pattern: Some("/items".to_string()),
        realip_remote_addr: None,
        peer_ip: None,
        user_agent: None,
        content_length: Some("+512".to_string()),
    }
}

fn pairs(attrs: &[KeyValue]) -> Vec<(String, String)> {
    attrs
        .iter()
        .map(|kv| {
            let v = match &kv.value {
                AttributeValue::Str(s) => s.clone(),
                AttributeValue::I64(n) => format!("#{n}"),
                AttributeValue::Bool(b) => format!("?{b}"),
            };
            (kv.key.clone(), v)
        })
        .collect()
}

fn active(updates: &[MetricUpdate]) -> Vec<i64> {
    updates
        .iter()
        .filter_map(|u| match u {
            MetricUpdate::ActiveRequests(d) => Some(*d),
            _ => None,
        })
        .collect()
}

#[test]
fn metric_attributes_keep_the_port() {
    let attrs = pairs(&metrics_attributes_from_request(&request(), "/items"));
    let expected: Vec<(String, String)> = [
        ("http.route", "/items"),
        ("http.request.method", "POST"),
        ("network.protocol.version", "1.0"),
        ("server.address", "api.example.com"),
        ("server.port", "#443"),
        ("url.scheme", "https"),
    ]
    .iter()
    .map(|(k, v)| (k.to_string(), v.to_string()))
    .collect();
    assert_eq!(attrs, expected);
}

#[test]
fn request_start_counts_one_in_flight_and_its_size() {
    assert_eq!(
        on_request_start(&request()),
        vec![MetricUpdate::ActiveRequests(1), MetricUpdate::RequestSize(512)]
    );
    let mut req = request();
    req.content_length = Some("-1".to_string());
    assert_eq!(
        on_request_start(&req),
        vec![MetricUpdate::ActiveRequests(1), MetricUpdate::RequestSize(0)]
    );
}

#[test]
fn active_requests_balance_even_when_the_handler_fails() {
    for outcome in [MetricsOutcome::Response { status: 200, body_size: 10 }, MetricsOutcome::Failure] {
        let start = on_request_start(&request());
        let finish = on_request_finish(outcome);
        assert_eq!(active(&start), vec![1]);
        assert_eq!(active(&finish), vec![-1]);
        assert_eq!(active(&start).iter().chain(active(&finish).iter()).sum::<i64>(), 0);
    }
    assert_eq!(
        on_request_finish(MetricsOutcome::Response { status: 201, body_size: 7 }),
        vec![MetricUpdate::ActiveRequests(-1), MetricUpdate::ResponseSize(7), MetricUpdate::Duration]
    );
    assert_eq!(on_request_finish(MetricsOutcome::Failure), vec![MetricUpdate::ActiveRequests(-1)]);
}

#[test]
fn completion_attributes_add_the_status_code() {
    let attrs = metrics_attributes_from_request(&request(), "/items");
    let done = pairs(&completion_attributes(&attrs, 201));
    assert_eq!(done.len(), attrs.len() + 1);
    assert_eq!(done.last(), Some(&("http.response.status_code".to_string(), "#201".to_string())));
}

#[test]
fn prometheus_handler_keeps_its_registry() {
    let registry = prometheus::Registry::new();
    let handler = PrometheusMetricsHandler::new(registry);
    assert!(handler.registry().gather().is_empty());
}
