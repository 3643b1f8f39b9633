use actix_web_opentelemetry::propagation::{
    format_b3, format_traceparent, parse_b3, parse_traceparent, B3, B3_SAMPLED, B3_SPAN_ID,
    B3_TRACE_ID, TRACEPARENT,
};
use actix_web_opentelemetry::{HeaderCarrier, Propagator, TraceContext};

fn ctx(trace_id: u128, span_id: u64, sampled: bool) -> TraceContext {
    TraceContext { trace_id, span_id, sampled }
}

fn carrier(pairs: &[(&str, &str)]) -> HeaderCarrier {
    HeaderCarrier::from_pairs(pairs.iter().map(|(k, v)| (k.to_string(), v.to_string())).collect())
}

#[test]
fn traceparent_is_rendered_in_lower_case_hex() {
    let c = ctx(0x4bf92f3577b34da6a3ce929d0e0e4736, 0x00f067aa0ba902b7, true);
    assert_eq!(
        format_traceparent(&c),
        "00-4bf92f3577b34da6a3ce929d0e0e4736-00f067aa0ba902b7-01"
    );
    let c = ctx(1, 2, false);
    assert_eq!(
        format_traceparent(&c),
        "00-00000000000000000000000000000001-0000000000000002-00"
    );
}

#[test]
fn traceparent_is_parsed() {
    let c = parse_traceparent("00-4bf92f3577b34da6a3ce929d0e0e4736-00f067aa0ba902b7-01");
    assert_eq!(c, Some(ctx(0x4bf92f3577b34da6a3ce929d0e0e4736, 0x00f067aa0ba902b7, true)));
    let c = parse_traceparent("00-4bf92f3577b34da6a3ce929d0e0e4736-00f067aa0ba902b7-00");
    assert_eq!(c, Some(ctx(0x4bf92f3577b34da6a3ce929d0e0e4736, 0x00f067aa0ba902b7, false)));
}

#[test]
fn traceparent_of_a_later_version_may_carry_more_fields() {
    let c = parse_traceparent("01-4bf92f3577b34da6a3ce929d0e0e4736-00f067aa0ba902b7-03-xyz");
    assert_eq!(c, Some(ctx(0x4bf92f3577b34da6a3ce929d0e0e4736, 0x00f067aa0ba902b7, true)));
    assert_eq!(
        parse_traceparent("00-4bf92f3577b34da6a3ce929d0e0e4736-00f067aa0ba902b7-01-xyz"),
        None
    );
}

#[test]
fn malformed_traceparent_values_are_rejected() {
    let bad = [
        "",
        "00-4bf92f3577b34da6a3ce929d0e0e4736-00f067aa0ba902b7",
        "00-4BF92F3577B34DA6A3CE929D0E0E4736-00f067aa0ba902b7-01",
        "00-00000000000000000000000000000000-00f067aa0ba902b7-01",
        "00-4bf92f3577b34da6a3ce929d0e0e4736-0000000000000000-01",
        "ff-4bf92f3577b34da6a3ce929d0e0e4736-00f067aa0ba902b7-01",
        "00_4bf92f3577b34da6a3ce929d0e0e4736-00f067aa0ba902b7-01",
        "00-4bf92f3577b34da6a3ce929d0e0e473\u{e9}-00f067aa0ba902b7-01",
        "00-4bf92f3577b34da6a3ce929d0e0e4736-00f067aa0ba902b7-0g",
    ];
    for v in bad {
        assert_eq!(parse_traceparent(v), None, "{v}");
    }
}

#[test]
fn b3_single_value_is_rendered_and_parsed() {
    let c = ctx(0x80f198ee56343ba864fe8b2a57d3eff7, 0xe457b5a2e4d86bd1, true);
    let v = format_b3(&c);
    assert_eq!(v, "80f198ee56343ba864fe8b2a57d3eff7-e457b5a2e4d86bd1-1");
    assert_eq!(parse_b3(&v), Some(c));
    assert_eq!(
        parse_b3("80f198ee56343ba864fe8b2a57d3eff7-e457b5a2e4d86bd1-d-05e3ac9a4f6e3b90"),
        Some(c)
    );
    assert_eq!(
        parse_b3("64fe8b2a57d3eff7-e457b5a2e4d86bd1"),
        Some(ctx(0x64fe8b2a57d3eff7, 0xe457b5a2e4d86bd1, false))
    );
    assert_eq!(parse_b3("80f198ee56343ba864fe8b2a57d3eff7-e457b5a2e4d86bd1-x"), None);
    assert_eq!(parse_b3("0"), None);
}

#[test]
fn round_trip_in_every_format() {
    let contexts = [
        ctx(0x4bf92f3577b34da6a3ce929d0e0e4736, 0x00f067aa0ba902b7, true),
        ctx(1, 1, false),
        ctx(u128::MAX, u64::MAX, true),
    ];
    for p in [Propagator::W3c, Propagator::B3Single, Propagator::B3Multi] {
        for c in contexts {
            let mut h = carrier(&[("accept", "*/*"), (TRACEPARENT, "garbage"), (B3, "garbage")]);
            p.inject(&c, &mut h);
            assert_eq!(p.extract(&h), c, "{p:?}");
        }
    }
}

#[test]
fn injecting_replaces_earlier_values() {
    let mut h = carrier(&[("Traceparent", "old"), ("x", "1"), ("TRACEPARENT", "older")]);
    let c = ctx(5, 6, true);
    Propagator::W3c.inject(&c, &mut h);
    assert_eq!(h.len(), 2);
    assert_eq!(h.get("x"), Some("1"));
    assert_eq!(
        h.get("traceparent"),
        Some("00-00000000000000000000000000000005-0000000000000006-01")
    );
}

#[test]
fn invalid_context_is_not_injected() {
    let mut h = carrier(&[("x", "1")]);
    Propagator::W3c.inject(&TraceContext::empty(), &mut h);
    assert_eq!(h.len(), 1);
    assert_eq!(h.get(TRACEPARENT), None);
}

#[test]
fn b3_multi_headers_are_written() {
    let mut h = HeaderCarrier::new();
    let c = ctx(0xa, 0xb, false);
    Propagator::B3Multi.inject(&c, &mut h);
    assert_eq!(h.get(B3_TRACE_ID), Some("0000000000000000000000000000000a"));
    assert_eq!(h.get(B3_SPAN_ID), Some("000000000000000b"));
    assert_eq!(h.get(B3_SAMPLED), Some("0"));
}

#[test]
fn b3_multi_headers_are_read() {
    let h = carrier(&[
        ("X-B3-TraceId", "463ac35c9f6413ad"),
        ("X-B3-SpanId", "a2fb4a1d1a96d312"),
        ("X-B3-Sampled", "true"),
    ]);
    assert_eq!(
        Propagator::B3Multi.extract(&h),
        ctx(0x463ac35c9f6413ad, 0xa2fb4a1d1a96d312, true)
    );
}

#[test]
fn extraction_without_headers_gives_the_empty_context() {
    let h = carrier(&[("accept", "*/*")]);
    for p in [Propagator::W3c, Propagator::B3Single, Propagator::B3Multi] {
        assert_eq!(p.extract(&h), TraceContext::empty());
        assert!(!p.extract(&h).is_valid());
    }
}

#[test]
fn extraction_of_malformed_headers_gives_the_empty_context() {
    let h = carrier(&[
        (TRACEPARENT, "00-4bf92f3577b34da6a3ce929d0e0e4736-00f067aa0ba902b7"),
        (B3, "not-a-context"),
        (B3_TRACE_ID, "zz3ac35c9f6413ad"),
        (B3_SPAN_ID, "a2fb4a1d1a96d312"),
    ]);
    for p in [Propagator::W3c, Propagator::B3Single, Propagator::B3Multi] {
        assert_eq!(p.extract(&h), TraceContext::empty());
    }
}

#[test]
fn header_names_match_up_to_case() {
    let mut h = carrier(&[("Content-Type", "text/plain")]);
    assert_eq!(h.get("content-type"), Some("text/plain"));
    h.set("CONTENT-TYPE", "application/json".to_string());
    assert_eq!(h.len(), 1);
    assert_eq!(h.get("content-type"), Some("application/json"));
    assert_eq!(h.pairs()[0].0, "CONTENT-TYPE");
}

#[test]
fn malformed_b3_values_give_the_empty_context() {
    let single = [
        "80f198ee56343ba8",
        "80F198EE56343BA864FE8B2A57D3EFF7-e457b5a2e4d86bd1-1",
        "00000000000000000000000000000000-e457b5a2e4d86bd1-1",
        "80f198ee56343ba864fe8b2a57d3eff7-0000000000000000-1",
        "80f198ee56343ba864fe8b2a57d3eff7-e457b5a2e4d86bd1-1-zz",
        "80f198ee56343ba864fe8b2a57d3eff7\u{7f}e457b5a2e4d86bd1",
    ];
    for v in single {
        assert_eq!(Propagator::B3Single.extract(&carrier(&[(B3, v)])), TraceContext::empty(), "{v:?}");
    }
    let multi = [
        ("463ac35c9f6413ad0", "a2fb4a1d1a96d312"),
        ("0000000000000000", "a2fb4a1d1a96d312"),
        ("463ac35c9f6413ad", "0000000000000000"),
        ("463ac35c9f6413a\u{e9}", "a2fb4a1d1a96d312"),
        ("463ac35c9f6413ad", "a2fb4a1d1a96d31"),
    ];
    for (t, s) in multi {
        let h = carrier(&[(B3_TRACE_ID, t), (B3_SPAN_ID, s)]);
        assert_eq!(Propagator::B3Multi.extract(&h), TraceContext::empty(), "{t:?} {s:?}");
    }
}
