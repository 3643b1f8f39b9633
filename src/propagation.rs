//! Wire formats that carry a [`TraceContext`] in HTTP headers.
use vstd::prelude::*;
use crate::carrier::{HeaderCarrier, HeaderSeq, lookup, with_header, without, lemma_with_header, lemma_without};
use crate::context::TraceContext;
use crate::hex::{
    all_hex, hex_encoding, hex_value, pow16, parse_hex, push_hex, lemma_hex_roundtrip,
    lemma_hex_value_bound, lemma_pow16_32,
};
use crate::text::push_char;

verus! {

/// The W3C trace-context header.
pub const TRACEPARENT: &'static str = "traceparent";

/// The flags field of a W3C `traceparent` value.
pub open spec fn w3c_flags(c: TraceContext) -> nat {
    if c.sampled {
        1
    } else {
        0
    }
}

/// `00-{trace id: 32 digits}-{span id: 16 digits}-{flags: 2 digits}`.
pub open spec fn traceparent_value(c: TraceContext) -> Seq<char> {
    hex_encoding(0, 2) + seq!['-'] + hex_encoding(c.trace_id as nat, 32) + seq!['-']
        + hex_encoding(c.span_id as nat, 16) + seq!['-'] + hex_encoding(w3c_flags(c), 2)
}

/// The fields of a `traceparent` value have the required shape: a version
/// other than `ff`, trace id, span id and flags in lower-case hexadecimal,
/// separated by dashes. Version `00` has exactly these fields; a later version
/// may append more after a dash.
pub open spec fn traceparent_shape(s: Seq<char>) -> bool {
    &&& s.len() >= 55
    &&& all_hex(s.subrange(0, 2))
    &&& hex_value(s.subrange(0, 2)) != 255
    &&& s[2] == '-'
    &&& all_hex(s.subrange(3, 35))
    &&& s[35] == '-'
    &&& all_hex(s.subrange(36, 52))
    &&& s[52] == '-'
    &&& all_hex(s.subrange(53, 55))
    &&& (s.len() == 55 || (hex_value(s.subrange(0, 2)) != 0 && s[55] == '-'))
}

/// The context that a `traceparent` value denotes, if it is well formed and
/// both identifiers are non-zero.
pub open spec fn traceparent_context(s: Seq<char>) -> Option<TraceContext> {
    if traceparent_shape(s) && hex_value(s.subrange(3, 35)) != 0 && hex_value(s.subrange(36, 52))
        != 0 {
        Some(
            TraceContext {
                trace_id: hex_value(s.subrange(3, 35)) as u128,
                span_id: hex_value(s.subrange(36, 52)) as u64,
                sampled: hex_value(s.subrange(53, 55)) % 2 == 1,
            },
        )
    } else {
        None
    }
}

/// Renders `c` as a `traceparent` value.
pub fn format_traceparent(c: &TraceContext) -> (r: String)
    ensures
        r@ == traceparent_value(*c),
{
    let mut out = String::new();
    push_hex(&mut out, 0, 2);
    push_char(&mut out, '-');
    push_hex(&mut out, c.trace_id, 32);
    push_char(&mut out, '-');
    push_hex(&mut out, c.span_id as u128, 16);
    push_char(&mut out, '-');
    push_hex(&mut out, if c.sampled { 1 } else { 0 }, 2);
    assert(out@ =~= traceparent_value(*c));
    out
}

/// Reads a `traceparent` value.
pub fn parse_traceparent(s: &str) -> (r: Option<TraceContext>)
    ensures
        r == traceparent_context(s@),
{
    let n = s.unicode_len();
    if n < 55 {
        return None;
    }
    let version = match parse_hex(s, 0, 2) {
        Some(v) => v,
        None => return None,
    };
    let trace_id = match parse_hex(s, 3, 32) {
        Some(v) => v,
        None => return None,
    };
    let span_id = match parse_hex(s, 36, 16) {
        Some(v) => v,
        None => return None,
    };
    let flags = match parse_hex(s, 53, 2) {
        Some(v) => v,
        None => return None,
    };
    if version == 255 || s.get_char(2) != '-' || s.get_char(35) != '-' || s.get_char(52) != '-' {
        return None;
    }
    if n > 55 && (version == 0 || s.get_char(55) != '-') {
        return None;
    }
    if trace_id == 0 || span_id == 0 {
        return None;
    }
    proof {
        lemma_hex_value_bound(s@.subrange(36, 52));
        lemma_pow16_32();
    }
    Some(TraceContext { trace_id, span_id: span_id as u64, sampled: flags % 2 == 1 })
}

/// A `traceparent` value is read back as the context it was made from.
pub proof fn lemma_traceparent_roundtrip(c: TraceContext)
    requires
        c.valid(),
    ensures
        traceparent_context(traceparent_value(c)) == Some(c),
{
    let s = traceparent_value(c);
    lemma_pow16_32();
    lemma_hex_roundtrip(0, 2);
    lemma_hex_roundtrip(c.trace_id as nat, 32);
    lemma_hex_roundtrip(c.span_id as nat, 16);
    lemma_hex_roundtrip(w3c_flags(c), 2);
    assert(s.subrange(0, 2) =~= hex_encoding(0, 2));
    assert(s.subrange(3, 35) =~= hex_encoding(c.trace_id as nat, 32));
    assert(s.subrange(36, 52) =~= hex_encoding(c.span_id as nat, 16));
    assert(s.subrange(53, 55) =~= hex_encoding(w3c_flags(c), 2));
}

} // verus!

verus! {

/// The B3 single header.
pub const B3: &'static str = "b3";

/// The B3 multi-header trace id.
pub const B3_TRACE_ID: &'static str = "x-b3-traceid";

/// The B3 multi-header span id.
pub const B3_SPAN_ID: &'static str = "x-b3-spanid";

/// The B3 multi-header sampling decision.
pub const B3_SAMPLED: &'static str = "x-b3-sampled";

/// The sampling field of B3 as written: `1` or `0`.
pub open spec fn b3_sampled_value(c: TraceContext) -> Seq<char> {
    if c.sampled {
        seq!['1']
    } else {
        seq!['0']
    }
}

/// `{trace id: 32 digits}-{span id: 16 digits}-{1 or 0}`.
pub open spec fn b3_value(c: TraceContext) -> Seq<char> {
    hex_encoding(c.trace_id as nat, 32) + seq!['-'] + hex_encoding(c.span_id as nat, 16) + seq![
        '-',
    ] + b3_sampled_value(c)
}

/// The length of the trace id in a B3 single value: 128 bits are written with
/// 32 digits, 64 bits with 16.
pub open spec fn b3_trace_len(s: Seq<char>) -> int {
    if s.len() >= 33 && s[32] == '-' {
        32
    } else {
        16
    }
}

/// A B3 sampling state: deny, accept or debug.
pub open spec fn is_b3_sampling(c: char) -> bool {
    c == '0' || c == '1' || c == 'd'
}

/// What may follow the span id in a B3 single value: nothing, a sampling
/// state, or a sampling state and the parent span id.
pub open spec fn b3_tail_ok(t: Seq<char>) -> bool {
    ||| t.len() == 0
    ||| (t.len() == 2 && t[0] == '-' && is_b3_sampling(t[1]))
    ||| (t.len() == 19 && t[0] == '-' && is_b3_sampling(t[1]) && t[2] == '-' && all_hex(
        t.subrange(3, 19),
    ))
}

/// The context that a B3 single value denotes, if it is well formed and both
/// identifiers are non-zero. Accept and debug both mean sampled.
pub open spec fn b3_context(s: Seq<char>) -> Option<TraceContext> {
    let k = b3_trace_len(s);
    if s.len() >= k + 17 && all_hex(s.subrange(0, k)) && s[k] == '-' && all_hex(
        s.subrange(k + 1, k + 17),
    ) && b3_tail_ok(s.subrange(k + 17, s.len() as int)) && hex_value(s.subrange(0, k)) != 0
        && hex_value(s.subrange(k + 1, k + 17)) != 0 {
        Some(
            TraceContext {
                trace_id: hex_value(s.subrange(0, k)) as u128,
                span_id: hex_value(s.subrange(k + 1, k + 17)) as u64,
                sampled: s.len() > k + 18 && (s[k + 18] == '1' || s[k + 18] == 'd'),
            },
        )
    } else {
        None
    }
}

/// The context that the B3 multi-header values denote: a trace id of 32 or 16
/// digits, a span id of 16, both non-zero; sampled when the sampling header is
/// `1` or `true`.
pub open spec fn b3_id_context(
    trace: Seq<char>,
    span: Seq<char>,
    sampled: Option<Seq<char>>,
) -> Option<TraceContext> {
    if (trace.len() == 32 || trace.len() == 16) && all_hex(trace) && span.len() == 16 && all_hex(
        span,
    ) && hex_value(trace) != 0 && hex_value(span) != 0 {
        Some(
            TraceContext {
                trace_id: hex_value(trace) as u128,
                span_id: hex_value(span) as u64,
                sampled: sampled == Some(seq!['1']) || sampled == Some(seq!['t', 'r', 'u', 'e']),
            },
        )
    } else {
        None
    }
}

/// The context that the B3 multi headers of `h` denote.
pub open spec fn b3_multi_context(h: HeaderSeq) -> Option<TraceContext> {
    match (lookup(h, B3_TRACE_ID@), lookup(h, B3_SPAN_ID@)) {
        (Some(t), Some(s)) => b3_id_context(t, s, lookup(h, B3_SAMPLED@)),
        _ => None,
    }
}

fn sampled_text(sampled: bool) -> (r: String)
    ensures
        r@ == (if sampled {
            seq!['1']
        } else {
            seq!['0']
        }),
{
    let mut out = String::new();
    push_char(&mut out, if sampled { '1' } else { '0' });
    assert(out@ =~= (if sampled {
        seq!['1']
    } else {
        seq!['0']
    }));
    out
}

/// Renders `c` as a B3 single value.
pub fn format_b3(c: &TraceContext) -> (r: String)
    ensures
        r@ == b3_value(*c),
{
    let mut out = String::new();
    push_hex(&mut out, c.trace_id, 32);
    push_char(&mut out, '-');
    push_hex(&mut out, c.span_id as u128, 16);
    push_char(&mut out, '-');
    push_char(&mut out, if c.sampled { '1' } else { '0' });
    assert(out@ =~= b3_value(*c));
    out
}

fn is_sampling_char(c: char) -> (r: bool)
    ensures
        r == is_b3_sampling(c),
{
    c == '0' || c == '1' || c == 'd'
}

/// Reads a B3 single value.
pub fn parse_b3(s: &str) -> (r: Option<TraceContext>)
    ensures
        r == b3_context(s@),
{
    let n = s.unicode_len();
    let k: usize = if n >= 33 && s.get_char(32) == '-' {
        32
    } else {
        16
    };
    assert(k == b3_trace_len(s@));
    if n < k + 17 {
        return None;
    }
    let trace_id = match parse_hex(s, 0, k) {
        Some(v) => v,
        None => return None,
    };
    if s.get_char(k) != '-' {
        return None;
    }
    let span_id = match parse_hex(s, k + 1, 16) {
        Some(v) => v,
        None => return None,
    };
    let ghost t = s@.subrange(k + 17, n as int);
    let rest = n - (k + 17);
    let tail_ok = if rest == 0 {
        true
    } else if rest == 2 {
        s.get_char(k + 17) == '-' && is_sampling_char(s.get_char(k + 18))
    } else if rest == 19 {
        s.get_char(k + 17) == '-' && is_sampling_char(s.get_char(k + 18)) && s.get_char(k + 19)
            == '-' && parse_hex(s, k + 20, 16).is_some()
    } else {
        false
    };
    assert(rest == 19 ==> t.subrange(3, 19) =~= s@.subrange(k + 20, k + 36));
    assert(tail_ok == b3_tail_ok(t));
    if !tail_ok || trace_id == 0 || span_id == 0 {
        return None;
    }
    proof {
        lemma_hex_value_bound(s@.subrange(k + 1, k + 17));
        lemma_pow16_32();
    }
    let sampled = rest > 0 && (s.get_char(k + 18) == '1' || s.get_char(k + 18) == 'd');
    Some(TraceContext { trace_id, span_id: span_id as u64, sampled })
}

/// Reads the B3 multi headers.
pub fn parse_b3_multi(h: &HeaderCarrier) -> (r: Option<TraceContext>)
    ensures
        r == b3_multi_context(h@),
{
    let trace = match h.get(B3_TRACE_ID) {
        Some(v) => v,
        None => return None,
    };
    let span = match h.get(B3_SPAN_ID) {
        Some(v) => v,
        None => return None,
    };
    let tn = trace.unicode_len();
    if (tn != 32 && tn != 16) || span.unicode_len() != 16 {
        return None;
    }
    assert(trace@.subrange(0, tn as int) =~= trace@);
    assert(span@.subrange(0, 16) =~= span@);
    let trace_id = match parse_hex(trace, 0, tn) {
        Some(v) => v,
        None => return None,
    };
    let span_id = match parse_hex(span, 0, 16) {
        Some(v) => v,
        None => return None,
    };
    if trace_id == 0 || span_id == 0 {
        return None;
    }
    proof {
        lemma_hex_value_bound(span@);
        lemma_pow16_32();
        reveal_strlit("1");
        reveal_strlit("true");
    }
    let sampled = match h.get(B3_SAMPLED) {
        Some(v) => {
            let one = crate::text::str_equal(v, "1");
            let yes = crate::text::str_equal(v, "true");
            assert("1"@ =~= seq!['1']);
            assert("true"@ =~= seq!['t', 'r', 'u', 'e']);
            one || yes
        },
        None => false,
    };
    Some(TraceContext { trace_id, span_id: span_id as u64, sampled })
}

/// A B3 single value is read back as the context it was made from.
pub proof fn lemma_b3_roundtrip(c: TraceContext)
    requires
        c.valid(),
    ensures
        b3_context(b3_value(c)) == Some(c),
{
    let s = b3_value(c);
    lemma_pow16_32();
    lemma_hex_roundtrip(c.trace_id as nat, 32);
    lemma_hex_roundtrip(c.span_id as nat, 16);
    assert(s.len() == 51);
    assert(s[32] == '-');
    assert(s.subrange(0, 32) =~= hex_encoding(c.trace_id as nat, 32));
    assert(s.subrange(33, 49) =~= hex_encoding(c.span_id as nat, 16));
    assert(s.subrange(49, 51) =~= seq!['-'] + b3_sampled_value(c));
}

} // verus!

verus! {

/// The wire format used to carry contexts, chosen once when the tracer is set up.
#[derive(Clone, Copy, Debug, PartialEq, Eq, Structural)]
pub enum Propagator {
    /// The W3C `traceparent` header.
    W3c,
    /// The B3 single `b3` header.
    B3Single,
    /// The B3 `x-b3-*` headers.
    B3Multi,
}

/// The context found in `h` under propagator `p`, if any.
pub open spec fn found_context(p: Propagator, h: HeaderSeq) -> Option<TraceContext> {
    match p {
        Propagator::W3c => match lookup(h, TRACEPARENT@) {
            Some(v) => traceparent_context(v),
            None => None,
        },
        Propagator::B3Single => match lookup(h, B3@) {
            Some(v) => b3_context(v),
            None => None,
        },
        Propagator::B3Multi => b3_multi_context(h),
    }
}

/// The context extracted from `h`: the one found there, else the empty context.
pub open spec fn extracted(p: Propagator, h: HeaderSeq) -> TraceContext {
    match found_context(p, h) {
        Some(c) => c,
        None => TraceContext::none(),
    }
}

/// The headers after `c` is injected into `h`; an invalid context writes nothing.
pub open spec fn injected(p: Propagator, c: TraceContext, h: HeaderSeq) -> HeaderSeq {
    if !c.valid() {
        h
    } else {
        match p {
            Propagator::W3c => with_header(h, TRACEPARENT@, traceparent_value(c)),
            Propagator::B3Single => with_header(h, B3@, b3_value(c)),
            Propagator::B3Multi => with_header(
                with_header(
                    with_header(h, B3_TRACE_ID@, hex_encoding(c.trace_id as nat, 32)),
                    B3_SPAN_ID@,
                    hex_encoding(c.span_id as nat, 16),
                ),
                B3_SAMPLED@,
                b3_sampled_value(c),
            ),
        }
    }
}

impl Propagator {
    /// Reads the context that the headers carry. Missing or malformed headers
    /// give the empty context: this never fails.
    pub fn extract(&self, headers: &HeaderCarrier) -> (r: TraceContext)
        ensures
            r == extracted(*self, headers@),
    {
        let found = match self {
            Propagator::W3c => match headers.get(TRACEPARENT) {
                Some(v) => parse_traceparent(v),
                None => None,
            },
            Propagator::B3Single => match headers.get(B3) {
                Some(v) => parse_b3(v),
                None => None,
            },
            Propagator::B3Multi => parse_b3_multi(headers),
        };
        match found {
            Some(c) => c,
            None => TraceContext::empty(),
        }
    }

    /// The names of the headers that this wire format writes.
    pub fn fields(&self) -> (r: Vec<&'static str>)
        ensures
            r@.map_values(|f: &'static str| f@) == match *self {
                Propagator::W3c => seq![TRACEPARENT@],
                Propagator::B3Single => seq![B3@],
                Propagator::B3Multi => seq![B3_TRACE_ID@, B3_SPAN_ID@, B3_SAMPLED@],
            },
    {
        let r = match self {
            Propagator::W3c => vec![TRACEPARENT],
            Propagator::B3Single => vec![B3],
            Propagator::B3Multi => vec![B3_TRACE_ID, B3_SPAN_ID, B3_SAMPLED],
        };
        assert(r@.map_values(|f: &'static str| f@) =~= match *self {
            Propagator::W3c => seq![TRACEPARENT@],
            Propagator::B3Single => seq![B3@],
            Propagator::B3Multi => seq![B3_TRACE_ID@, B3_SPAN_ID@, B3_SAMPLED@],
        });
        r
    }

    /// Writes `cx` into the headers, replacing earlier values of the same
    /// headers. Nothing is written for an invalid context.
    pub fn inject(&self, cx: &TraceContext, headers: &mut HeaderCarrier)
        ensures
            final(headers)@ == injected(*self, *cx, old(headers)@),
    {
        if !cx.is_valid() {
            return ;
        }
        match self {
            Propagator::W3c => headers.set(TRACEPARENT, format_traceparent(cx)),
            Propagator::B3Single => headers.set(B3, format_b3(cx)),
            Propagator::B3Multi => {
                let mut trace = String::new();
                push_hex(&mut trace, cx.trace_id, 32);
                let mut span = String::new();
                push_hex(&mut span, cx.span_id as u128, 16);
                assert(trace@ =~= hex_encoding(cx.trace_id as nat, 32));
                assert(span@ =~= hex_encoding(cx.span_id as nat, 16));
                headers.set(B3_TRACE_ID, trace);
                headers.set(B3_SPAN_ID, span);
                headers.set(B3_SAMPLED, sampled_text(cx.sampled));
            },
        }
    }
}

proof fn lemma_b3_names_distinct()
    ensures
        !crate::text::same_name(B3_TRACE_ID@, B3_SPAN_ID@),
        !crate::text::same_name(B3_TRACE_ID@, B3_SAMPLED@),
        !crate::text::same_name(B3_SPAN_ID@, B3_SAMPLED@),
        !crate::text::same_name(B3_SPAN_ID@, B3_TRACE_ID@),
{
    reveal_strlit("x-b3-traceid");
    reveal_strlit("x-b3-spanid");
    reveal_strlit("x-b3-sampled");
    assert(crate::text::ascii_lower_code(B3_TRACE_ID@[5]) != crate::text::ascii_lower_code(
        B3_SAMPLED@[5],
    ));
}

/// Round trip: injecting a valid context into any headers and extracting it
/// again gives the same trace id, span id and sampling decision, in every wire
/// format.
pub proof fn lemma_round_trip(p: Propagator, c: TraceContext, h: HeaderSeq)
    requires
        c.valid(),
    ensures
        extracted(p, injected(p, c, h)) == c,
{
    let out = injected(p, c, h);
    match p {
        Propagator::W3c => {
            lemma_with_header(h, TRACEPARENT@, traceparent_value(c), TRACEPARENT@);
            crate::text::lemma_same_name_equivalence(TRACEPARENT@, TRACEPARENT@, TRACEPARENT@);
            lemma_traceparent_roundtrip(c);
        },
        Propagator::B3Single => {
            lemma_with_header(h, B3@, b3_value(c), B3@);
            crate::text::lemma_same_name_equivalence(B3@, B3@, B3@);
            lemma_b3_roundtrip(c);
        },
        Propagator::B3Multi => {
            let t = hex_encoding(c.trace_id as nat, 32);
            let s = hex_encoding(c.span_id as nat, 16);
            let h1 = with_header(h, B3_TRACE_ID@, t);
            let h2 = with_header(h1, B3_SPAN_ID@, s);
            lemma_b3_names_distinct();
            crate::text::lemma_same_name_equivalence(B3_TRACE_ID@, B3_TRACE_ID@, B3_TRACE_ID@);
            crate::text::lemma_same_name_equivalence(B3_SPAN_ID@, B3_SPAN_ID@, B3_SPAN_ID@);
            crate::text::lemma_same_name_equivalence(B3_SAMPLED@, B3_SAMPLED@, B3_SAMPLED@);
            lemma_with_header(h, B3_TRACE_ID@, t, B3_TRACE_ID@);
            lemma_with_header(h1, B3_SPAN_ID@, s, B3_TRACE_ID@);
            lemma_with_header(h2, B3_SAMPLED@, b3_sampled_value(c), B3_TRACE_ID@);
            lemma_with_header(h1, B3_SPAN_ID@, s, B3_SPAN_ID@);
            lemma_with_header(h2, B3_SAMPLED@, b3_sampled_value(c), B3_SPAN_ID@);
            lemma_with_header(h2, B3_SAMPLED@, b3_sampled_value(c), B3_SAMPLED@);
            lemma_pow16_32();
            lemma_hex_roundtrip(c.trace_id as nat, 32);
            lemma_hex_roundtrip(c.span_id as nat, 16);
            assert(seq!['0'].len() != seq!['t', 'r', 'u', 'e'].len());
            assert(seq!['0'][0] != seq!['1'][0]);
        },
    }
}

/// Headers that hold no field of the wire format give the empty context.
pub proof fn lemma_extract_without_headers(p: Propagator, h: HeaderSeq)
    requires
        lookup(h, TRACEPARENT@) is None,
        lookup(h, B3@) is None,
        lookup(h, B3_TRACE_ID@) is None,
    ensures
        extracted(p, h) == TraceContext::none(),
{
}

/// The `i`-th character of the trace id in a header value of format `p`.
pub open spec fn trace_id_char(p: Propagator, v: Seq<char>, i: int) -> char {
    if p == Propagator::W3c {
        v[i + 3]
    } else {
        v[i]
    }
}

/// The header value of format `p` is long enough to hold a context: 55
/// characters for `traceparent`, 33 for a B3 single value, and a B3 trace id
/// of 16 or 32 digits.
pub open spec fn well_sized(p: Propagator, v: Seq<char>) -> bool {
    match p {
        Propagator::W3c => v.len() >= 55,
        Propagator::B3Single => v.len() >= 33,
        Propagator::B3Multi => v.len() == 16 || v.len() == 32,
    }
}

/// The header that holds the trace id in format `p`.
pub open spec fn trace_id_header(p: Propagator) -> Seq<char> {
    match p {
        Propagator::W3c => TRACEPARENT@,
        Propagator::B3Single => B3@,
        Propagator::B3Multi => B3_TRACE_ID@,
    }
}

/// A propagation header whose value is of the wrong length, or holds a
/// character other than a lower-case hexadecimal digit where the trace id
/// stands (upper case, punctuation, anything outside ASCII), gives the empty
/// context.
pub proof fn lemma_extract_malformed(p: Propagator, h: HeaderSeq, v: Seq<char>)
    requires
        lookup(h, trace_id_header(p)) == Some(v),
        !well_sized(p, v) || (exists|i: int|
            0 <= i < 16 && !crate::hex::is_hex_char(#[trigger] trace_id_char(p, v, i))),
    ensures
        extracted(p, h) == TraceContext::none(),
{
    if well_sized(p, v) {
        let i = choose|i: int|
            0 <= i < 16 && !crate::hex::is_hex_char(#[trigger] trace_id_char(p, v, i));
        match p {
            Propagator::W3c => {
                assert(v.subrange(3, 35)[i] == v[i + 3]);
            },
            Propagator::B3Single => {
                let k = b3_trace_len(v);
                if v.len() >= k + 17 {
                    assert(v.subrange(0, k)[i] == v[i]);
                }
            },
            Propagator::B3Multi => {
                assert(!all_hex(v));
            },
        }
    }
}

/// Whatever the headers hold, the extracted context is either the empty one
/// or valid: identifiers that are all zeros are never read as a context.
pub proof fn lemma_extracted_valid_or_none(p: Propagator, h: HeaderSeq)
    ensures
        extracted(p, h) == TraceContext::none() || extracted(p, h).valid(),
{
    lemma_pow16_32();
    match p {
        Propagator::W3c => {
            if let Some(v) = lookup(h, TRACEPARENT@) {
                if traceparent_context(v) is Some {
                    lemma_hex_value_bound(v.subrange(3, 35));
                    lemma_hex_value_bound(v.subrange(36, 52));
                }
            }
        },
        Propagator::B3Single => {
            if let Some(v) = lookup(h, B3@) {
                if b3_context(v) is Some {
                    let k = b3_trace_len(v);
                    lemma_hex_value_bound(v.subrange(0, k));
                    crate::hex::lemma_pow16_monotonic(16, 32);
                    lemma_hex_value_bound(v.subrange(k + 1, k + 17));
                }
            }
        },
        Propagator::B3Multi => {
            if let (Some(t), Some(sp)) = (lookup(h, B3_TRACE_ID@), lookup(h, B3_SPAN_ID@)) {
                if b3_id_context(t, sp, lookup(h, B3_SAMPLED@)) is Some {
                    lemma_hex_value_bound(t);
                    crate::hex::lemma_pow16_monotonic(16, 32);
                    lemma_hex_value_bound(sp);
                }
            }
        },
    }
}

/// The W3C vendor-specific trace state header.
pub const TRACESTATE: &'static str = "tracestate";

/// The trace state that travels with the context in `h`: the `tracestate`
/// value, kept as it is, where a W3C context was found; empty otherwise.
pub open spec fn extracted_state(p: Propagator, h: HeaderSeq) -> Seq<char> {
    if p == Propagator::W3c && found_context(p, h) is Some {
        match lookup(h, TRACESTATE@) {
            Some(v) => v,
            None => Seq::empty(),
        }
    } else {
        Seq::empty()
    }
}

/// The headers after the trace state `state` of `c` is written into `h`: in
/// the W3C format, for a valid context, `tracestate` is set to it, or removed
/// where it is empty. Other formats carry no trace state.
pub open spec fn injected_state(p: Propagator, c: TraceContext, state: Seq<char>, h: HeaderSeq) -> HeaderSeq {
    if p == Propagator::W3c && c.valid() {
        if state.len() > 0 {
            with_header(h, TRACESTATE@, state)
        } else {
            without(h, TRACESTATE@)
        }
    } else {
        h
    }
}

impl Propagator {
    /// Reads the trace state that travels with the context in the headers.
    pub fn extract_state(&self, headers: &HeaderCarrier) -> (r: String)
        ensures
            r@ == extracted_state(*self, headers@),
    {
        match self {
            Propagator::W3c => {
                let found = match headers.get(TRACEPARENT) {
                    Some(v) => parse_traceparent(v),
                    None => None,
                };
                if found.is_none() {
                    return String::new();
                }
                match headers.get(TRACESTATE) {
                    Some(v) => crate::text::to_string(v),
                    None => String::new(),
                }
            },
            _ => String::new(),
        }
    }

    /// Writes the trace state of `cx` into the headers; see [`injected_state`].
    pub fn inject_state(&self, cx: &TraceContext, state: &str, headers: &mut HeaderCarrier)
        ensures
            final(headers)@ == injected_state(*self, *cx, state@, old(headers)@),
    {
        if *self == Propagator::W3c && cx.is_valid() {
            if state.is_empty() {
                headers.remove(TRACESTATE);
            } else {
                headers.set(TRACESTATE, crate::text::to_string(state));
            }
        }
    }
}

/// Round trip with the trace state: after a valid context and its trace state
/// are injected, extraction gives the same context, and in the W3C format the
/// same trace state.
pub proof fn lemma_state_round_trip(p: Propagator, c: TraceContext, state: Seq<char>, h: HeaderSeq)
    requires
        c.valid(),
    ensures
        extracted(p, injected_state(p, c, state, injected(p, c, h))) == c,
        extracted_state(p, injected_state(p, c, state, injected(p, c, h))) == (if p
            == Propagator::W3c {
            state
        } else {
            Seq::empty()
        }),
{
    let h1 = injected(p, c, h);
    lemma_round_trip(p, c, h);
    if p == Propagator::W3c {
        reveal_strlit("traceparent");
        reveal_strlit("tracestate");
        assert(!crate::text::same_name(TRACEPARENT@, TRACESTATE@));
        crate::text::lemma_same_name_equivalence(TRACESTATE@, TRACESTATE@, TRACESTATE@);
        if state.len() > 0 {
            lemma_with_header(h1, TRACESTATE@, state, TRACEPARENT@);
            lemma_with_header(h1, TRACESTATE@, state, TRACESTATE@);
        } else {
            lemma_without(h1, TRACESTATE@, TRACEPARENT@);
            lemma_without(h1, TRACESTATE@, TRACESTATE@);
        }
    }
}

} // verus!
