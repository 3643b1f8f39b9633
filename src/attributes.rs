//! Span and metric attributes: keys, values and the request fields they come from.
use vstd::prelude::*;
use crate::text::{push_char, to_string};

verus! {

/// The matched route.
pub const HTTP_ROUTE: &'static str = "http.route";

/// The address of the client, as seen through proxies.
pub const CLIENT_ADDRESS: &'static str = "client.address";

/// The address of the directly connected peer.
pub const NETWORK_PEER_ADDRESS: &'static str = "network.peer.address";

/// The server host name.
pub const SERVER_ADDRESS: &'static str = "server.address";

/// The server port.
pub const SERVER_PORT: &'static str = "server.port";

/// The path of the request target.
pub const URL_PATH: &'static str = "url.path";

/// The query of the request target.
pub const URL_QUERY: &'static str = "url.query";

/// The URL scheme.
pub const URL_SCHEME: &'static str = "url.scheme";

/// The full request URL.
pub const URL_FULL: &'static str = "url.full";

/// The request method.
pub const HTTP_REQUEST_METHOD: &'static str = "http.request.method";

/// The HTTP protocol version.
pub const NETWORK_PROTOCOL_VERSION: &'static str = "network.protocol.version";

/// The size of the message body.
pub const MESSAGING_MESSAGE_BODY_SIZE: &'static str = "messaging.message.body.size";

/// The user agent.
pub const USER_AGENT_ORIGINAL: &'static str = "user_agent.original";

/// The response status code.
pub const HTTP_RESPONSE_STATUS_CODE: &'static str = "http.response.status_code";

/// The value of an attribute, as it is reasoned about.
pub enum AttributeView {
    Str(Seq<char>),
    I64(i64),
    Bool(bool),
}

/// The value of an attribute.
#[derive(Clone, Debug)]
pub enum AttributeValue {
    Str(String),
    I64(i64),
    Bool(bool),
}

impl View for AttributeValue {
    type V = AttributeView;

    open spec fn view(&self) -> AttributeView {
        match self {
            AttributeValue::Str(s) => AttributeView::Str(s@),
            AttributeValue::I64(n) => AttributeView::I64(*n),
            AttributeValue::Bool(b) => AttributeView::Bool(*b),
        }
    }
}

/// A key and its value.
#[derive(Clone, Debug)]
pub struct KeyValue {
    pub key: String,
    pub value: AttributeValue,
}

impl View for KeyValue {
    type V = (Seq<char>, AttributeView);

    open spec fn view(&self) -> (Seq<char>, AttributeView) {
        (self.key@, self.value@)
    }
}

/// Attributes as (key, value) pairs, in order.
pub type AttributeSeq = Seq<(Seq<char>, AttributeView)>;

/// The view of a list of attributes.
pub open spec fn attrs_view(v: Seq<KeyValue>) -> AttributeSeq {
    v.map_values(|kv: KeyValue| kv@)
}

impl KeyValue {
    /// A string-valued attribute.
    pub fn string(key: &str, value: String) -> (r: KeyValue)
        ensures
            r@ == (key@, AttributeView::Str(value@)),
    {
        KeyValue { key: to_string(key), value: AttributeValue::Str(value) }
    }

    /// An integer-valued attribute.
    pub fn integer(key: &str, value: i64) -> (r: KeyValue)
        ensures
            r@ == (key@, AttributeView::I64(value)),
    {
        KeyValue { key: to_string(key), value: AttributeValue::I64(value) }
    }

    /// A copy with the same view.
    pub fn duplicate(&self) -> (r: KeyValue)
        ensures
            r@ == self@,
    {
        let value = match &self.value {
            AttributeValue::Str(s) => AttributeValue::Str(s.clone()),
            AttributeValue::I64(n) => AttributeValue::I64(*n),
            AttributeValue::Bool(b) => AttributeValue::Bool(*b),
        };
        KeyValue { key: self.key.clone(), value }
    }
}

/// Appends `kv` to `attrs`.
pub fn push_attribute(attrs: &mut Vec<KeyValue>, kv: KeyValue)
    ensures
        attrs_view(final(attrs)@) == attrs_view(old(attrs)@).push(kv@),
{
    let ghost before = attrs@;
    attrs.push(kv);
    assert(attrs_view(attrs@) =~= attrs_view(before).push(kv@));
}

/// The request method.
#[derive(Clone, Debug)]
pub enum Method {
    Options,
    Get,
    Post,
    Put,
    Delete,
    Head,
    Trace,
    Connect,
    Patch,
    /// An extension method, by name.
    Other(String),
}

/// The name of a method as it is written in a request.
pub open spec fn method_name(m: Method) -> Seq<char> {
    match m {
        Method::Options => "OPTIONS"@,
        Method::Get => "GET"@,
        Method::Post => "POST"@,
        Method::Put => "PUT"@,
        Method::Delete => "DELETE"@,
        Method::Head => "HEAD"@,
        Method::Trace => "TRACE"@,
        Method::Connect => "CONNECT"@,
        Method::Patch => "PATCH"@,
        Method::Other(s) => s@,
    }
}

/// The name of the method, as recorded in attributes.
pub fn http_method_str(method: &Method) -> (r: String)
    ensures
        r@ == method_name(*method),
{
    match method {
        Method::Options => to_string("OPTIONS"),
        Method::Get => to_string("GET"),
        Method::Post => to_string("POST"),
        Method::Put => to_string("PUT"),
        Method::Delete => to_string("DELETE"),
        Method::Head => to_string("HEAD"),
        Method::Trace => to_string("TRACE"),
        Method::Connect => to_string("CONNECT"),
        Method::Patch => to_string("PATCH"),
        Method::Other(s) => s.clone(),
    }
}

/// The HTTP protocol version of a request.
#[derive(Clone, Debug)]
pub enum Version {
    Http09,
    Http10,
    Http11,
    Http2,
    Http3,
    /// A version without a short name, by its description.
    Other(String),
}

/// The short name of a protocol version.
pub open spec fn version_name(v: Version) -> Seq<char> {
    match v {
        Version::Http09 => "0.9"@,
        Version::Http10 => "1.0"@,
        Version::Http11 => "1.1"@,
        Version::Http2 => "2"@,
        Version::Http3 => "3"@,
        Version::Other(s) => s@,
    }
}

/// The short name of the protocol version, as recorded in attributes.
pub fn protocol_version(version: &Version) -> (r: String)
    ensures
        r@ == version_name(*version),
{
    match version {
        Version::Http09 => to_string("0.9"),
        Version::Http10 => to_string("1.0"),
        Version::Http11 => to_string("1.1"),
        Version::Http2 => to_string("2"),
        Version::Http3 => to_string("3"),
        Version::Other(s) => s.clone(),
    }
}

/// The URL scheme, as recorded in attributes.
pub fn url_scheme(scheme: &str) -> (r: String)
    ensures
        r@ == scheme@,
{
    to_string(scheme)
}

/// An ASCII decimal digit.
pub open spec fn is_digit(c: char) -> bool {
    '0' <= c && c <= '9'
}

/// Every character of `s` is a decimal digit.
pub open spec fn all_digits(s: Seq<char>) -> bool {
    forall|i: int| 0 <= i < s.len() ==> is_digit(#[trigger] s[i])
}

/// The number that a string of decimal digits denotes.
pub open spec fn digits_value(s: Seq<char>) -> int
    decreases s.len(),
{
    if s.len() == 0 {
        0
    } else {
        digits_value(s.drop_last()) * 10 + ((s.last() as u32) - ('0' as u32))
    }
}

/// An integer in the text form of `str::parse::<i64>`: an optional `+` or `-`
/// sign followed by one or more digits, in range.
pub open spec fn decimal_i64(s: Seq<char>) -> Option<i64> {
    let signed = s.len() > 0 && (s[0] == '-' || s[0] == '+');
    let digits = if signed {
        s.drop_first()
    } else {
        s
    };
    let v = if s.len() > 0 && s[0] == '-' {
        -digits_value(digits)
    } else {
        digits_value(digits)
    };
    if digits.len() > 0 && all_digits(digits) && i64::MIN <= v <= i64::MAX {
        Some(v as i64)
    } else {
        None
    }
}

/// An integer in the text form of `str::parse::<u64>`: an optional `+` sign
/// followed by one or more digits, in range.
pub open spec fn decimal_u64(s: Seq<char>) -> Option<u64> {
    let digits = if s.len() > 0 && s[0] == '+' {
        s.drop_first()
    } else {
        s
    };
    if digits.len() > 0 && all_digits(digits) && digits_value(digits) <= u64::MAX {
        Some(digits_value(digits) as u64)
    } else {
        None
    }
}

/// Relies on `str::parse::<i64>`: an optional sign and decimal digits, in range.
#[verifier::external_body]
pub(crate) fn parse_i64(s: &str) -> (r: Option<i64>)
    ensures
        r == decimal_i64(s@),
{
    s.parse::<i64>().ok()
}

/// Relies on `str::parse::<u64>`: an optional `+` and decimal digits, in range.
#[verifier::external_body]
pub(crate) fn parse_u64(s: &str) -> (r: Option<u64>)
    ensures
        r == decimal_u64(s@),
{
    s.parse::<u64>().ok()
}

/// The decimal digits of `n`, most significant first, without leading zeros.
pub open spec fn decimal(n: nat) -> Seq<char>
    decreases n,
{
    if n < 10 {
        seq![decimal_digit(n)]
    } else {
        decimal(n / 10).push(decimal_digit(n % 10))
    }
}

/// The character of a decimal digit.
pub open spec fn decimal_digit(d: nat) -> char {
    crate::hex::hex_digit(d)
}

/// Appends the decimal digits of `n`.
pub fn push_decimal(out: &mut String, n: u64)
    ensures
        final(out)@ == old(out)@ + decimal(n as nat),
    decreases n,
{
    if n >= 10 {
        push_decimal(out, n / 10);
    }
    push_char(out, crate::hex::hex_digit_char((n % 10) as u8));
    assert(out@ =~= old(out)@ + decimal(n as nat));
}

} // verus!
