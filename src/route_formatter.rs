//! Turning request paths into low-cardinality route labels.
use vstd::prelude::*;

verus! {

/// Turns a path, or a matched route pattern, into the route label that names
/// spans and labels metrics.
pub trait RouteFormatter {
    /// The label for `path`.
    spec fn route(&self, path: Seq<char>) -> Seq<char>;

    /// The label for `path`; it depends on the path alone.
    fn format(&self, path: &str) -> (r: String)
        ensures
            r@ == self.route(path@),
    ;
}

/// Keeps the path as it is.
#[derive(Clone, Copy, Debug, Default)]
pub struct PassThroughFormatter {}

impl PassThroughFormatter {
    /// A formatter that keeps paths unchanged.
    pub fn new() -> (r: PassThroughFormatter) {
        PassThroughFormatter {  }
    }
}

impl RouteFormatter for PassThroughFormatter {
    open spec fn route(&self, path: Seq<char>) -> Seq<char> {
        path
    }

    fn format(&self, path: &str) -> (r: String) {
        crate::text::to_string(path)
    }
}

/// Pattern of a UUID in its textual form, hexadecimal digits of either case.
pub const UUID_PATTERN: &'static str =
    "[0-9a-fA-F]{8}\\-[0-9a-fA-F]{4}\\-[0-9a-fA-F]{4}\\-[0-9a-fA-F]{4}\\-[0-9a-fA-F]{12}";

/// What a UUID is replaced with.
pub const UUID_REPLACEMENT: &'static str = "*";

/// A hexadecimal digit of either case.
pub open spec fn is_any_case_hex(c: char) -> bool {
    ('0' <= c && c <= '9') || ('a' <= c && c <= 'f') || ('A' <= c && c <= 'F')
}

/// A UUID starts at `i` in `s`: 8, 4, 4, 4 and 12 hexadecimal digits
/// separated by dashes.
pub open spec fn is_uuid_at(s: Seq<char>, i: int) -> bool {
    &&& 0 <= i
    &&& i + 36 <= s.len()
    &&& forall|j: int|
        0 <= j < 36 ==> if j == 8 || j == 13 || j == 18 || j == 23 {
            #[trigger] s[i + j] == '-'
        } else {
            is_any_case_hex(s[i + j])
        }
}

/// `s` with each UUID replaced by `*`, scanning from the left and resuming
/// after each replaced UUID.
pub open spec fn uuids_elided(s: Seq<char>) -> Seq<char>
    decreases s.len(),
{
    if s.len() == 0 {
        s
    } else if is_uuid_at(s, 0) {
        seq!['*'] + uuids_elided(s.subrange(36, s.len() as int))
    } else {
        seq![s[0]] + uuids_elided(s.drop_first())
    }
}

/// No UUID starts anywhere in `s`.
pub open spec fn has_no_uuid(s: Seq<char>) -> bool {
    forall|i: int| !#[trigger] is_uuid_at(s, i)
}

/// Relies on `regex::Regex::new` and `regex::Regex::replace_all`: every
/// leftmost, non-overlapping match of the UUID pattern is replaced by `*`.
/// The pattern is valid, so compiling it succeeds.
#[verifier::external_body]
fn regex_replace_all(pattern: &str, text: &str, replacement: &str) -> (r: String)
    requires
        pattern@ == UUID_PATTERN@,
        replacement@ == UUID_REPLACEMENT@,
    ensures
        r@ == uuids_elided(text@),
{
    let re = regex::Regex::new(pattern).expect("the UUID pattern compiles");
    re.replace_all(text, replacement).into_owned()
}

/// Replaces UUIDs in paths with `*`, e.g.
/// `/users/4f5accfe-45d2-43b1-bf10-fdad708732a8` becomes `/users/*`.
#[derive(Clone, Copy, Debug, Default)]
pub struct UuidWildcardFormatter {}

impl UuidWildcardFormatter {
    /// Creates a new `UuidWildcardFormatter`.
    pub fn new() -> (r: UuidWildcardFormatter) {
        UuidWildcardFormatter {  }
    }
}

impl RouteFormatter for UuidWildcardFormatter {
    open spec fn route(&self, path: Seq<char>) -> Seq<char> {
        uuids_elided(path)
    }

    fn format(&self, path: &str) -> (r: String) {
        regex_replace_all(UUID_PATTERN, path, UUID_REPLACEMENT)
    }
}

proof fn lemma_uuid_shift(s: Seq<char>, i: int)
    requires
        s.len() > 0,
        0 <= i,
    ensures
        is_uuid_at(s.drop_first(), i) == is_uuid_at(s, i + 1),
{
    let t = s.drop_first();
    if is_uuid_at(t, i) {
        assert forall|j: int| 0 <= j < 36 implies if j == 8 || j == 13 || j == 18 || j == 23 {
            #[trigger] s[i + 1 + j] == '-'
        } else {
            is_any_case_hex(s[i + 1 + j])
        } by {
            assert(t[i + j] == s[i + 1 + j]);
        }
    }
    if is_uuid_at(s, i + 1) {
        assert forall|j: int| 0 <= j < 36 implies if j == 8 || j == 13 || j == 18 || j == 23 {
            #[trigger] t[i + j] == '-'
        } else {
            is_any_case_hex(t[i + j])
        } by {
            assert(t[i + j] == s[i + 1 + j]);
            assert(s[(i + 1) + j] == s[i + 1 + j]);
        }
    }
}

/// Where the output has no `*` in its first `n` characters, those are the
/// input's first `n`, and no UUID starts among them in the input.
proof fn lemma_elided_prefix(s: Seq<char>, n: int)
    requires
        0 <= n <= uuids_elided(s).len(),
        forall|k: int| 0 <= k < n ==> #[trigger] uuids_elided(s)[k] != '*',
    ensures
        n <= s.len(),
        uuids_elided(s).subrange(0, n) == s.subrange(0, n),
        forall|j: int| 0 <= j < n ==> !#[trigger] is_uuid_at(s, j),
    decreases s.len(),
{
    let t = uuids_elided(s);
    if n == 0 {
        assert(t.subrange(0, 0) =~= s.subrange(0, 0));
    } else if s.len() == 0 {
    } else if is_uuid_at(s, 0) {
        assert(t[0] == '*');
    } else {
        let r = s.drop_first();
        let e = uuids_elided(r);
        assert(t == seq![s[0]] + e);
        assert forall|k: int| 0 <= k < n - 1 implies #[trigger] e[k] != '*' by {
            assert(t[k + 1] == e[k]);
        }
        lemma_elided_prefix(r, n - 1);
        assert(t.subrange(0, n) =~= s.subrange(0, n)) by {
            assert forall|k: int| 0 <= k < n implies t.subrange(0, n)[k] == s.subrange(0, n)[k] by {
                if k > 0 {
                    assert(e.subrange(0, n - 1)[k - 1] == r.subrange(0, n - 1)[k - 1]);
                }
            }
        }
        assert forall|j: int| 0 <= j < n implies !#[trigger] is_uuid_at(s, j) by {
            if j > 0 {
                lemma_uuid_shift(s, j - 1);
                assert(!is_uuid_at(r, j - 1));
            }
        }
    }
}

proof fn lemma_elided_has_no_uuid(s: Seq<char>)
    ensures
        has_no_uuid(uuids_elided(s)),
    decreases s.len(),
{
    let t = uuids_elided(s);
    if s.len() > 0 {
        let head_is_uuid = is_uuid_at(s, 0);
        let r = if head_is_uuid {
            s.subrange(36, s.len() as int)
        } else {
            s.drop_first()
        };
        lemma_elided_has_no_uuid(r);
        let e = uuids_elided(r);
        assert(t == seq![t[0]] + e);
        assert forall|i: int| !#[trigger] is_uuid_at(t, i) by {
            if i > 0 && is_uuid_at(t, i) {
                lemma_uuid_shift(t, i - 1);
                assert(t.drop_first() =~= e);
            }
            if i == 0 && is_uuid_at(t, 0) {
                assert(t[0] != '*') by {
                    assert(t[0int + 0int] == t[0]);
                }
                assert forall|k: int| 0 <= k < 35 implies #[trigger] e[k] != '*' by {
                    assert(t[0int + (k + 1)] == e[k]);
                }
                lemma_elided_prefix(r, 35);
                assert(is_uuid_at(s, 0)) by {
                    assert forall|j: int| 0 <= j < 36 implies if j == 8 || j == 13 || j == 18
                        || j == 23 {
                        #[trigger] s[0int + j] == '-'
                    } else {
                        is_any_case_hex(s[0int + j])
                    } by {
                        assert(t[0int + j] == t[j]);
                        if j > 0 {
                            assert(e.subrange(0, 35)[j - 1] == r.subrange(0, 35)[j - 1]);
                            assert(t[j] == e[j - 1]);
                            assert(r[j - 1] == s[j]);
                        }
                    }
                }
            }
        }
    }
}

proof fn lemma_elided_identity(s: Seq<char>)
    requires
        has_no_uuid(s),
    ensures
        uuids_elided(s) == s,
    decreases s.len(),
{
    if s.len() > 0 {
        let r = s.drop_first();
        assert(!is_uuid_at(s, 0));
        assert forall|i: int| !#[trigger] is_uuid_at(r, i) by {
            if i >= 0 {
                lemma_uuid_shift(s, i);
                assert(!is_uuid_at(s, i + 1));
            }
        }
        lemma_elided_identity(r);
        assert(seq![s[0]] + r =~= s);
    }
}

/// Formatting a route a second time changes nothing: UUID elision is idempotent.
pub proof fn lemma_uuid_formatting_idempotent(path: Seq<char>)
    ensures
        uuids_elided(uuids_elided(path)) == uuids_elided(path),
{
    lemma_elided_has_no_uuid(path);
    lemma_elided_identity(uuids_elided(path));
}

} // verus!
