//! A collection of HTTP headers that contexts are read from and written to.
use vstd::prelude::*;
use crate::text::{names_match, same_name, lemma_same_name_equivalence};

verus! {

/// The headers as (name, value) pairs, in order.
pub type HeaderSeq = Seq<(Seq<char>, Seq<char>)>;

/// The value of the first header whose name is `name` up to ASCII case.
pub open spec fn lookup(h: HeaderSeq, name: Seq<char>) -> Option<Seq<char>>
    decreases h.len(),
{
    if h.len() == 0 {
        None
    } else {
        match lookup(h.drop_last(), name) {
            Some(v) => Some(v),
            None => if same_name(h.last().0, name) {
                Some(h.last().1)
            } else {
                None
            },
        }
    }
}

/// The headers without those named `name` up to ASCII case.
pub open spec fn without(h: HeaderSeq, name: Seq<char>) -> HeaderSeq
    decreases h.len(),
{
    if h.len() == 0 {
        h
    } else if same_name(h.last().0, name) {
        without(h.drop_last(), name)
    } else {
        without(h.drop_last(), name).push(h.last())
    }
}

/// The headers after `name` is set to `value`: earlier values are dropped.
pub open spec fn with_header(h: HeaderSeq, name: Seq<char>, value: Seq<char>) -> HeaderSeq {
    without(h, name).push((name, value))
}

proof fn lemma_lookup_prefix(h: HeaderSeq, k: int, name: Seq<char>)
    requires
        0 <= k <= h.len(),
        lookup(h.subrange(0, k), name) is Some,
    ensures
        lookup(h, name) == lookup(h.subrange(0, k), name),
    decreases h.len() - k,
{
    if k < h.len() {
        assert(h.subrange(0, k + 1).drop_last() =~= h.subrange(0, k));
        lemma_lookup_prefix(h, k + 1, name);
    } else {
        assert(h.subrange(0, k) =~= h);
    }
}

proof fn lemma_lookup_without_other(h: HeaderSeq, n: Seq<char>, m: Seq<char>)
    requires
        !same_name(m, n),
    ensures
        lookup(without(h, n), m) == lookup(h, m),
    decreases h.len(),
{
    if h.len() > 0 {
        lemma_lookup_without_other(h.drop_last(), n, m);
        if same_name(h.last().0, n) {
            lemma_same_name_equivalence(h.last().0, n, m);
            lemma_same_name_equivalence(m, n, h.last().0);
            lemma_same_name_equivalence(h.last().0, m, n);
            assert(!same_name(h.last().0, m));
        } else {
            let w = without(h.drop_last(), n);
            assert(w.push(h.last()).drop_last() =~= w);
        }
    }
}

proof fn lemma_lookup_without_same(h: HeaderSeq, n: Seq<char>, m: Seq<char>)
    requires
        same_name(m, n),
    ensures
        lookup(without(h, n), m) is None,
    decreases h.len(),
{
    if h.len() > 0 {
        lemma_lookup_without_same(h.drop_last(), n, m);
        if !same_name(h.last().0, n) {
            let w = without(h.drop_last(), n);
            assert(w.push(h.last()).drop_last() =~= w);
            lemma_same_name_equivalence(h.last().0, m, n);
        }
    }
}

/// After a header is removed, it reads as absent; every other header reads as before.
pub proof fn lemma_without(h: HeaderSeq, n: Seq<char>, m: Seq<char>)
    ensures
        same_name(m, n) ==> lookup(without(h, n), m) is None,
        !same_name(m, n) ==> lookup(without(h, n), m) == lookup(h, m),
{
    if same_name(m, n) {
        lemma_lookup_without_same(h, n, m);
    } else {
        lemma_lookup_without_other(h, n, m);
    }
}

/// After a header is set, it is read back; every other header reads as before.
pub proof fn lemma_with_header(h: HeaderSeq, n: Seq<char>, v: Seq<char>, m: Seq<char>)
    ensures
        same_name(m, n) ==> lookup(with_header(h, n, v), m) == Some(v),
        !same_name(m, n) ==> lookup(with_header(h, n, v), m) == lookup(h, m),
{
    let w = without(h, n);
    assert(w.push((n, v)).drop_last() =~= w);
    lemma_same_name_equivalence(n, m, n);
    if same_name(m, n) {
        lemma_lookup_without_same(h, n, m);
    } else {
        lemma_lookup_without_other(h, n, m);
    }
}

/// HTTP headers as an ordered list of (name, value) pairs. Names are
/// compared up to ASCII case.
#[derive(Debug)]
pub struct HeaderCarrier {
    entries: Vec<(String, String)>,
}

impl View for HeaderCarrier {
    type V = HeaderSeq;

    closed spec fn view(&self) -> HeaderSeq {
        self.entries@.map_values(|e: (String, String)| (e.0@, e.1@))
    }
}

impl HeaderCarrier {
    /// A carrier with no headers.
    pub fn new() -> (r: HeaderCarrier)
        ensures
            r@ == Seq::<(Seq<char>, Seq<char>)>::empty(),
    {
        let r = HeaderCarrier { entries: Vec::new() };
        assert(r@ =~= Seq::<(Seq<char>, Seq<char>)>::empty());
        r
    }

    /// A carrier over the given pairs, in order.
    pub fn from_pairs(entries: Vec<(String, String)>) -> (r: HeaderCarrier)
        ensures
            r@ == entries@.map_values(|e: (String, String)| (e.0@, e.1@)),
    {
        HeaderCarrier { entries }
    }

    /// The pairs, in order.
    pub fn pairs(&self) -> (r: &Vec<(String, String)>)
        ensures
            r@.map_values(|e: (String, String)| (e.0@, e.1@)) == self@,
    {
        &self.entries
    }

    /// The number of headers.
    pub fn len(&self) -> (r: usize)
        ensures
            r == self@.len(),
    {
        self.entries.len()
    }

    /// The value of the first header named `name`.
    pub fn get(&self, name: &str) -> (r: Option<&str>)
        ensures
            match r {
                Some(v) => lookup(self@, name@) == Some(v@),
                None => lookup(self@, name@) is None,
            },
    {
        let n = self.entries.len();
        let mut i: usize = 0;
        assert(self@.subrange(0, 0) =~= HeaderSeq::empty());
        while i < n
            invariant
                n == self.entries@.len(),
                i <= n,
                lookup(self@.subrange(0, i as int), name@) is None,
            decreases n - i,
        {
            let e = &self.entries[i];
            let hit = names_match(e.0.as_str(), name);
            assert(self@.subrange(0, i + 1).drop_last() =~= self@.subrange(0, i as int));
            if hit {
                proof {
                    lemma_lookup_prefix(self@, i + 1, name@);
                }
                return Some(e.1.as_str());
            }
            i += 1;
        }
        assert(self@.subrange(0, n as int) =~= self@);
        None
    }

    /// Removes every header named `name`.
    pub fn remove(&mut self, name: &str)
        ensures
            final(self)@ == without(old(self)@, name@),
    {
        let ghost h = self@;
        let n = self.entries.len();
        let mut kept: Vec<(String, String)> = Vec::new();
        let mut i: usize = 0;
        assert(h.subrange(0, 0) =~= HeaderSeq::empty());
        while i < n
            invariant
                n == self.entries@.len(),
                h == self@,
                i <= n,
                kept@.map_values(|e: (String, String)| (e.0@, e.1@)) == without(
                    h.subrange(0, i as int),
                    name@,
                ),
            decreases n - i,
        {
            let e = &self.entries[i];
            let ghost before = kept@.map_values(|e: (String, String)| (e.0@, e.1@));
            assert(h.subrange(0, i + 1).drop_last() =~= h.subrange(0, i as int));
            if !names_match(e.0.as_str(), name) {
                kept.push((e.0.clone(), e.1.clone()));
                assert(kept@.map_values(|e: (String, String)| (e.0@, e.1@)) =~= before.push(
                    h[i as int],
                ));
            }
            i += 1;
        }
        assert(h.subrange(0, n as int) =~= h);
        self.entries = kept;
    }

    /// Sets `name` to `value`, dropping every earlier value of it.
    pub fn set(&mut self, name: &str, value: String)
        ensures
            final(self)@ == with_header(old(self)@, name@, value@),
    {
        self.remove(name);
        let ghost before = self@;
        self.entries.push((crate::text::to_string(name), value));
        assert(self@ =~= before.push((name@, value@)));
    }
}

} // verus!
