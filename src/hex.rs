//! Lower-case hexadecimal digits, as used by the propagation wire formats.
use vstd::prelude::*;

verus! {

/// `16` raised to `k`.
pub open spec fn pow16(k: nat) -> nat
    decreases k,
{
    if k == 0 {
        1
    } else {
        16 * pow16((k - 1) as nat)
    }
}

/// A lower-case hexadecimal digit.
pub open spec fn is_hex_char(c: char) -> bool {
    ('0' <= c && c <= '9') || ('a' <= c && c <= 'f')
}

/// Every character of `s` is a lower-case hexadecimal digit.
pub open spec fn all_hex(s: Seq<char>) -> bool {
    forall|i: int| 0 <= i < s.len() ==> is_hex_char(#[trigger] s[i])
}

/// The value of a lower-case hexadecimal digit.
pub open spec fn hex_char_value(c: char) -> nat {
    if '0' <= c && c <= '9' {
        ((c as u32) - ('0' as u32)) as nat
    } else {
        ((c as u32) - ('a' as u32) + 10) as nat
    }
}

/// The digit that stands for `d`, for `d < 16`.
pub open spec fn hex_digit(d: nat) -> char {
    if d == 0 { '0' }
    else if d == 1 { '1' }
    else if d == 2 { '2' }
    else if d == 3 { '3' }
    else if d == 4 { '4' }
    else if d == 5 { '5' }
    else if d == 6 { '6' }
    else if d == 7 { '7' }
    else if d == 8 { '8' }
    else if d == 9 { '9' }
    else if d == 10 { 'a' }
    else if d == 11 { 'b' }
    else if d == 12 { 'c' }
    else if d == 13 { 'd' }
    else if d == 14 { 'e' }
    else { 'f' }
}

/// The number that a string of hexadecimal digits denotes, most significant first.
pub open spec fn hex_value(s: Seq<char>) -> nat
    decreases s.len(),
{
    if s.len() == 0 {
        0
    } else {
        hex_value(s.drop_last()) * 16 + hex_char_value(s.last())
    }
}

/// The `n` least significant hexadecimal digits of `v`, most significant first,
/// with leading zeros.
pub open spec fn hex_encoding(v: nat, n: nat) -> Seq<char> {
    Seq::new(n, |i: int| hex_digit((v / pow16((n - 1 - i) as nat)) % 16))
}

pub proof fn lemma_pow16_positive(k: nat)
    ensures
        pow16(k) >= 1,
    decreases k,
{
    if k > 0 {
        lemma_pow16_positive((k - 1) as nat);
    }
}

pub proof fn lemma_pow16_32()
    ensures
        pow16(32) == 0x1_0000_0000_0000_0000_0000_0000_0000_0000nat,
        pow16(16) == 0x1_0000_0000_0000_0000nat,
        pow16(2) == 256,
        pow16(1) == 16,
{
    reveal_with_fuel(pow16, 33);
}

proof fn lemma_hex_digit_roundtrip(d: nat)
    requires
        d < 16,
    ensures
        is_hex_char(hex_digit(d)),
        hex_char_value(hex_digit(d)) == d,
{
}

/// Decoding the encoding of `v` on `n` digits gives `v` back, when it fits.
pub proof fn lemma_hex_roundtrip(v: nat, n: nat)
    requires
        v < pow16(n),
    ensures
        all_hex(hex_encoding(v, n)),
        hex_value(hex_encoding(v, n)) == v,
    decreases n,
{
    let e = hex_encoding(v, n);
    assert forall|i: int| 0 <= i < e.len() implies is_hex_char(#[trigger] e[i]) by {
        lemma_pow16_positive((n - 1 - i) as nat);
        lemma_hex_digit_roundtrip((v / pow16((n - 1 - i) as nat)) % 16);
    }
    if n > 0 {
        let m = (n - 1) as nat;
        lemma_pow16_positive(m);
        assert(v / 16 < pow16(m)) by (nonlinear_arith)
            requires
                v < 16 * pow16(m),
        ;
        lemma_hex_roundtrip(v / 16, m);
        let f = hex_encoding(v / 16, m);
        assert forall|i: int| 0 <= i < m implies #[trigger] e.drop_last()[i] == f[i] by {
            let k = (m - 1 - i) as nat;
            lemma_pow16_positive(k);
            assert(pow16((n - 1 - i) as nat) == 16 * pow16(k));
            vstd::arithmetic::div_mod::lemma_div_denominator(v as int, 16, pow16(k) as int);
        }
        assert(e.drop_last() =~= f);
        assert(pow16(0) == 1);
        assert(e.last() == hex_digit((v / pow16(0)) % 16));
        assert(v / 1 == v);
        lemma_hex_digit_roundtrip(v % 16);
        vstd::arithmetic::div_mod::lemma_fundamental_div_mod(v as int, 16);
    }
}

/// The digit for `d`.
pub fn hex_digit_char(d: u8) -> (c: char)
    requires
        d < 16,
    ensures
        c == hex_digit(d as nat),
{
    match d {
        0 => '0',
        1 => '1',
        2 => '2',
        3 => '3',
        4 => '4',
        5 => '5',
        6 => '6',
        7 => '7',
        8 => '8',
        9 => '9',
        10 => 'a',
        11 => 'b',
        12 => 'c',
        13 => 'd',
        14 => 'e',
        _ => 'f',
    }
}

} // verus!

verus! {

pub proof fn lemma_pow16_monotonic(k: nat, m: nat)
    requires
        k <= m,
    ensures
        pow16(k) <= pow16(m),
    decreases m - k,
{
    if k < m {
        lemma_pow16_monotonic(k, (m - 1) as nat);
        lemma_pow16_positive((m - 1) as nat);
    }
}

/// Appends the `n`-digit encoding of `v`.
pub fn push_hex(out: &mut String, v: u128, n: usize)
    requires
        1 <= n <= 32,
    ensures
        final(out)@ == old(out)@ + hex_encoding(v as nat, n as nat),
{
    let ghost start = out@;
    let ghost enc = hex_encoding(v as nat, n as nat);
    let mut div: u128 = 1;
    let mut k: usize = 1;
    proof {
        lemma_pow16_32();
    }
    while k < n
        invariant
            1 <= k <= n <= 32,
            div == pow16((k - 1) as nat),
            pow16(32) == 0x1_0000_0000_0000_0000_0000_0000_0000_0000nat,
        decreases n - k,
    {
        proof {
            lemma_pow16_monotonic(k as nat, 31);
            assert(pow16(32) == 16 * pow16(31));
        }
        div = div * 16;
        k += 1;
    }
    let mut i: usize = 0;
    while i < n
        invariant
            i <= n <= 32,
            i < n ==> div == pow16((n - 1 - i) as nat),
            out@ == start + enc.subrange(0, i as int),
            enc == hex_encoding(v as nat, n as nat),
        decreases n - i,
    {
        proof {
            lemma_pow16_positive((n - 1 - i) as nat);
        }
        let d = ((v / div) % 16) as u8;
        crate::text::push_char(out, hex_digit_char(d));
        assert(enc.subrange(0, i + 1) =~= enc.subrange(0, i as int).push(enc[i as int]));
        if i + 1 < n {
            proof {
                let k = (n - 2 - i) as nat;
                assert(pow16((n - 1 - i) as nat) == 16 * pow16(k));
                vstd::arithmetic::div_mod::lemma_div_by_multiple(pow16(k) as int, 16);
                assert((16 * pow16(k)) / 16 == pow16(k)) by (nonlinear_arith);
            }
            div = div / 16;
        }
        i += 1;
    }
    assert(enc.subrange(0, n as int) =~= enc);
}

/// Reads the `len` characters of `s` from `start` as a hexadecimal number.
/// `None` where one of them is not a lower-case hexadecimal digit.
pub fn parse_hex(s: &str, start: usize, len: usize) -> (r: Option<u128>)
    requires
        start + len <= s@.len(),
        start + len <= usize::MAX,
        len <= 32,
    ensures
        r is Some <==> all_hex(s@.subrange(start as int, start + len)),
        r is Some ==> r->0 as nat == hex_value(s@.subrange(start as int, start + len)),
{
    let ghost field = s@.subrange(start as int, start + len);
    let mut acc: u128 = 0;
    let mut i: usize = 0;
    proof {
        lemma_pow16_32();
        assert(field.subrange(0, 0) =~= Seq::<char>::empty());
    }
    while i < len
        invariant
            start + len <= s@.len(),
            start + len <= usize::MAX,
            len <= 32,
            i <= len,
            field == s@.subrange(start as int, start + len),
            all_hex(field.subrange(0, i as int)),
            acc as nat == hex_value(field.subrange(0, i as int)),
            (acc as nat) < pow16(i as nat),
            pow16(32) == 0x1_0000_0000_0000_0000_0000_0000_0000_0000nat,
        decreases len - i,
    {
        let c = s.get_char(start + i);
        assert(c == field[i as int]);
        if !(('0' <= c && c <= '9') || ('a' <= c && c <= 'f')) {
            assert(!is_hex_char(field[i as int]));
            return None;
        }
        let d: u128 = if c <= '9' {
            ((c as u32) - ('0' as u32)) as u128
        } else {
            ((c as u32) - ('a' as u32) + 10) as u128
        };
        proof {
            lemma_pow16_monotonic((i + 1) as nat, 32);
            assert(acc * 16 + d < 16 * pow16(i as nat)) by (nonlinear_arith)
                requires
                    (acc as nat) < pow16(i as nat),
                    d < 16,
            ;
            assert(field.subrange(0, i + 1).drop_last() =~= field.subrange(0, i as int));
        }
        acc = acc * 16 + d;
        i += 1;
    }
    assert(field.subrange(0, len as int) =~= field);
    Some(acc)
}

} // verus!

verus! {

/// A string of `n` hexadecimal digits denotes less than `16^n`.
pub proof fn lemma_hex_value_bound(s: Seq<char>)
    requires
        all_hex(s),
    ensures
        hex_value(s) < pow16(s.len()),
    decreases s.len(),
{
    if s.len() > 0 {
        let t = s.drop_last();
        assert(all_hex(t)) by {
            assert forall|i: int| 0 <= i < t.len() implies is_hex_char(#[trigger] t[i]) by {
                assert(t[i] == s[i]);
            }
        }
        lemma_hex_value_bound(t);
        assert(is_hex_char(s[s.len() - 1]));
        let a = hex_value(t);
        let b = hex_char_value(s.last());
        let p = pow16(t.len());
        assert(a * 16 + b < 16 * p) by (nonlinear_arith)
            requires
                a < p,
                b < 16,
        ;
    }
}

} // verus!
