//! Short Authentication String (SAS) derived from a pair of long-term public keys.
//!
//! Both keys are put in canonical order by their raw bytes before hashing, so the
//! two ends of a conversation compute the same string whichever of them is "mine".
//! The display form is the first 16 bytes of the SHA-256 digest, read as eight
//! big-endian 16-bit numbers, each written as five zero-padded decimal digits,
//! separated by single spaces.

use vstd::arithmetic::div_mod::{lemma_div_denominator, lemma_fundamental_div_mod};
use vstd::prelude::*;

use crate::crypto::{push_char, sha256, sha256_digest};
use crate::identity::PublicKey;

verus! {

/// Lexicographic order on byte strings: the order Rust gives byte arrays and slices.
pub open spec fn bytes_le(a: Seq<u8>, b: Seq<u8>) -> bool
    decreases a.len(),
{
    if a.len() == 0 {
        true
    } else if b.len() == 0 {
        false
    } else if a[0] != b[0] {
        a[0] < b[0]
    } else {
        bytes_le(a.drop_first(), b.drop_first())
    }
}

/// The bytes that are hashed: the two keys in canonical (byte-wise ascending) order.
pub open spec fn sas_input(a: Seq<u8>, b: Seq<u8>) -> Seq<u8> {
    if bytes_le(a, b) {
        a + b
    } else {
        b + a
    }
}

/// The `g`-th big-endian 16-bit number of a digest.
pub open spec fn sas_group_value(d: Seq<u8>, g: int) -> int {
    d[2 * g] * 256 + d[2 * g + 1]
}

/// `10` to the power `k`, for the five decimal places of a group.
pub open spec fn place_value(k: int) -> int {
    if k <= 0 {
        1
    } else if k == 1 {
        10
    } else if k == 2 {
        100
    } else if k == 3 {
        1000
    } else {
        10000
    }
}

/// The ASCII digit at decimal place `k` (0 is the units place) of `n`.
pub open spec fn decimal_digit(n: int, k: int) -> char {
    ((n / place_value(k)) % 10 + 48) as char
}

/// The display text for a digest: eight groups of five digits, separated by spaces.
/// Position `p` lies in group `p / 6`; every sixth position is a space.
pub open spec fn sas_text(d: Seq<u8>) -> Seq<char> {
    Seq::new(
        47,
        |p: int|
            if p % 6 == 5 {
                ' '
            } else {
                decimal_digit(sas_group_value(d, p / 6), 4 - p % 6)
            },
    )
}

/// The SAS of two public keys, as text.
pub open spec fn sas_of(a: Seq<u8>, b: Seq<u8>) -> Seq<char> {
    sas_text(sha256_digest(sas_input(a, b)))
}

/// The number spelled by the five digits of group `g` of a display text.
pub open spec fn group_digits_value(t: Seq<char>, g: int) -> int {
    (t[6 * g] as int - 48) * 10000 + (t[6 * g + 1] as int - 48) * 1000 + (t[6 * g + 2] as int - 48)
        * 100 + (t[6 * g + 3] as int - 48) * 10 + (t[6 * g + 4] as int - 48)
}

/// Byte-wise order is total.
pub(crate) proof fn lemma_bytes_le_total(a: Seq<u8>, b: Seq<u8>)
    ensures
        bytes_le(a, b) || bytes_le(b, a),
    decreases a.len(),
{
    if a.len() > 0 && b.len() > 0 && a[0] == b[0] {
        lemma_bytes_le_total(a.drop_first(), b.drop_first());
    }
}

/// Byte-wise order is antisymmetric.
pub(crate) proof fn lemma_bytes_le_antisymmetric(a: Seq<u8>, b: Seq<u8>)
    requires
        bytes_le(a, b),
        bytes_le(b, a),
    ensures
        a == b,
    decreases a.len(),
{
    if a.len() == 0 {
        assert(b.len() == 0);
        assert(a =~= b);
    } else {
        assert(b.len() > 0 && a[0] == b[0]);
        lemma_bytes_le_antisymmetric(a.drop_first(), b.drop_first());
        assert(a =~= seq![a[0]] + a.drop_first());
        assert(b =~= seq![b[0]] + b.drop_first());
    }
}

/// The five decimal digits of a number below 100000 spell that number.
pub(crate) proof fn lemma_five_digits(n: int)
    requires
        0 <= n < 100000,
    ensures
        (n / 10000) % 10 * 10000 + (n / 1000) % 10 * 1000 + (n / 100) % 10 * 100 + (n / 10) % 10 * 10
            + n % 10 == n,
{
    lemma_div_denominator(n, 10, 10);
    lemma_div_denominator(n, 100, 10);
    lemma_div_denominator(n, 1000, 10);
    lemma_fundamental_div_mod(n, 10);
    lemma_fundamental_div_mod(n / 10, 10);
    lemma_fundamental_div_mod(n / 100, 10);
    lemma_fundamental_div_mod(n / 1000, 10);
    lemma_fundamental_div_mod(n / 10000, 10);
    assert(n / 10000 < 10) by (nonlinear_arith)
        requires
            0 <= n < 100000,
    ;
    assert(0 <= n / 10000) by (nonlinear_arith)
        requires
            0 <= n,
    ;
}

/// Short Authentication String derived from a pair of long-term public keys.
#[derive(Clone, Debug, PartialEq, Eq)]
pub struct Sas(String);

impl View for Sas {
    type V = Seq<char>;

    closed spec fn view(&self) -> Seq<char> {
        self.0@
    }
}

impl Sas {
    /// Display form: eight zero-padded 5-digit groups, space-separated.
    pub fn as_str(&self) -> (r: &str)
        ensures
            r@ == self@,
    {
        self.0.as_str()
    }
}

/// Whether `a` comes before or equals `b` byte-wise.
fn key_bytes_le(a: &[u8; 32], b: &[u8; 32]) -> (r: bool)
    ensures
        r == bytes_le(a@, b@),
{
    let mut i: usize = 0;
    assert(a@.skip(0) =~= a@);
    assert(b@.skip(0) =~= b@);
    while i < 32
        invariant
            0 <= i <= 32,
            a@.len() == 32,
            b@.len() == 32,
            bytes_le(a@, b@) == bytes_le(a@.skip(i as int), b@.skip(i as int)),
        decreases 32 - i,
    {
        assert(a@.skip(i as int).drop_first() =~= a@.skip(i + 1));
        assert(b@.skip(i as int).drop_first() =~= b@.skip(i + 1));
        if a[i] != b[i] {
            return a[i] < b[i];
        }
        i = i + 1;
    }
    assert(a@.skip(32) =~= Seq::<u8>::empty());
    true
}

/// Append the 32 bytes of `k` to `out`.
fn push_key(out: &mut Vec<u8>, k: &[u8; 32])
    ensures
        final(out)@ == old(out)@ + k@,
{
    let ghost start = out@;
    let mut i: usize = 0;
    while i < 32
        invariant
            0 <= i <= 32,
            out@ == start + k@.take(i as int),
        decreases 32 - i,
    {
        out.push(k[i]);
        assert(k@.take(i + 1) =~= k@.take(i as int).push(k@[i as int]));
        i = i + 1;
    }
    assert(k@.take(32) =~= k@);
}

/// The ASCII digit at decimal place `k` of `n`.
fn digit_char(n: u16, k: u8) -> (c: char)
    requires
        k < 5,
    ensures
        c == decimal_digit(n as int, k as int),
{
    let place: u16 = if k == 0 {
        1
    } else if k == 1 {
        10
    } else if k == 2 {
        100
    } else if k == 3 {
        1000
    } else {
        10000
    };
    let d: u8 = ((n / place) % 10) as u8;
    (d + 48) as char
}

/// Derive the SAS from two long-term public keys. Order-independent.
pub fn sas(a: PublicKey, b: PublicKey) -> (r: Sas)
    ensures
        r@ == sas_of(a@, b@),
{
    let a_first = key_bytes_le(a.as_bytes(), b.as_bytes());
    let (lo, hi) = if a_first {
        (a, b)
    } else {
        (b, a)
    };
    let mut input: Vec<u8> = Vec::new();
    push_key(&mut input, lo.as_bytes());
    push_key(&mut input, hi.as_bytes());
    assert(input@ =~= sas_input(a@, b@));
    let digest = sha256(input.as_slice());
    let ghost d = digest@;
    let ghost want = sas_text(d);
    let mut text = String::new();
    let mut g: usize = 0;
    while g < 8
        invariant
            0 <= g <= 8,
            d == digest@,
            d.len() == 32,
            want == sas_text(d),
            text@.len() == (if g == 0 { 0 } else { 6 * g - 1 }),
            forall|p: int| 0 <= p < text@.len() ==> text@[p] == want[p],
        decreases 8 - g,
    {
        if g > 0 {
            push_char(&mut text, ' ');
            proof {
                let p = 6 * g - 1;
                assert(p % 6 == 5) by (nonlinear_arith)
                    requires
                        p == 6 * g - 1,
                        g >= 1,
                ;
            }
        }
        let n: u16 = (digest[2 * g] as u16) * 256 + (digest[2 * g + 1] as u16);
        assert(n as int == sas_group_value(d, g as int));
        let mut k: u8 = 5;
        while k > 0
            invariant
                0 <= k <= 5,
                g < 8,
                want == sas_text(d),
                n as int == sas_group_value(d, g as int),
                text@.len() == 6 * g + (5 - k),
                forall|p: int| 0 <= p < text@.len() ==> text@[p] == want[p],
            decreases k,
        {
            k = k - 1;
            let c = digit_char(n, k);
            let ghost p = 6 * g + (4 - k);
            assert(p / 6 == g && p % 6 == 4 - k) by (nonlinear_arith)
                requires
                    p == 6 * g + (4 - k),
                    0 <= k < 5,
            ;
            push_char(&mut text, c);
        }
        g = g + 1;
    }
    assert(text@ =~= want);
    Sas(text)
}

} // verus!
