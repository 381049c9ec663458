//! Big-endian scalar arithmetic over byte strings, and the secp256k1
//! range checks built on it: whether the two 32-byte scalars of a
//! signature lie below the group order (a standard `(r, s)` encoding) and
//! whether `s` falls in the high half of the order (a malleable but valid
//! form that is only flagged, never rejected).

use vstd::arithmetic::mul::lemma_mul_inequality;
use vstd::arithmetic::power::{lemma_pow0, lemma_pow1, lemma_pow_adds, lemma_pow_positive, pow};
use vstd::prelude::*;

verus! {

/// The secp256k1 group order `n`, big-endian.
pub const SECP256K1_ORDER: [u8; 32] = [
    0xFF, 0xFF, 0xFF, 0xFF, 0xFF, 0xFF, 0xFF, 0xFF, 0xFF, 0xFF, 0xFF, 0xFF, 0xFF, 0xFF, 0xFF,
    0xFE, 0xBA, 0xAE, 0xDC, 0xE6, 0xAF, 0x48, 0xA0, 0x3B, 0xBF, 0xD2, 0x5E, 0x8C, 0xD0, 0x36,
    0x41, 0x41,
];

/// `⌊n / 2⌋` for the secp256k1 group order `n`, big-endian. A scalar at
/// or above this bound counts as "high".
pub const SECP256K1_HALF_ORDER: [u8; 32] = [
    0x7F, 0xFF, 0xFF, 0xFF, 0xFF, 0xFF, 0xFF, 0xFF, 0xFF, 0xFF, 0xFF, 0xFF, 0xFF, 0xFF, 0xFF,
    0xFF, 0x5D, 0x57, 0x6E, 0x73, 0x57, 0xA4, 0x50, 0x1D, 0xDF, 0xE9, 0x2F, 0x46, 0x68, 0x1B,
    0x20, 0xA0,
];

/// The integer a byte string denotes when read as a big-endian number.
pub open spec fn be_val(s: Seq<u8>) -> int
    decreases s.len(),
{
    if s.len() == 0 {
        0
    } else {
        s.first() * pow(256, (s.len() - 1) as nat) + be_val(s.drop_first())
    }
}

/// A big-endian value is non-negative and below `256 ^ length`.
pub proof fn lemma_be_val_bound(s: Seq<u8>)
    ensures
        0 <= be_val(s) < pow(256, s.len()),
    decreases s.len(),
{
    if s.len() == 0 {
        lemma_pow0(256);
    } else {
        let p = pow(256, (s.len() - 1) as nat);
        lemma_pow_positive(256, (s.len() - 1) as nat);
        lemma_be_val_bound(s.drop_first());
        assert(be_val(s) == s.first() * p + be_val(s.drop_first()));
        lemma_mul_inequality(s.first() as int, 255, p);
        lemma_mul_inequality(0, s.first() as int, p);
        assert(be_val(s) <= 255 * p + be_val(s.drop_first()));
        assert(be_val(s) >= 0 + be_val(s.drop_first()));
        lemma_pow1(256);
        lemma_pow_adds(256, 1, (s.len() - 1) as nat);
        assert(pow(256, s.len()) == 256 * p);
    }
}

/// For byte strings of equal length, the first differing byte decides the
/// numeric order: equal prefixes and `a[i] < b[i]` force `be_val(a) <
/// be_val(b)`.
pub proof fn lemma_be_val_lt(a: Seq<u8>, b: Seq<u8>, i: int)
    requires
        a.len() == b.len(),
        0 <= i < a.len(),
        forall|j: int| 0 <= j < i ==> a[j] == b[j],
        a[i] < b[i],
    ensures
        be_val(a) < be_val(b),
    decreases a.len(),
{
    let p = pow(256, (a.len() - 1) as nat);
    lemma_pow_positive(256, (a.len() - 1) as nat);
    if i == 0 {
        lemma_be_val_bound(a.drop_first());
        lemma_be_val_bound(b.drop_first());
        assert(be_val(a) < a.first() * p + p);
        assert(a.first() * p + p == (a.first() + 1) * p) by (nonlinear_arith);
        lemma_mul_inequality(a.first() + 1, b.first() as int, p);
        assert(be_val(b) >= b.first() * p);
    } else {
        assert(a.first() == b.first());
        assert(forall|j: int|
            0 <= j < i - 1 ==> #[trigger] a.drop_first()[j] == b.drop_first()[j]);
        lemma_be_val_lt(a.drop_first(), b.drop_first(), i - 1);
    }
}

/// Compares the 32-byte window of `sig` that starts at `start` against a
/// 32-byte bound, as big-endian numbers.
pub fn window_lt(sig: &[u8; 64], start: usize, bound: &[u8; 32]) -> (r: bool)
    requires
        start + 32 <= 64,
    ensures
        r == (be_val(sig@.subrange(start as int, start as int + 32)) < be_val(bound@)),
{
    let ghost w: Seq<u8> = sig@.subrange(start as int, start as int + 32);
    let mut i: usize = 0;
    while i < 32
        invariant
            i <= 32,
            start + 32 <= 64,
            w == sig@.subrange(start as int, start as int + 32),
            forall|j: int| 0 <= j < i ==> w[j] == bound@[j],
        decreases 32 - i,
    {
        let sb: u8 = sig[start + i];
        let bb: u8 = bound[i];
        if sb < bb {
            proof {
                lemma_be_val_lt(w, bound@, i as int);
            }
            return true;
        }
        if sb > bb {
            proof {
                lemma_be_val_lt(bound@, w, i as int);
            }
            return false;
        }
        i = i + 1;
    }
    proof {
        assert(w =~= bound@);
    }
    false
}

/// The two scalars of a 64-byte signature, `r` then `s`, each read
/// big-endian.
pub open spec fn sig_r_val(sig: Seq<u8>) -> int {
    be_val(sig.subrange(0, 32))
}

/// The `s` scalar of a 64-byte signature, read big-endian.
pub open spec fn sig_s_val(sig: Seq<u8>) -> int {
    be_val(sig.subrange(32, 64))
}

/// Whether 64 bytes form a standard `(r, s)` encoding: both scalars lie
/// below the group order.
pub open spec fn sig_scalars_valid(sig: Seq<u8>) -> bool
    recommends
        sig.len() == 64,
{
    sig_r_val(sig) < be_val(SECP256K1_ORDER@) && sig_s_val(sig) < be_val(SECP256K1_ORDER@)
}

/// Whether the `s` scalar lies in the high half of the group order, at or
/// above `⌊n / 2⌋`.
pub open spec fn sig_s_is_high(sig: Seq<u8>) -> bool
    recommends
        sig.len() == 64,
{
    sig_s_val(sig) >= be_val(SECP256K1_HALF_ORDER@)
}

/// Checks that both scalars of the signature lie below the group order.
pub fn check_signature_scalars(sig: &[u8; 64]) -> (r: bool)
    ensures
        r == sig_scalars_valid(sig@),
{
    let r_ok = window_lt(sig, 0, &SECP256K1_ORDER);
    let s_ok = window_lt(sig, 32, &SECP256K1_ORDER);
    r_ok && s_ok
}

/// Checks whether the `s` scalar lies in the high half of the group order.
pub fn signature_has_high_s(sig: &[u8; 64]) -> (r: bool)
    ensures
        r == sig_s_is_high(sig@),
{
    !window_lt(sig, 32, &SECP256K1_HALF_ORDER)
}

} // verus!
