//! Small verified helpers over byte buffers: little-endian 16-bit reads,
//! bounds-checked extraction, and byte-exact comparison.

use vstd::arithmetic::div_mod::{lemma_fundamental_div_mod, lemma_small_mod};
use vstd::prelude::*;

verus! {

/// The value of a little-endian 16-bit field with low byte `lo` and high
/// byte `hi`.
pub open spec fn u16_le(lo: u8, hi: u8) -> int {
    lo + 256 * hi
}

/// Splitting a 16-bit value into its low and high bytes and reading them
/// back as a little-endian field is the identity.
pub proof fn lemma_u16_le_split(len: nat)
    requires
        len <= 0xFFFF,
    ensures
        u16_le((len % 256) as u8, ((len / 256) % 256) as u8) == len,
{
    lemma_fundamental_div_mod(len as int, 256);
    assert(len / 256 < 256);
    lemma_small_mod(len / 256, 256);
}

/// Reads the little-endian 16-bit field at `data[i..i + 2]`.
pub fn read_u16_le(data: &Vec<u8>, i: usize) -> (r: u16)
    requires
        i + 2 <= data@.len(),
    ensures
        r == u16_le(data@[i as int], data@[i as int + 1]),
{
    // Pins the buffer length to a machine word, so `i + 1` below is known
    // not to overflow.
    let n: usize = data.len();
    let lo: u16 = data[i] as u16;
    let hi: u16 = data[i + 1] as u16;
    lo + 256 * hi
}

/// Copies `data[off..off + len]` into a fresh buffer.
pub fn extract_bytes(data: &Vec<u8>, off: usize, len: usize) -> (r: Vec<u8>)
    requires
        off + len <= data@.len(),
    ensures
        r@ == data@.subrange(off as int, off as int + len as int),
{
    let n: usize = data.len();
    let mut out: Vec<u8> = Vec::new();
    let mut i: usize = 0;
    while i < len
        invariant
            i <= len,
            n == data@.len(),
            off + len <= data@.len(),
            out@.len() == i,
            forall|j: int| 0 <= j < i ==> out@[j] == data@[off + j],
        decreases len - i,
    {
        out.push(data[off + i]);
        i = i + 1;
    }
    assert(out@ =~= data@.subrange(off as int, off as int + len as int));
    out
}

/// Byte-exact comparison of a buffer against a fixed-width array.
pub fn bytes_match<const N: usize>(a: &Vec<u8>, b: &[u8; N]) -> (r: bool)
    ensures
        r == (a@ == b@),
{
    if a.len() != N {
        assert(a@.len() != b@.len());
        return false;
    }
    let mut i: usize = 0;
    while i < N
        invariant
            i <= N,
            a@.len() == N,
            forall|j: int| 0 <= j < i ==> a@[j] == b@[j],
        decreases N - i,
    {
        if a[i] != b[i] {
            return false;
        }
        i = i + 1;
    }
    assert(a@ =~= b@);
    true
}

/// Byte-exact comparison of two buffers.
pub fn bytes_match_vec(a: &Vec<u8>, b: &Vec<u8>) -> (r: bool)
    ensures
        r == (a@ == b@),
{
    if a.len() != b.len() {
        return false;
    }
    let mut i: usize = 0;
    while i < a.len()
        invariant
            i <= a@.len(),
            a@.len() == b@.len(),
            forall|j: int| 0 <= j < i ==> a@[j] == b@[j],
        decreases a@.len() - i,
    {
        if a[i] != b[i] {
            return false;
        }
        i = i + 1;
    }
    assert(a@ =~= b@);
    true
}

/// Byte-exact comparison of two fixed-width arrays.
pub fn arrays_match<const N: usize>(a: &[u8; N], b: &[u8; N]) -> (r: bool)
    ensures
        r == (a@ == b@),
{
    let mut i: usize = 0;
    while i < N
        invariant
            i <= N,
            forall|j: int| 0 <= j < i ==> a@[j] == b@[j],
        decreases N - i,
    {
        if a[i] != b[i] {
            return false;
        }
        i = i + 1;
    }
    assert(a@ =~= b@);
    true
}

} // verus!
