//! Helpers on byte arrays and slices.

use vstd::prelude::*;

verus! {

/// Compares two byte arrays of the same length.
pub fn array_eq<const N: usize>(a: &[u8; N], b: &[u8; N]) -> (r: bool)
    ensures
        r == (a@ == b@),
        r == (*a == *b),
{
    let mut i: usize = 0;
    while i < N
        invariant
            i <= N,
            forall|j: int| 0 <= j < i ==> a@[j] == b@[j],
        decreases N - i,
    {
        if a[i] != b[i] {
            return false;
        }
        i += 1;
    }
    assert(a@ =~= b@);
    assert(*a =~= *b);
    true
}

/// Byte `i` of `bytes`, or zero past its end.
pub open spec fn padded_byte(bytes: Seq<u8>, i: int) -> u8 {
    if 0 <= i < bytes.len() {
        bytes[i]
    } else {
        0u8
    }
}

/// Copies the first `N` bytes of `src` into an array, padding with zeros
/// where `src` is shorter.
pub fn padded_array<const N: usize>(src: &[u8]) -> (out: [u8; N])
    ensures
        forall|i: int| 0 <= i < N ==> out@[i] == padded_byte(src@, i),
{
    let mut out = [0u8; N];
    let len: usize = if src.len() < N {
        src.len()
    } else {
        N
    };
    let mut i: usize = 0;
    while i < len
        invariant
            i <= len,
            len <= N,
            len <= src.len(),
            forall|j: int| 0 <= j < i ==> out@[j] == src@[j],
            forall|j: int| i <= j < N ==> out@[j] == 0,
        decreases len - i,
    {
        out[i] = src[i];
        i += 1;
    }
    out
}

} // verus!
