//! Byte strings of a fixed length, as arrays.

use vstd::prelude::*;

verus! {

/// The array that holds the `N` bytes of `bytes`.
pub(crate) fn array_exact<const N: usize>(bytes: &Vec<u8>) -> (array: [u8; N])
    requires
        bytes@.len() == N,
    ensures
        array@ == bytes@,
{
    let mut out: [u8; N] = [0u8; N];
    let mut i: usize = 0;
    while i < N
        invariant
            i <= N,
            bytes@.len() == N,
            out@.len() == N,
            forall|j: int| 0 <= j < i ==> out@[j] == bytes@[j],
        decreases N - i,
    {
        out[i] = bytes[i];
        i = i + 1;
    }
    assert(out@ =~= bytes@);
    out
}

/// The array that holds the bytes of `bytes`; `None` unless there are exactly
/// `N` of them.
pub fn array_of<const N: usize>(bytes: &Vec<u8>) -> (r: Option<[u8; N]>)
    ensures
        r is Some <==> bytes@.len() == N,
        r matches Some(array) ==> array@ == bytes@,
{
    if bytes.len() == N {
        Some(array_exact(bytes))
    } else {
        None
    }
}

/// The bytes of `array`, as a vector.
pub fn vec_of<const N: usize>(array: &[u8; N]) -> (bytes: Vec<u8>)
    ensures
        bytes@ == array@,
        bytes@.len() == N,
{
    let mut out: Vec<u8> = Vec::new();
    let mut i: usize = 0;
    while i < N
        invariant
            i <= N,
            array@.len() == N,
            out@.len() == i,
            forall|j: int| 0 <= j < i ==> out@[j] == array@[j],
        decreases N - i,
    {
        out.push(array[i]);
        i = i + 1;
    }
    assert(out@ =~= array@);
    out
}

} // verus!
