//! Small operations on byte strings.

use vstd::prelude::*;

use crate::primitives::wipe_array;

verus! {

/// Whether two byte strings hold the same bytes.
pub fn bytes_eq(a: &[u8], b: &[u8]) -> (same: bool)
    ensures
        same == (a@ == b@),
{
    if a.len() != b.len() {
        return false;
    }
    let mut i: usize = 0;
    while i < a.len()
        invariant
            a.len() == b.len(),
            i <= a.len(),
            forall|j: int| 0 <= j < i ==> a@[j] == b@[j],
        decreases a.len() - i,
    {
        if a[i] != b[i] {
            return false;
        }
        i = i + 1;
    }
    assert(a@ =~= b@);
    true
}

/// The `N` bytes of `data` as an array.
pub(crate) fn to_array<const N: usize>(data: &[u8]) -> (array: [u8; N])
    requires
        data@.len() == N,
    ensures
        array@ == data@,
{
    let mut array: [u8; N] = vstd::array::array_fill_for_copy_types(0u8);
    let mut i: usize = 0;
    while i < N
        invariant
            data@.len() == N,
            i <= N,
            forall|j: int| 0 <= j < i ==> array@[j] == data@[j],
        decreases N - i,
    {
        array[i] = data[i];
        i = i + 1;
    }
    assert(array@ =~= data@);
    array
}

/// Overwrites `bytes` with zeros, in a way that the compiler may not
/// remove. For a copy of secret bytes that has served its purpose.
pub fn wipe<const N: usize>(bytes: &mut [u8; N])
    ensures
        final(bytes)@ == Seq::new(N as nat, |i: int| 0u8),
{
    wipe_array(bytes);
}

} // verus!
