//! Comparisons of fixed-size byte strings.
use vstd::prelude::*;

verus! {

/// Compares two byte arrays of one size.
pub fn same_bytes<const N: usize>(a: &[u8; N], b: &[u8; N]) -> (same: bool)
    ensures
        same == (*a == *b),
{
    let mut index: usize = 0;
    while index < N
        invariant
            index <= N,
            forall|j: int| 0 <= j < index ==> a@[j] == b@[j],
        decreases N - index,
    {
        if a[index] != b[index] {
            assert(a@[index as int] != b@[index as int]);
            return false;
        }
        index += 1;
    }
    assert(*a =~= *b);
    true
}

/// Whether every byte of an array is zero.
pub fn is_all_zero<const N: usize>(a: &[u8; N]) -> (zero: bool)
    ensures
        zero == (forall|j: int| 0 <= j < N ==> a@[j] == 0),
{
    let mut index: usize = 0;
    while index < N
        invariant
            index <= N,
            forall|j: int| 0 <= j < index ==> a@[j] == 0,
        decreases N - index,
    {
        if a[index] != 0 {
            assert(a@[index as int] != 0);
            return false;
        }
        index += 1;
    }
    true
}

/// Compares two byte vectors.
pub fn same_slices(a: &[u8], b: &[u8]) -> (same: bool)
    ensures
        same == (a@ == b@),
{
    if a.len() != b.len() {
        return false;
    }
    let mut index: usize = 0;
    while index < a.len()
        invariant
            index <= a.len(),
            a@.len() == b@.len(),
            forall|j: int| 0 <= j < index ==> a@[j] == b@[j],
        decreases a.len() - index,
    {
        if a[index] != b[index] {
            assert(a@[index as int] != b@[index as int]);
            return false;
        }
        index += 1;
    }
    assert(a@ =~= b@);
    true
}

} // verus!
