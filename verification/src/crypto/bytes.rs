use vstd::prelude::*;

verus! {

/// Copies a slice of exactly `N` bytes into a fixed-size array
pub fn slice_to_array<const N: usize>(slice: &[u8]) -> (a: [u8; N])
    requires
        slice@.len() == N,
    ensures
        a@ == slice@,
{
    broadcast use vstd::array::group_array_axioms;

    let mut a: [u8; N] = [0u8; N];
    let mut i: usize = 0;
    while i < N
        invariant
            i <= N,
            slice@.len() == N,
            a@.len() == N,
            forall|j: int| 0 <= j < i ==> a@[j] == slice@[j],
        decreases N - i,
    {
        a[i] = slice[i];
        i += 1;
    }
    assert(a@ =~= slice@);
    a
}

} // verus!
