//! Copies between slices, vectors and fixed-size arrays.
use vstd::prelude::*;

verus! {

/// The bytes of `source` as an array of the same length.
pub fn array_from<const N: usize>(source: &[u8]) -> (array: [u8; N])
    requires
        source@.len() == N,
    ensures
        array@ == source@,
{
    let mut array: [u8; N] = [0u8; N];
    let mut i: usize = 0;
    while i < N
        invariant
            i <= N,
            source@.len() == N,
            array@.len() == N,
            forall|j: int| 0 <= j < i ==> array@[j] == source@[j],
        decreases N - i,
    {
        array[i] = source[i];
        i += 1;
    }
    assert(array@ =~= source@);
    array
}

/// Bytes, or the reason that there are none, as sequences.
pub open spec fn bytes_or_reason(r: Result<Vec<u8>, String>) -> Result<Seq<u8>, Seq<char>> {
    match r {
        Ok(bytes) => Ok(bytes@),
        Err(reason) => Err(reason@),
    }
}

/// Appends `tail` to `bytes`.
pub fn append(bytes: &mut Vec<u8>, tail: &[u8])
    ensures
        final(bytes)@ == old(bytes)@ + tail@,
{
    bytes.extend_from_slice(tail);
    assert(bytes@ =~= old(bytes)@ + tail@);
}

/// The bytes of `source` from `start` up to, but not including, `end`.
pub fn part(source: &[u8], start: usize, end: usize) -> (piece: Vec<u8>)
    requires
        start <= end <= source@.len(),
    ensures
        piece@ == source@.subrange(start as int, end as int),
{
    vstd::slice::slice_to_vec(vstd::slice::slice_subrange(source, start, end))
}

/// Replaces the first bytes of `target` with `front`.
pub fn overwrite(target: &mut [u8], front: &[u8])
    requires
        front@.len() <= old(target)@.len(),
    ensures
        final(target)@ == front@ + old(target)@.skip(front@.len() as int),
{
    let mut i: usize = 0;
    while i < front.len()
        invariant
            i <= front@.len() <= target@.len(),
            target@.len() == old(target)@.len(),
            forall|j: int| 0 <= j < i ==> target@[j] == front@[j],
            forall|j: int| i <= j < target@.len() ==> target@[j] == old(target)@[j],
        decreases front@.len() - i,
    {
        target[i] = front[i];
        i += 1;
    }
    assert(target@ =~= front@ + old(target)@.skip(front@.len() as int));
}

/// Whether two runs of bytes are the same.
pub fn same_bytes(a: &[u8], b: &[u8]) -> (r: bool)
    ensures
        r == (a@ == b@),
{
    if a.len() != b.len() {
        return false;
    }
    let mut i: usize = 0;
    while i < a.len()
        invariant
            i <= a@.len(),
            a@.len() == b@.len(),
            forall|j: int| 0 <= j < i ==> a@[j] == b@[j],
        decreases a@.len() - i,
    {
        if a[i] != b[i] {
            return false;
        }
        i += 1;
    }
    assert(a@ =~= b@);
    true
}

} // verus!
