use vstd::prelude::*;

use crate::reason::Reason;

verus! {

/// Copies a buffer of exactly `N` bytes into an array, or fails with `err`
/// when its length is any other.
pub fn fixed<const N: usize>(bytes: &[u8], err: Reason) -> (r: Result<[u8; N], Reason>)
    ensures
        bytes@.len() == N <==> r is Ok,
        r matches Ok(a) ==> a@ == bytes@,
        r matches Err(e) ==> e == err,
{
    if bytes.len() != N {
        return Err(err);
    }
    let mut a = [0u8; N];
    let mut i: usize = 0;
    while i < N
        invariant
            bytes@.len() == N,
            a@.len() == N,
            i <= N,
            forall|j: int| 0 <= j < i ==> a@[j] == bytes@[j],
        decreases N - i,
    {
        a[i] = bytes[i];
        i = i + 1;
    }
    assert(a@ =~= bytes@);
    Ok(a)
}

/// The bytes of `head` followed by those of `tail`, in a new buffer.
pub fn join_bytes(head: &[u8], tail: &[u8]) -> (r: Vec<u8>)
    requires
        head@.len() + tail@.len() <= usize::MAX,
    ensures
        r@ == head@ + tail@,
{
    let mut out: Vec<u8> = Vec::with_capacity(head.len() + tail.len());
    let mut i: usize = 0;
    while i < head.len()
        invariant
            i <= head@.len(),
            out@ == head@.subrange(0, i as int),
        decreases head@.len() - i,
    {
        out.push(head[i]);
        i = i + 1;
    }
    let mut j: usize = 0;
    while j < tail.len()
        invariant
            j <= tail@.len(),
            out@ == head@ + tail@.subrange(0, j as int),
        decreases tail@.len() - j,
    {
        out.push(tail[j]);
        j = j + 1;
    }
    assert(head@.subrange(0, head@.len() as int) =~= head@);
    assert(tail@.subrange(0, tail@.len() as int) =~= tail@);
    out
}

} // verus!
