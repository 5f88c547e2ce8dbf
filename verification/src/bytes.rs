//! Runs of bytes: whether two are the same, and what is left of one after
//! its first bytes.

use vstd::prelude::*;

verus! {

/// What is left of `bytes` after the first `from` of them.
pub open spec fn rest(bytes: Seq<u8>, from: usize) -> Seq<u8> {
    bytes.skip(from as int)
}

/// Nothing is taken off at 0.
pub proof fn lemma_rest_start(bytes: Seq<u8>)
    ensures
        rest(bytes, 0) == bytes,
{
    assert(bytes.skip(0) =~= bytes);
}

/// At the end nothing is left.
pub proof fn lemma_rest_end(bytes: Seq<u8>, from: usize)
    requires
        from == bytes.len(),
    ensures
        rest(bytes, from).len() == 0,
{
}

/// Before the end, the rest starts with the byte at `from` and goes on with
/// the rest after it.
pub proof fn lemma_rest_step(bytes: Seq<u8>, from: usize)
    requires
        from < bytes.len(),
        from < usize::MAX,
    ensures
        rest(bytes, from).len() > 0,
        rest(bytes, from)[0] == bytes[from as int],
        rest(bytes, from).drop_first() == rest(bytes, (from + 1) as usize),
{
    assert(rest(bytes, from).drop_first() =~= rest(bytes, (from + 1) as usize));
}

/// Whether two runs of bytes are the same.
pub fn bytes_equal(left: &[u8], right: &[u8]) -> (same: bool)
    ensures
        same == (left@ == right@),
{
    if left.len() != right.len() {
        return false;
    }
    let mut i: usize = 0;
    while i < left.len()
        invariant
            i <= left.len(),
            left.len() == right.len(),
            forall|j: int| 0 <= j < i ==> left@[j] == right@[j],
        decreases left.len() - i,
    {
        if left[i] != right[i] {
            return false;
        }
        i += 1;
    }
    assert(left@ =~= right@);
    true
}

} // verus!
