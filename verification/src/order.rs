//! The order of addresses: that of their parts, taken one after another.

use crate::bytes::{lemma_rest_end, lemma_rest_start, lemma_rest_step, rest};
use std::cmp::Ordering;
use vstd::prelude::*;

verus! {

/// The order of two bytes.
pub open spec fn byte_order(left: u8, right: u8) -> Ordering {
    if left < right {
        Ordering::Less
    } else if left == right {
        Ordering::Equal
    } else {
        Ordering::Greater
    }
}

/// The order by a first part and, where that is equal, by a second.
pub open spec fn then_order(first: Ordering, second: Ordering) -> Ordering {
    match first {
        Ordering::Equal => second,
        _ => first,
    }
}

/// The order of the same two things taken the other way round.
pub open spec fn reverse_order(order: Ordering) -> Ordering {
    match order {
        Ordering::Less => Ordering::Greater,
        Ordering::Equal => Ordering::Equal,
        Ordering::Greater => Ordering::Less,
    }
}

/// The order of two runs of bytes, as in a dictionary: by the first byte in
/// which they differ, and a run before every longer run that starts with it.
pub open spec fn bytes_order(left: Seq<u8>, right: Seq<u8>) -> Ordering
    decreases left.len(),
{
    if left.len() == 0 {
        if right.len() == 0 {
            Ordering::Equal
        } else {
            Ordering::Less
        }
    } else if right.len() == 0 {
        Ordering::Greater
    } else {
        then_order(byte_order(left[0], right[0]), bytes_order(left.drop_first(), right.drop_first()))
    }
}

/// Two runs of bytes are in neither order exactly if they are the same.
pub proof fn lemma_bytes_order_equal(left: Seq<u8>, right: Seq<u8>)
    ensures
        bytes_order(left, right) == Ordering::Equal <==> left == right,
    decreases left.len(),
{
    if left.len() == 0 || right.len() == 0 {
        if left.len() == 0 && right.len() == 0 {
            assert(left =~= right);
        }
    } else {
        lemma_bytes_order_equal(left.drop_first(), right.drop_first());
        if left[0] == right[0] && left.drop_first() == right.drop_first() {
            assert(left =~= seq![left[0]] + left.drop_first());
            assert(right =~= seq![right[0]] + right.drop_first());
        }
    }
}

/// Taken the other way round, two runs of bytes are in the reverse order.
pub proof fn lemma_bytes_order_reverse(left: Seq<u8>, right: Seq<u8>)
    ensures
        bytes_order(right, left) == reverse_order(bytes_order(left, right)),
    decreases left.len(),
{
    if left.len() > 0 && right.len() > 0 {
        lemma_bytes_order_reverse(left.drop_first(), right.drop_first());
    }
}

/// A run of bytes that comes before a second comes before every run that
/// the second comes before.
pub proof fn lemma_bytes_order_transitive(first: Seq<u8>, second: Seq<u8>, third: Seq<u8>)
    requires
        bytes_order(first, second) == Ordering::Less,
        bytes_order(second, third) == Ordering::Less,
    ensures
        bytes_order(first, third) == Ordering::Less,
    decreases first.len(),
{
    if first.len() > 0 && second.len() > 0 && third.len() > 0 {
        if first[0] == second[0] && second[0] == third[0] {
            lemma_bytes_order_transitive(
                first.drop_first(),
                second.drop_first(),
                third.drop_first(),
            );
        }
    }
}

/// Compares two bytes.
pub fn compare_byte(left: u8, right: u8) -> (order: Ordering)
    ensures
        order == byte_order(left, right),
{
    if left < right {
        Ordering::Less
    } else if left == right {
        Ordering::Equal
    } else {
        Ordering::Greater
    }
}

/// Compares by a first order and, where that is equal, by a second.
pub fn compare_then(first: Ordering, second: Ordering) -> (order: Ordering)
    ensures
        order == then_order(first, second),
{
    match first {
        Ordering::Equal => second,
        Ordering::Less => Ordering::Less,
        Ordering::Greater => Ordering::Greater,
    }
}

/// Compares two runs of bytes as in a dictionary.
pub fn compare_bytes(left: &[u8], right: &[u8]) -> (order: Ordering)
    ensures
        order == bytes_order(left@, right@),
{
    proof {
        lemma_rest_start(left@);
        lemma_rest_start(right@);
    }
    let mut i: usize = 0;
    while i < left.len() && i < right.len()
        invariant
            i <= left.len(),
            i <= right.len(),
            bytes_order(left@, right@) == bytes_order(rest(left@, i), rest(right@, i)),
        decreases left.len() - i,
    {
        proof {
            lemma_rest_step(left@, i);
            lemma_rest_step(right@, i);
        }
        if left[i] < right[i] {
            return Ordering::Less;
        }
        if left[i] > right[i] {
            return Ordering::Greater;
        }
        i += 1;
    }
    if i < right.len() {
        proof {
            lemma_rest_end(left@, i);
            lemma_rest_step(right@, i);
        }
        Ordering::Less
    } else if i < left.len() {
        proof {
            lemma_rest_end(right@, i);
            lemma_rest_step(left@, i);
        }
        Ordering::Greater
    } else {
        proof {
            lemma_rest_end(left@, i);
            lemma_rest_end(right@, i);
        }
        Ordering::Equal
    }
}

} // verus!
