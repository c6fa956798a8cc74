//! Sequence numbers: a 32-bit counter that wraps, ordered by signed difference.

use vstd::prelude::*;

verus! {

/// The size of the sequence space.
pub const SEQ_SPACE: u64 = 0x1_0000_0000;

/// Half of the sequence space: the largest distance at which one number still
/// counts as lying behind another.
pub const SEQ_HALF: u32 = 0x8000_0000;

/// A position in the 32-bit sequence space.
#[derive(Clone, Copy, Debug, PartialEq, Eq, Structural)]
pub struct SeqNumber {
    pub value: u32,
}

/// The outcome of comparing two sequence numbers.
#[derive(Clone, Copy, Debug, PartialEq, Eq, Structural)]
pub enum SeqOrder {
    Less,
    Equal,
    Greater,
}

/// How far `to` lies ahead of `from`, walking forward through the sequence
/// space: the unique `d` in `0 .. 2^32` with `from + d == to` modulo `2^32`.
pub open spec fn distance(from: SeqNumber, to: SeqNumber) -> int {
    (to.value as int - from.value as int) % 0x1_0000_0000
}

/// The number reached from `a` after `delta` steps, modulo `2^32`.
pub open spec fn spec_add(a: SeqNumber, delta: u32) -> SeqNumber {
    SeqNumber { value: ((a.value as int + delta as int) % 0x1_0000_0000) as u32 }
}

/// Signed-difference order: `a` is less than `b` when `b` lies ahead of `a` by
/// at most half of the sequence space.
pub open spec fn spec_compare(a: SeqNumber, b: SeqNumber) -> SeqOrder {
    if distance(a, b) == 0 {
        SeqOrder::Equal
    } else if distance(a, b) <= 0x8000_0000 {
        SeqOrder::Less
    } else {
        SeqOrder::Greater
    }
}

impl SeqNumber {
    pub open spec fn view(self) -> int {
        self.value as int
    }

    pub fn new(value: u32) -> (r: SeqNumber)
        ensures
            r.value == value,
    {
        SeqNumber { value }
    }

    pub fn get(self) -> (r: u32)
        ensures
            r == self.value,
    {
        self.value
    }
}

/// Advances `a` by `delta`, wrapping at `2^32`.
pub fn add(a: SeqNumber, delta: u32) -> (r: SeqNumber)
    ensures
        r == spec_add(a, delta),
        distance(a, r) == delta,
{
    let sum: u64 = a.value as u64 + delta as u64;
    let value: u32 = if sum >= SEQ_SPACE {
        (sum - SEQ_SPACE) as u32
    } else {
        sum as u32
    };
    SeqNumber { value }
}

/// The forward distance from `from` to `to`.
pub fn forward_distance(from: SeqNumber, to: SeqNumber) -> (r: u32)
    ensures
        r == distance(from, to),
{
    if to.value >= from.value {
        to.value - from.value
    } else {
        let wrapped: u64 = SEQ_SPACE - (from.value as u64) + (to.value as u64);
        wrapped as u32
    }
}

/// Compares two sequence numbers by their signed difference, so that a number
/// just past the wrap point is greater than one just before it.
pub fn compare(a: SeqNumber, b: SeqNumber) -> (r: SeqOrder)
    ensures
        r == spec_compare(a, b),
{
    let ahead: u32 = forward_distance(a, b);
    if ahead == 0 {
        SeqOrder::Equal
    } else if ahead <= SEQ_HALF {
        SeqOrder::Less
    } else {
        SeqOrder::Greater
    }
}

/// Equal sequence numbers are exactly those that compare `Equal`.
pub proof fn lemma_compare_equal(a: SeqNumber, b: SeqNumber)
    ensures
        spec_compare(a, b) == SeqOrder::Equal <==> a == b,
{
}

/// The order is antisymmetric: `a` is less than `b` exactly when `b` is
/// greater than `a`, for every pair that is not diametrically opposite in the
/// sequence space. (At a distance of exactly `2^31` each lies behind the other.)
pub proof fn lemma_compare_antisymmetric(a: SeqNumber, b: SeqNumber)
    requires
        distance(a, b) != 0x8000_0000,
    ensures
        spec_compare(a, b) == SeqOrder::Less <==> spec_compare(b, a) == SeqOrder::Greater,
        spec_compare(a, b) == SeqOrder::Greater <==> spec_compare(b, a) == SeqOrder::Less,
        spec_compare(a, b) == SeqOrder::Equal <==> spec_compare(b, a) == SeqOrder::Equal,
{
}

/// The order is transitive modulo wraparound: if `a` is less than `b` and `b`
/// less than `c`, and the walk from `a` through `b` to `c` spans at most half
/// of the sequence space, then `a` is less than `c`.
pub proof fn lemma_compare_transitive(a: SeqNumber, b: SeqNumber, c: SeqNumber)
    requires
        spec_compare(a, b) == SeqOrder::Less,
        spec_compare(b, c) == SeqOrder::Less,
        distance(a, b) + distance(b, c) <= 0x8000_0000,
    ensures
        spec_compare(a, c) == SeqOrder::Less,
        distance(a, c) == distance(a, b) + distance(b, c),
{
}

/// Every sequence number is less than its successor, across the wrap point too.
pub proof fn lemma_compare_successor(a: SeqNumber)
    ensures
        spec_compare(a, spec_add(a, 1)) == SeqOrder::Less,
{
}

} // verus!
