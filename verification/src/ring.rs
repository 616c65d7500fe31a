//! Arithmetic on the 32-bit modular sequence-number ring.
//!
//! TCP sequence numbers live on a ring of size 2^32: every comparison a
//! segment-acceptance rule makes must walk forward on that ring rather than
//! compare magnitudes. The whole state machine rests on the single predicate
//! [`between_wrapped`], stated here over the forward distance on the ring.

use vstd::prelude::*;

verus! {

/// The size of the sequence-number ring.
pub open spec fn ring_size() -> int {
    0x1_0000_0000
}

/// `a + b` on the sequence ring.
pub open spec fn ring_add(a: u32, b: u32) -> u32 {
    vstd::wrapping::u32_specs::wrapping_add(a, b)
}

/// `a - b` on the sequence ring.
pub open spec fn ring_sub(a: u32, b: u32) -> u32 {
    vstd::wrapping::u32_specs::wrapping_sub(a, b)
}

/// Number of forward steps that lead from `from` to `to` on the ring;
/// a value in `[0, 2^32)`.
pub open spec fn ring_dist(from: u32, to: u32) -> int {
    if to >= from {
        to - from
    } else {
        to - from + ring_size()
    }
}

/// `x` lies strictly between `start` and `end` when walking forward on the
/// ring from `start`: the walk meets `x` after leaving `start` and before
/// reaching `end`. Both endpoints are excluded.
pub open spec fn between_wrapped(start: u32, x: u32, end: u32) -> bool {
    0 < ring_dist(start, x) < ring_dist(start, end)
}

/// Walking forward from anywhere, a point is never strictly between itself
/// and an endpoint: the interval excludes its left end.
pub proof fn lemma_between_wrapped_excludes_start(s: u32, e: u32)
    ensures
        !between_wrapped(s, s, e),
{
}

/// An interval whose two ends coincide is empty: no point lies strictly
/// between `s` and `s`.
pub proof fn lemma_between_wrapped_zero_width(s: u32, x: u32)
    ensures
        !between_wrapped(s, x, s),
{
}

/// For a fixed `s`, let `x` be the point reached after `k` forward steps,
/// `1 <= k < 2^32`. Then `x` is strictly between `s` and `e` exactly when
/// the walk from `s` reaches `e` only after more than `k` steps — that is,
/// when `e` is encountered after `x`.
pub proof fn lemma_between_wrapped_walk(s: u32, e: u32, k: int)
    requires
        1 <= k < ring_size(),
    ensures
        between_wrapped(s, ring_add(s, k as u32), e) <==> ring_dist(s, e) > k,
{
}

/// For distinct `s` and `x`, and an `e` equal to neither, exactly one of the
/// two orientations holds: either `x` comes before `e` on the walk from `s`,
/// or `s` comes before `e` on the walk from `x`.
pub proof fn lemma_between_wrapped_antisymmetric(s: u32, x: u32, e: u32)
    requires
        s != x,
        e != s,
        e != x,
    ensures
        between_wrapped(s, x, e) != between_wrapped(x, s, e),
{
}

/// Executable form of [`between_wrapped`]: decides strict membership of `x`
/// in the forward-open interval `(start, end)` on the sequence ring.
pub fn is_between_wrapped(start: u32, x: u32, end: u32) -> (r: bool)
    ensures
        r == between_wrapped(start, x, end),
{
    if start == x {
        false
    } else if start < x {
        // No wraparound between start and x: the walk fails to meet e
        // strictly after x exactly when e lies in [start, x].
        !(end >= start && end <= x)
    } else {
        // The walk from start wraps before reaching x: e must lie strictly
        // between them in magnitude order.
        end < start && end > x
    }
}

} // verus!
