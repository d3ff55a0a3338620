//! Half-open time windows: the overlap predicate and the policy on length.

use vstd::prelude::*;

verus! {

/// The longest a reservation may last, in seconds (two hours).
pub const MAX_DURATION: i64 = 7_200;

/// Two half-open windows `[a, b)` and `[c, d)` share an instant.
pub open spec fn windows_overlap(a: int, b: int, c: int, d: int) -> bool {
    a < d && c < b
}

/// `[start, end)` is not empty and lasts no longer than [`MAX_DURATION`].
pub open spec fn valid_window(start: int, end: int) -> bool {
    start < end && end - start <= MAX_DURATION
}

/// Decides whether `[a, b)` and `[c, d)` overlap.
pub fn overlaps(a: i64, b: i64, c: i64, d: i64) -> (r: bool)
    ensures
        r == windows_overlap(a as int, b as int, c as int, d as int),
{
    a < d && c < b
}

/// Decides whether `[start, end)` may be reserved as far as its length goes.
pub fn is_valid_window(start: i64, end: i64) -> (r: bool)
    ensures
        r == valid_window(start as int, end as int),
{
    if start >= end {
        return false;
    }
    if start < 0 {
        end <= start + MAX_DURATION
    } else {
        end - start <= MAX_DURATION
    }
}

/// Overlap does not depend on the order in which the two windows are given.
pub proof fn lemma_overlap_symmetric(a: int, b: int, c: int, d: int)
    ensures
        windows_overlap(a, b, c, d) == windows_overlap(c, d, a, b),
{
}

/// Windows that only touch at an end do not overlap.
pub proof fn lemma_adjacent_windows_disjoint(a: int, b: int, c: int)
    ensures
        !windows_overlap(a, b, b, c),
        !windows_overlap(b, c, a, b),
{
}

/// The instant `t` lies in the window `[start, end)`.
pub open spec fn in_window(t: int, start: int, end: int) -> bool {
    start <= t < end
}

/// Two windows overlap exactly when some instant lies in both.
pub proof fn lemma_overlap_iff_common_instant(a: int, b: int, c: int, d: int)
    requires
        a < b,
        c < d,
    ensures
        windows_overlap(a, b, c, d) <==> exists|t: int|
            #[trigger] in_window(t, a, b) && in_window(t, c, d),
{
    if windows_overlap(a, b, c, d) {
        let t = if a >= c {
            a
        } else {
            c
        };
        assert(in_window(t, a, b) && in_window(t, c, d));
    }
}

} // verus!
