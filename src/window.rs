//! The line window: which 1-based line numbers are eligible for matching.
use vstd::prelude::*;

verus! {

/// Whether line `line` lies in the window bounded by `start` and `end`,
/// where `0` leaves a bound unset and both set bounds are inclusive.
pub open spec fn window_contains(start: nat, end: nat, line: nat) -> bool {
    if start == 0 && end == 0 {
        true
    } else if start > 0 && end > 0 {
        start <= line && line <= end
    } else if start > 0 {
        line >= start
    } else {
        line <= end
    }
}

/// Decides whether `line` lies in the window `start..=end` (`0` = unset).
pub fn in_window(start: usize, end: usize, line: usize) -> (r: bool)
    ensures
        r == window_contains(start as nat, end as nat, line as nat),
{
    if start == 0 && end == 0 {
        true
    } else if start > 0 && end > 0 {
        start <= line && line <= end
    } else if start > 0 {
        line >= start
    } else {
        line <= end
    }
}

/// A window whose start lies after its end holds no line at all.
pub proof fn lemma_inverted_window_is_empty(start: nat, end: nat, line: nat)
    requires
        start > 0,
        end > 0,
        start > end,
    ensures
        !window_contains(start, end, line),
{
}

} // verus!
