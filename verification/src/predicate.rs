//! Crate-internal access to the strict exact ordering decision.
use vstd::prelude::*;

use crate::exact::{strict_compare, strict_comparison, Comparison, ExactValue};

verus! {

/// `left <= right` under the strict decision, or `None` when undecided.
pub open spec fn spec_leq(left: Seq<char>, right: Seq<char>) -> Option<bool> {
    match strict_comparison(left, right) {
        Some(Comparison::Greater) => Some(false),
        Some(_) => Some(true),
        None => None,
    }
}

/// Overlap of the closed intervals `[left_min, left_max]` and
/// `[right_min, right_max]`: a certified disjointness on either side decides
/// `false`; both certified inclusions decide `true`; otherwise undecided.
pub open spec fn spec_closed_overlap(
    left_min: Seq<char>,
    left_max: Seq<char>,
    right_min: Seq<char>,
    right_max: Seq<char>,
) -> Option<bool> {
    let a = spec_leq(left_min, right_max);
    let b = spec_leq(right_min, left_max);
    if a == Some(false) || b == Some(false) {
        Some(false)
    } else if a == Some(true) && b == Some(true) {
        Some(true)
    } else {
        None
    }
}

/// Strict exact comparison.
pub fn compare(left: &ExactValue, right: &ExactValue) -> (r: Option<Comparison>)
    ensures
        r == strict_comparison(left@, right@),
{
    strict_compare(left, right)
}

fn leq(left: &ExactValue, right: &ExactValue) -> (r: Option<bool>)
    ensures
        r == spec_leq(left@, right@),
{
    match compare(left, right) {
        Some(Comparison::Greater) => Some(false),
        Some(_) => Some(true),
        None => None,
    }
}

/// Classifies overlap of two closed intervals with truth-dominant uncertainty.
pub fn closed_intervals_overlap(
    left_min: &ExactValue,
    left_max: &ExactValue,
    right_min: &ExactValue,
    right_max: &ExactValue,
) -> (r: Option<bool>)
    ensures
        r == spec_closed_overlap(left_min@, left_max@, right_min@, right_max@),
{
    let left_before_right_end = leq(left_min, right_max);
    if left_before_right_end == Some(false) {
        return Some(false);
    }
    let right_before_left_end = leq(right_min, left_max);
    if right_before_left_end == Some(false) {
        return Some(false);
    }
    match (left_before_right_end, right_before_left_end) {
        (Some(true), Some(true)) => Some(true),
        _ => None,
    }
}

/// Overlap does not depend on which interval is named first.
pub proof fn lemma_closed_overlap_symmetric(a: Seq<char>, b: Seq<char>, c: Seq<char>, d: Seq<char>)
    ensures
        spec_closed_overlap(a, b, c, d) == spec_closed_overlap(c, d, a, b),
{
}

/// A certified disjointness on one side decides `false` whatever the other
/// side's decision is.
pub proof fn lemma_certified_disjointness_dominates(
    a: Seq<char>,
    b: Seq<char>,
    c: Seq<char>,
    d: Seq<char>,
)
    requires
        spec_leq(a, d) == Some(false) || spec_leq(c, b) == Some(false),
    ensures
        spec_closed_overlap(a, b, c, d) == Some(false),
{
}

} // verus!
