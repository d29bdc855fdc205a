//! The condition evaluator: whether an edge's condition holds of the outcome
//! that its source activity recorded.

use vstd::prelude::*;
use crate::text::{contains, contains_text};

verus! {

/// An absent condition always holds; a present one holds exactly when it is
/// a case-sensitive substring of the outcome.
pub open spec fn condition_holds(outcome: Seq<char>, condition: Option<Seq<char>>) -> bool {
    match condition {
        None => true,
        Some(c) => contains_text(outcome, c),
    }
}

/// The view of an optional string slice.
pub open spec fn opt_str_text(s: Option<&str>) -> Option<Seq<char>> {
    match s {
        Some(t) => Some(t@),
        None => None,
    }
}

/// Evaluates `condition` against `outcome`. Pure: no state is read or written.
pub fn evaluate(outcome: &str, condition: Option<&str>) -> (holds: bool)
    ensures
        holds == condition_holds(outcome@, opt_str_text(condition)),
        condition is None ==> holds,
{
    match condition {
        None => true,
        Some(c) => contains(outcome, c),
    }
}

} // verus!
