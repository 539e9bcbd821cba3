//! Boolean predicates with machine-checked contracts.
//!
//! A predicate judges a value and answers with a verdict. What the verdict is
//! for each value is stated by the predicate's specification,
//! [`Predicate::holds`], and every evaluation is proved to return exactly that.
//!
//! Predicates in this crate never touch the outside world themselves. One that
//! judges a fact about the outside world, such as whether a path exists, is
//! handed that fact by the caller, who looks it up at the moment the verdict is
//! wanted.

use vstd::prelude::*;

pub mod predicate;

verus! {

/// A test of a value that answers with a verdict.
///
/// Implementations say in `holds` which values they accept. `eval` is the
/// executable form and must agree with it, so code that composes predicates
/// can reason about them without knowing what kind each one is.
pub trait Predicate {
    /// The kind of value this predicate judges.
    type Item: ?Sized;

    /// Whether `item` satisfies this predicate.
    spec fn holds(&self, item: &Self::Item) -> bool;

    /// Judges `item`.
    fn eval(&self, item: &Self::Item) -> (verdict: bool)
        ensures
            verdict == self.holds(item),
    ;
}

} // verus!
