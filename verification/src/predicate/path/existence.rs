//! Does a path's presence on the filesystem match what is expected?

use crate::Predicate;
use vstd::prelude::*;

verus! {

/// Predicate that checks if a file is present.
///
/// It is created by [`existing`] and [`missing`], and holds nothing but the
/// expectation it was created with.
///
/// The value it judges is the answer of an existence query: `true` if the
/// platform found an entry at the path when it was asked, `false` if it did
/// not, for whatever reason. A path that cannot be reached, because a
/// permission is lacking or a symbolic link on the way is broken, counts as
/// not found. The predicate keeps no record of what it was shown: each
/// verdict depends on the expectation and on the answer handed in, and on
/// nothing else.
#[derive(Debug)]
pub struct ExistencePredicate {
    exists: bool,
}

impl ExistencePredicate {
    /// The expectation this predicate was created with: `true` if it accepts
    /// paths that are present, `false` if it accepts paths that are absent.
    pub closed spec fn expects_existence(&self) -> bool {
        self.exists
    }
}

impl Predicate for ExistencePredicate {
    type Item = bool;

    /// The answer of the existence query is the one expected.
    open spec fn holds(&self, found: &bool) -> bool {
        *found == self.expects_existence()
    }

    /// Judges the answer of an existence query made for the path.
    fn eval(&self, found: &bool) -> (verdict: bool)
        ensures
            verdict == (*found == self.expects_existence()),
    {
        *found == self.exists
    }
}

/// Creates a new `Predicate` that ensures the path exists.
///
/// # Examples
///
/// ```
/// use std::path::Path;
/// use predicates::predicate::path;
/// use predicates::Predicate;
///
/// let predicate_fn = path::existing();
/// let found = Path::new(".").exists();
/// assert_eq!(true, predicate_fn.eval(&found));
/// ```
pub fn existing() -> (predicate: ExistencePredicate)
    ensures
        predicate.expects_existence(),
{
    ExistencePredicate { exists: true }
}

/// Creates a new `Predicate` that ensures the path doesn't exist.
///
/// # Examples
///
/// ```
/// use std::path::Path;
/// use predicates::predicate::path;
/// use predicates::Predicate;
///
/// let predicate_fn = path::missing();
/// let found = Path::new("non-existent-file.foo").exists();
/// assert_eq!(true, predicate_fn.eval(&found));
/// ```
pub fn missing() -> (predicate: ExistencePredicate)
    ensures
        !predicate.expects_existence(),
{
    ExistencePredicate { exists: false }
}

/// A path that is present satisfies the predicate made by [`existing`] and
/// fails the one made by [`missing`].
pub proof fn present_path_verdicts(
    from_existing: ExistencePredicate,
    from_missing: ExistencePredicate,
    found: bool,
)
    requires
        from_existing.expects_existence(),
        !from_missing.expects_existence(),
        found,
    ensures
        from_existing.holds(&found),
        !from_missing.holds(&found),
{
}

/// A path that is absent fails the predicate made by [`existing`] and
/// satisfies the one made by [`missing`].
pub proof fn absent_path_verdicts(
    from_existing: ExistencePredicate,
    from_missing: ExistencePredicate,
    found: bool,
)
    requires
        from_existing.expects_existence(),
        !from_missing.expects_existence(),
        !found,
    ensures
        !from_existing.holds(&found),
        from_missing.holds(&found),
{
}

/// Evaluating one predicate again, while the path is as it was, gives the
/// verdict it gave before: the predicate remembers nothing and changes with
/// nothing but the path.
pub proof fn repeated_evaluation_agrees(predicate: ExistencePredicate, first: bool, second: bool)
    requires
        first == second,
    ensures
        predicate.holds(&first) == predicate.holds(&second),
{
}

/// A predicate's verdict follows the path: where the path's state differs
/// between two evaluations, so do the two verdicts.
pub proof fn changed_path_changes_verdict(predicate: ExistencePredicate, before: bool, after: bool)
    requires
        before != after,
    ensures
        predicate.holds(&before) != predicate.holds(&after),
{
}

} // verus!
