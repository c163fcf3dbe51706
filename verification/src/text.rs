//! Text comparison for name-keyed lookups.

use vstd::prelude::*;

verus! {

/// Relies on str's PartialEq: two string slices compare equal exactly when
/// they hold the same characters.
#[verifier::external_body]
pub(crate) fn str_eq(a: &str, b: &str) -> (r: bool)
    ensures
        r == (a@ == b@),
{
    a == b
}

} // verus!
