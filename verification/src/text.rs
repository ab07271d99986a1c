//! String comparison for the method table.

use vstd::prelude::*;

verus! {

/// Whether two strings hold the same characters. The comparison is made on
/// owned copies, whose equality is specified.
pub(crate) fn same_text(left: &str, right: &str) -> (same: bool)
    ensures
        same == (left@ == right@),
{
    let left_owned = left.to_owned();
    let right_owned = right.to_owned();
    left_owned == right_owned
}

} // verus!
