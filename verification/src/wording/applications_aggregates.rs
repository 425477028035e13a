//! The wording of the statements of [`crate::applications::aggregates`].

use vstd::prelude::*;

use crate::applications::aggregates;

verus! {

/// The texts of [`crate::applications::aggregates`], word for word.
pub proof fn fragments_are_worded_so()
    ensures
        aggregates::COUNT_FOR_PROJECT@ == "(SELECT count(*) FROM applications a \
         WHERE a.organization_id=p.organization_id AND a.project_id=p.id)"@,
{
}

} // verus!
