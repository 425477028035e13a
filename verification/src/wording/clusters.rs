//! The wording of the statements of [`crate::clusters`].

use vstd::prelude::*;

use crate::clusters::ClusterRepository;

verus! {

/// The texts of [`ClusterRepository`], word for word.
pub proof fn texts_are_worded_so()
    ensures
        ClusterRepository::UPSERT_CREDENTIAL@ == " ON CONFLICT (credential_hash) DO UPDATE SET revoked_at = NULL"@,
        ClusterRepository::UPSERT_BY_EXTERNAL_ID@ == " ON CONFLICT(organization_id,external_id) DO UPDATE SET name=COALESCE($4,clusters.name) RETURNING id"@,
{
}

} // verus!
