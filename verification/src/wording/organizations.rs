//! The wording of the statements of [`crate::organizations`].

use vstd::prelude::*;

use crate::organizations::OrganizationRepository;

verus! {

/// The texts of [`OrganizationRepository`], word for word.
pub proof fn texts_are_worded_so()
    ensures
        OrganizationRepository::SUMMARY_COLUMNS@ == "id,slug,name,created_at"@,
        OrganizationRepository::PLATFORM_COLUMNS@ == "id,slug,name,status,created_at,updated_at"@,
        OrganizationRepository::LOCK_FOR_UPDATE@ == "SELECT id FROM organizations WHERE id=$1 FOR UPDATE"@,
        OrganizationRepository::SUMMARIES@ == "organizations ORDER BY created_at,id LIMIT 200"@,
        OrganizationRepository::SUMMARY@ == "organizations WHERE id=$1"@,
        OrganizationRepository::PLATFORM_PAGE@ == "organizations WHERE "@,
        OrganizationRepository::PLATFORM_PAGE_TAIL@ == " ORDER BY id LIMIT $2"@,
        OrganizationRepository::PLATFORM_GET@ == "organizations WHERE id=$1"@,
        OrganizationRepository::INSERT@ == r#"
            RETURNING id, slug, name, status, created_at, updated_at
            "#@,
        OrganizationRepository::ANY_EXISTS@ == "SELECT EXISTS(SELECT 1 FROM organizations)"@,
        OrganizationRepository::LOCK_SHARED@ == "SELECT id FROM organizations WHERE id = $1 FOR SHARE"@,
        OrganizationRepository::ACTIVATE_WHEN_OWNED@ == "UPDATE organizations SET status = '"@,
        OrganizationRepository::ACTIVATE_WHEN_OWNED_FROM@ == "', updated_at = now() \
             WHERE id = $1 AND status = '"@,
        OrganizationRepository::ACTIVATE_WHEN_OWNED_OWNER@ == "' \
               AND EXISTS(SELECT 1 FROM organization_memberships m \
                          JOIN users u ON u.id = m.user_id "@,
        OrganizationRepository::ACTIVATE_WHEN_OWNED_ACTIVE@ == "m.role = 'owner' AND "@,
        OrganizationRepository::DISCARD_UNCLAIMED@ == r#"
            DELETE FROM organizations
            WHERE id = $1 AND status = '"#@,
        OrganizationRepository::DISCARD_UNCLAIMED_MEMBERS@ == r#"'
              AND NOT EXISTS(SELECT 1 FROM organization_memberships
                             "#@,
        OrganizationRepository::PENDING_OWNER_COUNT@ == "SELECT count(*) FROM organizations WHERE status = '"@,
        OrganizationRepository::PENDING_OWNER_COUNT_TAIL@ == "'"@,
        OrganizationRepository::IS_KNOWN@ == r#"
            SELECT EXISTS(SELECT 1 FROM organizations WHERE id = $1)
            "#@,
{
}

} // verus!
