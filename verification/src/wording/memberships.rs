//! The wording of the statements of [`crate::memberships`].

use vstd::prelude::*;

use crate::memberships::MembershipRepository;

verus! {

/// The texts of [`MembershipRepository`], word for word.
pub proof fn texts_are_worded_so()
    ensures
        MembershipRepository::PROJECT_ROLE@ == r#"
            SELECT role FROM project_memberships
            "#@,
        MembershipRepository::PROJECT_ROLE_TAIL@ == r#"user_id = $3
            "#@,
        MembershipRepository::ORGANIZATION_ROLE_WHEN_ACTIVE@ == r#"
            SELECT m.role FROM organization_memberships m
            JOIN organizations o ON o.id = m.organization_id
            WHERE "#@,
        MembershipRepository::ORGANIZATION_ROLE_WHEN_ACTIVE_USER@ == r#"m.user_id = $1
              "#@,
        MembershipRepository::ORGANIZATION_ROLE_WHEN_ACTIVE_TAIL@ == r#"o.status = 'active'
            "#@,
        MembershipRepository::ACCESSIBLE_PROJECT_IDS@ == r#"
            SELECT project_id FROM project_memberships
            "#@,
        MembershipRepository::ACCESSIBLE_PROJECT_IDS_TAIL@ == r#"user_id = $2
            ORDER BY project_id
            "#@,
        MembershipRepository::ORGANIZATION_OWNER_COUNT@ == r#"
            SELECT count(*) FROM organization_memberships
            "#@,
        MembershipRepository::ORGANIZATION_OWNER_COUNT_TAIL@ == r#"role = 'owner'
            "#@,
        MembershipRepository::INSERT_ORGANIZATION_ROLE@ == r#"
            "#@,
        MembershipRepository::INSERT_PROJECT_ROLE@ == r#"
            "#@,
        MembershipRepository::REMOVE_ORGANIZATION_ROLE@ == r#"
            DELETE FROM organization_memberships
            "#@,
        MembershipRepository::REMOVE_ORGANIZATION_ROLE_TAIL@ == r#"user_id = $2
            "#@,
        MembershipRepository::REMOVE_PROJECT_ROLE@ == r#"
            DELETE FROM project_memberships
            WHERE project_id = $1 AND user_id = $2
            "#@,
{
}

} // verus!
