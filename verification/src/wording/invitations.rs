//! The wording of the statements of [`crate::invitations`].

use vstd::prelude::*;

use crate::invitations::InvitationRepository;

verus! {

/// The texts of [`InvitationRepository`], word for word.
pub proof fn texts_are_worded_so()
    ensures
        InvitationRepository::INVITATION_SELECT@ == "SELECT i.id,i.organization_id,o.name organization_name,i.project_id,p.name project_name,i.recipient_email,i.role,u.display_name inviter_display_name,i.locale,i.created_at,i.expires_at,i.accepted_at,i.accepted_by_user_id,i.revoked_at,i.replaced_at FROM invitations i JOIN organizations o ON o.id=i.organization_id LEFT JOIN projects p ON p.id=i.project_id JOIN users u ON u.id=i.inviter_user_id"@,
        InvitationRepository::FOR_UPDATE@ == " FOR UPDATE OF i"@,
        InvitationRepository::DELETE_RETAINED@ == "DELETE FROM invitations WHERE "@,
        InvitationRepository::IS_PAST_RETENTION@ == "retain_until<now()"@,
        InvitationRepository::GET@ == " WHERE i.id=$1"@,
        InvitationRepository::BY_TOKEN_DIGEST@ == " WHERE i.token_digest=$1"@,
        InvitationRepository::PAGE@ == " WHERE ($1::uuid IS NULL OR (i.created_at,i.id)<(SELECT created_at,id FROM invitations WHERE id=$1)) ORDER BY i.created_at DESC,i.id DESC LIMIT $2"@,
        InvitationRepository::ORGANIZATION_PAGE_CURSOR@ == "i.project_id IS NULL AND ($2::uuid IS NULL OR (i.created_at,i.id)<(SELECT created_at,id FROM invitations WHERE id=$2 "@,
        InvitationRepository::ORGANIZATION_PAGE_TAIL@ == "project_id IS NULL)) ORDER BY i.created_at DESC,i.id DESC LIMIT $3"@,
        InvitationRepository::PROJECT_PAGE@ == " WHERE i.project_id=$1 AND ($2::uuid IS NULL OR (i.created_at,i.id)<(SELECT created_at,id FROM invitations WHERE id=$2 AND project_id=$1)) ORDER BY i.created_at DESC,i.id DESC LIMIT $3"@,
        InvitationRepository::PENDING_OWNER_INVITATION_TAIL@ == " ORDER BY i.created_at DESC,i.id DESC LIMIT 1"@,
        InvitationRepository::RECIPIENT_IS_PROJECT_MEMBER@ == "SELECT EXISTS(SELECT 1 FROM users u JOIN project_memberships m ON m.user_id=u.id WHERE "@,
        InvitationRepository::RECIPIENT_IS_PROJECT_MEMBER_TAIL@ == ")"@,
        InvitationRepository::RECIPIENT_IS_ORGANIZATION_MEMBER@ == "SELECT EXISTS(SELECT 1 FROM users u JOIN organization_memberships m ON m.user_id=u.id WHERE u.email=$1 "@,
        InvitationRepository::CREATED_LAST_HOUR@ == "SELECT count(*) FROM invitations WHERE "@,
        InvitationRepository::IS_FROM_THE_LAST_HOUR@ == "created_at>now()-interval '1 hour'"@,
        InvitationRepository::UNRESOLVED_EQUIVALENT_FOR_UPDATE@ == "SELECT id,expires_at FROM invitations "@,
        InvitationRepository::UNRESOLVED_EQUIVALENT_FOR_UPDATE_TAIL@ == " FOR UPDATE"@,
        InvitationRepository::IS_OF_THE_SCOPE@ == "project_id IS NOT DISTINCT FROM $2"@,
        InvitationRepository::MAIL_CONTEXT@ == "SELECT o.name,p.name,u.display_name FROM organizations o LEFT JOIN projects p ON p.id=$2 JOIN users u ON u.id=$3 WHERE o.id=$1"@,
        InvitationRepository::RESENT_LAST_HOUR@ == "SELECT count(*) FROM access_audit_records WHERE "@,
        InvitationRepository::CONSUME@ == "UPDATE invitations SET "@,
{
}

} // verus!
