//! The wording of the statements of [`crate::access_audit`].

use vstd::prelude::*;

use crate::access_audit::AccessAuditRepository;

verus! {

/// The texts of [`AccessAuditRepository`], word for word.
pub proof fn texts_are_worded_so()
    ensures
        AccessAuditRepository::PAGE@ == "SELECT id,actor_kind,actor_user_id,action,organization_id,project_id,target_user_id,invitation_id,previous_role,new_role,outcome,request_id,created_at FROM access_audit_records WHERE "@,
        AccessAuditRepository::PAGE_TAIL@ == " ORDER BY id LIMIT $3"@,
{
}

} // verus!
