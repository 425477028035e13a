//! The wording of the statements of [`crate::application_credentials`].

use vstd::prelude::*;

use crate::application_credentials::ApplicationCredentialRepository;

verus! {

/// The texts of [`ApplicationCredentialRepository`], word for word.
pub proof fn texts_are_worded_so()
    ensures
        ApplicationCredentialRepository::CREDENTIAL_COLUMNS@ == "id,name,token_hint,created_at,last_used_at,revoked_at"@,
        ApplicationCredentialRepository::LIST@ == "application_ingestion_credentials "@,
        ApplicationCredentialRepository::LIST_TAIL@ == "created_at,id"@,
        ApplicationCredentialRepository::REVOKE_IN_APPLICATION@ == "UPDATE application_ingestion_credentials SET "@,
        ApplicationCredentialRepository::REVOKE_IN_APPLICATION_TAIL@ == "id=$4 RETURNING revoked_at"@,
        ApplicationCredentialRepository::AUTHENTICATE@ == "UPDATE application_ingestion_credentials SET "@,
        ApplicationCredentialRepository::AUTHENTICATE_TAIL@ == " RETURNING id,organization_id,project_id,application_id"@,
        ApplicationCredentialRepository::IS_ACTIVE@ == "SELECT EXISTS(SELECT 1 FROM application_ingestion_credentials WHERE id=$1 "@,
        ApplicationCredentialRepository::IS_ACTIVE_TAIL@ == ")"@,
        ApplicationCredentialRepository::REVOKE@ == "UPDATE application_ingestion_credentials SET "@,
        ApplicationCredentialRepository::REVOKE_TAIL@ == " WHERE id=$1"@,
{
}

} // verus!
