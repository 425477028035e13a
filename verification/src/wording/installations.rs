//! The wording of the statements of [`crate::installations`].

use vstd::prelude::*;

use crate::installations::InstallationRepository;

verus! {

/// The texts of [`InstallationRepository`], word for word.
pub proof fn texts_are_worded_so()
    ensures
        InstallationRepository::INSTALLATION_COLUMNS@ == "id,application_id,credential_id,cluster_name,workload_namespace,workload_kind,workload_name,workload_labels,chart_version,configuration_schema_version,created_at,updated_at"@,
        InstallationRepository::RECORD_STATUS@ == "INSERT INTO application_installation_status(installation_id,node_name,state,reason,observed_at) SELECT i.id,$4,$5,$6,$7 FROM application_installations i "@,
        InstallationRepository::RECORD_STATUS_TAIL@ == "i.created_at DESC LIMIT 1 ON CONFLICT(installation_id,node_name) DO UPDATE SET state=EXCLUDED.state,reason=EXCLUDED.reason,observed_at=EXCLUDED.observed_at,updated_at=now() WHERE application_installation_status.observed_at<=EXCLUDED.observed_at"@,
        InstallationRepository::FOR_APPLICATION@ == "application_installations "@,
        InstallationRepository::FOR_APPLICATION_TAIL@ == "created_at,id"@,
        InstallationRepository::GET@ == "application_installations "@,
        InstallationRepository::GET_TAIL@ == "id=$4"@,
        InstallationRepository::BY_IDEMPOTENCY_KEY@ == "application_installations "@,
        InstallationRepository::BY_IDEMPOTENCY_KEY_TAIL@ == "idempotency_key=$2"@,
        InstallationRepository::CREDENTIAL_FOR_UPDATE@ == "SELECT credential_id FROM application_installations "@,
        InstallationRepository::CREDENTIAL_FOR_UPDATE_TAIL@ == "id=$4 FOR UPDATE"@,
        InstallationRepository::LATEST_CREDENTIAL_USE@ == "SELECT c.last_used_at,c.revoked_at FROM application_installations i JOIN application_ingestion_credentials c ON c.id=i.credential_id "@,
        InstallationRepository::LATEST_CREDENTIAL_USE_TAIL@ == "i.created_at DESC LIMIT 1"@,
        InstallationRepository::LATEST_STATUS@ == "SELECT s.state,s.reason,max(s.observed_at),count(*) FROM application_installation_status s JOIN application_installations i ON i.id=s.installation_id "@,
        InstallationRepository::LATEST_STATUS_TAIL@ == "s.state,s.reason ORDER BY max(s.observed_at) DESC LIMIT 1"@,
{
}

} // verus!
