//! The wording of the statements of [`crate::deployments`].

use vstd::prelude::*;

use crate::deployments::DeploymentRepository;

verus! {

/// The texts of [`DeploymentRepository`], word for word.
pub proof fn texts_are_worded_so()
    ensures
        DeploymentRepository::LOCK_REVISION@ == "SELECT pg_advisory_xact_lock(hashtextextended($1,0))"@,
        DeploymentRepository::EPISODE_COUNT@ == "SELECT count(*) FROM deployment_episodes WHERE "@,
        DeploymentRepository::OPEN_EPISODE@ == "SELECT id FROM deployment_episodes WHERE "@,
        DeploymentRepository::ACTIVE_EPISODES@ == "SELECT id,release_id FROM deployment_episodes "@,
        DeploymentRepository::ACTIVE_EPISODES_TAIL@ == " ORDER BY last_observed_at DESC,id DESC"@,
        DeploymentRepository::LINK_PREDECESSOR@ == " ON CONFLICT DO NOTHING"@,
        DeploymentRepository::REVISION_BY_DIGEST@ == "SELECT id FROM kubernetes_workload_revisions "@,
        DeploymentRepository::INSERT_SNAPSHOT@ == " ON CONFLICT DO NOTHING"@,
        DeploymentRepository::IS_STABLE@ == "$3>=last_observed_at+($4::double precision*interval '1 second')"@,
{
}

} // verus!
