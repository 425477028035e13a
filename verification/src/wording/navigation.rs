//! The wording of the statements of [`crate::navigation`].

use vstd::prelude::*;

use crate::navigation::NavigationRepository;
use crate::navigation;

verus! {

/// The texts of [`crate::navigation`], word for word.
pub proof fn fragments_are_worded_so()
    ensures
        navigation::PROJECT_COLUMNS@ == "p.id,p.slug,p.name,p.created_at,p.archived_at,"@,
{
}

/// The texts of [`NavigationRepository`], word for word.
pub proof fn texts_are_worded_so()
    ensures
        NavigationRepository::ORGANIZATION@ == "SELECT id,slug,name,created_at FROM organizations WHERE id=$1"@,
        NavigationRepository::PROJECT_PAGE@ == "projects p "@,
        NavigationRepository::PROJECT_PAGE_TAIL@ == " ORDER BY p.created_at,p.id LIMIT $4"@,
        NavigationRepository::PROJECT@ == "projects p "@,
        NavigationRepository::PROJECT_TAIL@ == "p.id=$2"@,
        NavigationRepository::APPLICATION_PAGE@ == "applications a "@,
        NavigationRepository::APPLICATION_PAGE_TAIL@ == " ORDER BY a.created_at,a.id LIMIT $5"@,
        NavigationRepository::APPLICATION@ == "applications a "@,
        NavigationRepository::APPLICATION_TAIL@ == "a.id=$3"@,
        NavigationRepository::WORKER_CURSOR_IS_VALID@ == "SELECT EXISTS(SELECT 1 FROM runtime_events "@,
        NavigationRepository::WORKER_CURSOR_IS_VALID_TAIL@ == "agent_id=$4 GROUP BY agent_id HAVING max(observed_at)=$5)"@,
        NavigationRepository::WORKER_PAGE@ == "WITH observed AS (SELECT agent_id,min(observed_at) first_observed_at,max(observed_at) last_observed_at FROM runtime_events "@,
        NavigationRepository::WORKER_PAGE_AGENTS@ == "agent_id) SELECT a.id agent_id,a.cluster_id,c.name cluster_name,a.node_name,a.agent_version,a.architecture,a.kernel_release,o.first_observed_at,o.last_observed_at,a.last_seen_at agent_last_seen_at FROM observed o JOIN agents a "@,
        NavigationRepository::WORKER_PAGE_CLUSTERS@ == "a.id=o.agent_id JOIN clusters c "@,
        NavigationRepository::WORKER_PAGE_TAIL@ == "c.id=a.cluster_id WHERE ($4::timestamptz IS NULL OR (o.last_observed_at,o.agent_id)<($4,$5)) ORDER BY o.last_observed_at DESC,o.agent_id DESC LIMIT $6"@,
        NavigationRepository::PROJECT_CURSOR@ == "SELECT created_at,id FROM projects "@,
        NavigationRepository::PROJECT_CURSOR_TAIL@ == "id=$2"@,
        NavigationRepository::APPLICATION_CURSOR@ == "SELECT created_at,id FROM applications "@,
        NavigationRepository::APPLICATION_CURSOR_TAIL@ == "project_id=$2 AND id=$3"@,
{
}

} // verus!
