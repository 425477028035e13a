//! The wording of the statements of [`crate::policies`].

use vstd::prelude::*;

use crate::policies::PolicyRepository;

verus! {

/// The texts of [`PolicyRepository`], word for word.
pub proof fn texts_are_worded_so()
    ensures
        PolicyRepository::POLICY_COLUMNS@ == "p.id,p.project_id,p.application_id,p.name,p.current_revision_id,r.revision_number,r.enabled,r.inventory_kind,r.identity_version,r.behavior_matcher,r.cluster_ids,r.namespaces,r.workload_kinds,r.workload_names,r.inside_effect,r.outside_effect,p.created_by_user_id,p.created_at,p.updated_at"@,
        PolicyRepository::REVISION_COLUMNS@ == "r.id,r.policy_id,r.revision_number,r.prior_revision_id,r.enabled,r.inventory_kind,r.identity_version,r.identity_digest,r.behavior_matcher,r.cluster_ids,r.namespaces,r.workload_kinds,r.workload_names,r.inside_effect,r.outside_effect,r.source_inventory_item_id,r.source_runtime_group_id,r.created_by_user_id,r.created_at"@,
        PolicyRepository::STATE_VERSION@ == "SELECT state_version FROM runtime_policy_states "@,
        PolicyRepository::ENABLED_REVISIONS_FOR_IDENTITY@ == "SELECT r.id revision_id,r.identity_version,r.identity_digest,r.cluster_ids,r.namespaces,r.workload_kinds,r.workload_names,r.inside_effect,r.outside_effect FROM runtime_policies p JOIN runtime_policy_revisions r ON r.id=p.current_revision_id "@,
        PolicyRepository::STORE_GROUP_EVALUATION@ == ",evaluated_at=now()"@,
        PolicyRepository::STORE_SIGHTING_EVALUATION@ == ",evaluated_at=now()"@,
        PolicyRepository::CLAIM_RECOMPUTATION@ == "WITH candidate AS (SELECT id FROM runtime_policy_recomputations WHERE "@,
        PolicyRepository::CLAIM_RECOMPUTATION_CHOSEN@ == " ORDER BY created_at,id FOR UPDATE SKIP LOCKED LIMIT 1) UPDATE runtime_policy_recomputations o SET "@,
        PolicyRepository::CLAIM_RECOMPUTATION_TAIL@ == " FROM candidate c WHERE o.id=c.id RETURNING o.id,o.organization_id,o.project_id,o.application_id,o.identity_version,o.identity_digest"@,
        PolicyRepository::GROUPS_TO_EVALUATE@ == "SELECT l.item_id,g.id group_id,g.cluster_id,g.namespace,g.workload_kind,g.workload_name FROM runtime_inventory_group_links l JOIN runtime_inventory_items i ON i.id=l.item_id JOIN runtime_event_groups g ON g.id=l.group_id LEFT JOIN runtime_group_policy_evaluations e ON e.group_id=g.id LEFT JOIN runtime_policy_states s ON s.organization_id=g.organization_id AND s.project_id=g.project_id AND s.application_id=g.application_id "@,
        PolicyRepository::GROUPS_TO_EVALUATE_TAIL@ == " ORDER BY g.id LIMIT $7"@,
        PolicyRepository::GROUP_IS_STALE@ == "(e.group_id IS NULL OR e.policy_state_version<COALESCE(s.state_version,0) OR e.evaluator_version<>$6)"@,
        PolicyRepository::SIGHTINGS_TO_EVALUATE@ == "SELECT s.item_id,s.cluster_id,s.namespace,s.workload_kind,s.workload_name,s.pod_uid,s.container_name FROM runtime_inventory_sightings s JOIN runtime_inventory_items i ON i.id=s.item_id LEFT JOIN runtime_sighting_policy_evaluations e ON e.item_id=s.item_id AND e.cluster_id=s.cluster_id AND e.namespace=s.namespace AND e.workload_kind=s.workload_kind AND e.workload_name=s.workload_name AND e.pod_uid=s.pod_uid AND e.container_name=s.container_name LEFT JOIN runtime_policy_states ps ON ps.organization_id=s.organization_id AND ps.project_id=s.project_id AND ps.application_id=s.application_id "@,
        PolicyRepository::SIGHTINGS_TO_EVALUATE_TAIL@ == " ORDER BY s.item_id,s.cluster_id,s.namespace,s.workload_kind,s.workload_name,s.pod_uid,s.container_name LIMIT $7"@,
        PolicyRepository::SIGHTING_IS_STALE@ == "(e.item_id IS NULL OR e.policy_state_version<COALESCE(ps.state_version,0) OR e.evaluator_version<>$6)"@,
        PolicyRepository::CHANGE_RECOMPUTATION@ == "UPDATE runtime_policy_recomputations SET "@,
        PolicyRepository::BACKFILL_RECOMPUTATIONS@ == "INSERT INTO runtime_policy_recomputations(id,organization_id,project_id,application_id,identity_version,identity_digest) SELECT gen_random_uuid(),i.organization_id,i.project_id,i.application_id,i.identity_version,i.identity_digest FROM runtime_inventory_items i "@,
        PolicyRepository::BACKFILL_RECOMPUTATIONS_TAIL@ == "($3::uuid IS NULL OR i.application_id=$3) AND NOT EXISTS(SELECT 1 FROM runtime_policy_recomputations o WHERE o.organization_id=i.organization_id AND o.project_id=i.project_id AND o.application_id=i.application_id AND o.identity_version=i.identity_version AND o.identity_digest=i.identity_digest AND o.state IN ('pending','running')) GROUP BY i.organization_id,i.project_id,i.application_id,i.identity_version,i.identity_digest"@,
        PolicyRepository::RECOMPUTATION@ == "SELECT id,state,attempt_count,requested_policy_revision_id,created_at,started_at,completed_at,updated_at FROM runtime_policy_recomputations "@,
        PolicyRepository::RECOMPUTATION_TAIL@ == "id=$4"@,
        PolicyRepository::PAGE@ == "runtime_policies p LEFT JOIN runtime_policy_revisions r ON r.id=p.current_revision_id "@,
        PolicyRepository::PAGE_TAIL@ == " ORDER BY p.id LIMIT $5"@,
        PolicyRepository::GET@ == "runtime_policies p LEFT JOIN runtime_policy_revisions r ON r.id=p.current_revision_id "@,
        PolicyRepository::GET_TAIL@ == "p.id=$4"@,
        PolicyRepository::REVISION_PAGE@ == "runtime_policy_revisions r "@,
        PolicyRepository::REVISION_PAGE_TAIL@ == " ORDER BY r.id DESC LIMIT $6"@,
        PolicyRepository::SUPPRESSION_PAGE@ == "SELECT id,inventory_kind,identity_version,identity_digest,behavior_matcher,cluster_ids,namespaces,workload_kinds,workload_names,reason,expires_at,cancelled_at,cancelled_by_user_id,source_inventory_item_id,source_runtime_group_id,created_by_user_id,created_at FROM runtime_policy_suppressions "@,
        PolicyRepository::SUPPRESSION_PAGE_TAIL@ == " ORDER BY id DESC LIMIT $6"@,
        PolicyRepository::LOCK_COMMAND@ == "SELECT pg_advisory_xact_lock(hashtextextended($1,0))"@,
        PolicyRepository::COMMAND@ == "SELECT request_digest,result FROM runtime_policy_commands "@,
        PolicyRepository::COMMAND_TAIL@ == "idempotency_key=$2"@,
        PolicyRepository::CURRENT_STATE_VERSION@ == " ON CONFLICT(organization_id,project_id,application_id) DO UPDATE SET updated_at=runtime_policy_states.updated_at RETURNING state_version"@,
        PolicyRepository::PREVIEW_COUNTS@ == "SELECT count(*)::bigint,count(DISTINCT cluster_id)::bigint,count(DISTINCT (cluster_id,namespace))::bigint,count(DISTINCT (cluster_id,namespace,workload_kind,workload_name))::bigint,count(*) FILTER(WHERE (cardinality($2::uuid[])=0 OR cluster_id=ANY($2)) AND (cardinality($3::text[])=0 OR namespace=ANY($3)) AND (cardinality($4::text[])=0 OR workload_kind=ANY($4)) AND (cardinality($5::text[])=0 OR workload_name=ANY($5)))::bigint FROM runtime_inventory_sightings WHERE item_id=$1"@,
        PolicyRepository::PREVIEW_GROUP_IDS@ == "SELECT g.id FROM runtime_inventory_group_links l JOIN runtime_event_groups g ON g.organization_id=l.organization_id AND g.project_id=l.project_id AND g.application_id=l.application_id AND g.id=l.group_id WHERE l.item_id=$1 AND ((cardinality($2::uuid[])=0 OR g.cluster_id=ANY($2)) AND (cardinality($3::text[])=0 OR g.namespace=ANY($3)) AND (cardinality($4::text[])=0 OR g.workload_kind=ANY($4)) AND (cardinality($5::text[])=0 OR g.workload_name=ANY($5)) OR $6::boolean) ORDER BY g.id LIMIT 20"@,
        PolicyRepository::PREVIEW_SIGHTINGS@ == "SELECT cluster_id,namespace,workload_kind,workload_name,pod_uid,container_name FROM runtime_inventory_sightings WHERE item_id=$1 AND ((cardinality($2::uuid[])=0 OR cluster_id=ANY($2)) AND (cardinality($3::text[])=0 OR namespace=ANY($3)) AND (cardinality($4::text[])=0 OR workload_kind=ANY($4)) AND (cardinality($5::text[])=0 OR workload_name=ANY($5)) OR $6::boolean) ORDER BY last_seen_at DESC,cluster_id,namespace,workload_kind,workload_name,pod_uid,container_name LIMIT 20"@,
        PolicyRepository::CURRENT_REVISION_FOR_UPDATE@ == "SELECT current_revision_id,r.revision_number FROM runtime_policies p JOIN runtime_policy_revisions r ON r.id=p.current_revision_id "@,
        PolicyRepository::CURRENT_REVISION_FOR_UPDATE_TAIL@ == "p.id=$4 FOR UPDATE OF p"@,
        PolicyRepository::CURRENT_REVISION_DETAIL_FOR_UPDATE@ == "runtime_policies p JOIN runtime_policy_revisions r ON r.id=p.current_revision_id "@,
        PolicyRepository::CURRENT_REVISION_DETAIL_FOR_UPDATE_TAIL@ == "p.id=$4 FOR UPDATE OF p"@,
        PolicyRepository::CANCEL_SUPPRESSION@ == "UPDATE runtime_policy_suppressions SET "@,
        PolicyRepository::CANCEL_SUPPRESSION_TAIL@ == "id=$4"@,
{
}

} // verus!
