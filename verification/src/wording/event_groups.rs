//! The wording of the statements of [`crate::event_groups`].

use vstd::prelude::*;

use crate::event_groups::EventGroupRepository;

verus! {

/// The texts of [`EventGroupRepository`], word for word.
pub proof fn texts_are_worded_so()
    ensures
        EventGroupRepository::SUMMARY_COLUMNS@ == "id,project_id,application_id,cluster_id,namespace,workload_kind,workload_name,fingerprint_version,event_kind,semantic_summary,status,first_seen_at,first_seen_event_id,last_seen_at,occurrence_count,representative_event_id,status_changed_at,status_changed_by_user_id AS status_changed_by"@,
        EventGroupRepository::EVIDENCE_COUNTS@ == "SELECT (SELECT count(*) FROM runtime_event_group_memberships "@,
        EventGroupRepository::EVIDENCE_COUNTS_SNAPSHOTS@ == "+(SELECT COALESCE(sum(occurrence_count),0)::bigint FROM runtime_history_snapshots "@,
        EventGroupRepository::EVIDENCE_COUNTS_GROUPS@ == ",(SELECT COALESCE(sum(occurrence_count),0)::bigint FROM runtime_event_groups "@,
        EventGroupRepository::RELEASE_ROLLUP_COUNT@ == "SELECT count(*) FROM runtime_event_group_releases"@,
        EventGroupRepository::ADD_MEMBERSHIP@ == " ON CONFLICT DO NOTHING"@,
        EventGroupRepository::NOTIFICATION_ELIGIBILITY@ == "SELECT CASE WHEN s.id IS NOT NULL THEN 'active_suppression' WHEN e.group_id IS NULL OR e.policy_state_version<>COALESCE(ps.state_version,0) OR e.evaluator_version<>$3 THEN 'evaluation_pending' WHEN e.verdict='expected' THEN 'expected' ELSE 'eligible' END reason,now() evaluated_at,CASE WHEN e.policy_state_version=COALESCE(ps.state_version,0) AND e.evaluator_version=$3 THEN e.winning_revision_id END policy_revision_id,s.id policy_suppression_id FROM runtime_event_groups g LEFT JOIN runtime_group_policy_evaluations e ON e.group_id=g.id LEFT JOIN runtime_policy_states ps ON ps.organization_id=g.organization_id AND ps.project_id=g.project_id AND ps.application_id=g.application_id LEFT JOIN LATERAL (SELECT x.id FROM runtime_inventory_group_links gl JOIN runtime_inventory_items i ON i.id=gl.item_id JOIN runtime_policy_suppressions x ON x.organization_id=i.organization_id AND x.project_id=i.project_id AND x.application_id=i.application_id AND x.identity_version=i.identity_version AND x.identity_digest=i.identity_digest WHERE gl.group_id=g.id AND x.cancelled_at IS NULL AND x.expires_at>now() AND (cardinality(x.cluster_ids)=0 OR g.cluster_id=ANY(x.cluster_ids)) AND (cardinality(x.namespaces)=0 OR g.namespace=ANY(x.namespaces)) AND (cardinality(x.workload_kinds)=0 OR g.workload_kind=ANY(x.workload_kinds)) AND (cardinality(x.workload_names)=0 OR g.workload_name=ANY(x.workload_names)) ORDER BY x.expires_at,x.id LIMIT 1) s ON true "@,
        EventGroupRepository::NOTIFICATION_ELIGIBILITY_TAIL@ == "g.id=$2"@,
        EventGroupRepository::USER_LABELS_JSON@ == "SELECT COALESCE(jsonb_agg(label ORDER BY label->>'display_name',label->>'updated_at'),'[]'::jsonb) FROM (SELECT jsonb_build_object('display_name',l.display_name,'created_by_user_id',l.created_by_user_id,'updated_by_user_id',l.updated_by_user_id,'created_at',l.created_at,'updated_at',l.updated_at) label FROM runtime_inventory_group_links gl JOIN runtime_inventory_items i ON i.id=gl.item_id JOIN runtime_behavior_user_labels l ON l.organization_id=i.organization_id AND l.project_id=i.project_id AND l.application_id=i.application_id AND l.inventory_kind=i.inventory_kind AND l.identity_version=i.identity_version AND l.identity_digest=i.identity_digest "@,
        EventGroupRepository::USER_LABELS_JSON_TAIL@ == "gl.group_id=$2 ORDER BY l.display_name,l.id LIMIT 20) labels"@,
        EventGroupRepository::USER_LABELS@ == "SELECT gl.group_id,jsonb_agg(jsonb_build_object('display_name',l.display_name,'created_by_user_id',l.created_by_user_id,'updated_by_user_id',l.updated_by_user_id,'created_at',l.created_at,'updated_at',l.updated_at) ORDER BY l.display_name,l.id) user_labels FROM runtime_inventory_group_links gl JOIN runtime_inventory_items i ON i.id=gl.item_id JOIN runtime_behavior_user_labels l ON l.organization_id=i.organization_id AND l.project_id=i.project_id AND l.application_id=i.application_id AND l.inventory_kind=i.inventory_kind AND l.identity_version=i.identity_version AND l.identity_digest=i.identity_digest "@,
        EventGroupRepository::USER_LABELS_TAIL@ == "gl.group_id=ANY($2) GROUP BY gl.group_id"@,
        EventGroupRepository::POLICY_STATES@ == "SELECT g.id group_id,jsonb_build_object('state',CASE WHEN e.group_id IS NULL OR e.policy_state_version<>COALESCE(ps.state_version,0) OR e.evaluator_version<>$3 THEN 'evaluation_pending' ELSE 'current' END,'verdict',CASE WHEN e.group_id IS NULL OR e.policy_state_version<>COALESCE(ps.state_version,0) OR e.evaluator_version<>$3 THEN NULL ELSE e.verdict END,'reason_code',CASE WHEN e.group_id IS NULL OR e.policy_state_version<>COALESCE(ps.state_version,0) OR e.evaluator_version<>$3 THEN 'evaluation_pending' ELSE e.reason_code END,'winning_revision_id',CASE WHEN e.policy_state_version=COALESCE(ps.state_version,0) AND e.evaluator_version=$3 THEN e.winning_revision_id END,'explanation',CASE WHEN e.policy_state_version=COALESCE(ps.state_version,0) AND e.evaluator_version=$3 THEN e.explanation ELSE '{}'::jsonb END,'evaluated_at',CASE WHEN e.policy_state_version=COALESCE(ps.state_version,0) AND e.evaluator_version=$3 THEN e.evaluated_at END) policy_evaluation,s.summary active_suppression,(s.summary IS NULL AND (e.group_id IS NULL OR e.policy_state_version<>COALESCE(ps.state_version,0) OR e.evaluator_version<>$3 OR e.verdict<>'expected')) actionable FROM runtime_event_groups g LEFT JOIN runtime_group_policy_evaluations e ON e.group_id=g.id LEFT JOIN runtime_policy_states ps ON ps.organization_id=g.organization_id AND ps.project_id=g.project_id AND ps.application_id=g.application_id LEFT JOIN LATERAL (SELECT jsonb_build_object('id',x.id,'reason',x.reason,'expires_at',x.expires_at,'created_at',x.created_at) summary FROM runtime_inventory_group_links gl JOIN runtime_inventory_items i ON i.id=gl.item_id JOIN runtime_policy_suppressions x ON x.organization_id=i.organization_id AND x.project_id=i.project_id AND x.application_id=i.application_id AND x.identity_version=i.identity_version AND x.identity_digest=i.identity_digest WHERE gl.group_id=g.id AND x.cancelled_at IS NULL AND x.expires_at>now() AND (cardinality(x.cluster_ids)=0 OR g.cluster_id=ANY(x.cluster_ids)) AND (cardinality(x.namespaces)=0 OR g.namespace=ANY(x.namespaces)) AND (cardinality(x.workload_kinds)=0 OR g.workload_kind=ANY(x.workload_kinds)) AND (cardinality(x.workload_names)=0 OR g.workload_name=ANY(x.workload_names)) ORDER BY (cardinality(x.cluster_ids)>0)::int+(cardinality(x.namespaces)>0)::int+(cardinality(x.workload_kinds)>0)::int+(cardinality(x.workload_names)>0)::int DESC,x.expires_at,x.id LIMIT 1) s ON true "@,
        EventGroupRepository::POLICY_STATES_TAIL@ == "g.id=ANY($2)"@,
        EventGroupRepository::LIST_CURSOR@ == "SELECT last_seen_at,id FROM runtime_event_groups WHERE id=$1 "@,
        EventGroupRepository::SUMMARY_PAGE@ == "runtime_event_groups g "@,
        EventGroupRepository::SUMMARY_PAGE_TAIL@ == " ORDER BY last_seen_at DESC,id DESC LIMIT $16"@,
        EventGroupRepository::IS_IN_RELEASE@ == "EXISTS (SELECT 1 FROM runtime_event_group_releases gr WHERE gr.group_id=g.id AND gr.release_id=$13)"@,
        EventGroupRepository::SUMMARY@ == "runtime_event_groups "@,
        EventGroupRepository::SUMMARY_TAIL@ == "id=$2"@,
        EventGroupRepository::OCCURRENCE_CURSOR@ == "SELECT e.received_at,e.observed_at,e.id FROM runtime_event_group_memberships m JOIN runtime_events e ON e.id=m.event_id "@,
        EventGroupRepository::OCCURRENCE_CURSOR_TAIL@ == "m.group_id=$2 AND e.id=$3"@,
        EventGroupRepository::OCCURRENCE_PAGE@ == "SELECT e.id,e.event_id,e.observed_at,e.received_at,e.node_name,e.namespace,e.pod_name,e.container_name,e.process_command,CASE WHEN g.event_kind='container.restart_loop' THEN g.event_kind ELSE e.event_kind END event_kind,CASE WHEN g.event_kind='container.restart_loop' THEN jsonb_build_object('type','ContainerRestartLoop','data',g.semantic_summary) ELSE e.payload END payload,COALESCE((SELECT jsonb_build_object('retention_incomplete',o.retention_incomplete,'status',o.status,'candidate_count',o.candidate_count,'tolerance_seconds',o.tolerance_seconds,'related_event_ids',COALESCE((SELECT jsonb_agg(c.kernel_event_id) FROM runtime_event_correlations c WHERE c.lifecycle_event_id=e.id),'[]'::jsonb)) FROM runtime_event_correlation_outcomes o WHERE o.event_id=e.id),jsonb_build_object('status','absent','candidate_count',0,'related_event_ids','[]'::jsonb)) correlation,e.release_id,r.version release_version,CASE WHEN r.id IS NULL THEN 'Unattributed' ELSE release_display_name(a.name,r.source,r.version,r.identity_digest,r.identity_components) END release_display_name FROM runtime_event_group_memberships m JOIN runtime_event_groups g ON g.id=m.group_id AND g.organization_id=m.organization_id JOIN runtime_events e ON e.id=m.event_id AND e.organization_id=m.organization_id LEFT JOIN releases r ON r.id=e.release_id LEFT JOIN applications a ON a.id=r.application_id "@,
        EventGroupRepository::OCCURRENCE_PAGE_TAIL@ == "m.group_id=$2 AND ($3::timestamptz IS NULL OR (e.received_at,e.observed_at,e.id)<($3,$4,$5)) ORDER BY e.received_at DESC,e.observed_at DESC,e.id DESC LIMIT $6"@,
        EventGroupRepository::SET_STATUS@ == "UPDATE runtime_event_groups SET "@,
        EventGroupRepository::STATUS@ == "SELECT status FROM runtime_event_groups "@,
        EventGroupRepository::STATUS_TAIL@ == "id=$2"@,
        EventGroupRepository::NOTIFICATION_SUMMARY@ == "SELECT CASE WHEN o.completion_reason='expected' THEN 'policy_expected' WHEN o.completion_reason='active_suppression' THEN 'temporary_policy_suppressed' WHEN o.completion_reason='backfill_suppressed' OR o.source='backfill' AND count(d.id) FILTER(WHERE d.status<>'suppressed')=0 THEN 'backfill_suppressed' WHEN count(d.id)=0 AND o.processed_at IS NOT NULL THEN 'not_configured' WHEN count(d.id) FILTER (WHERE d.status IN ('pending','in_flight'))>0 THEN CASE WHEN count(d.id) FILTER (WHERE d.status='in_flight')>0 THEN 'delivering' ELSE 'pending' END WHEN count(d.id) FILTER (WHERE d.status='succeeded')>0 THEN 'delivered' WHEN count(d.id) FILTER (WHERE d.status IN ('failed','cancelled','suppressed'))>0 THEN 'terminally_failed' ELSE 'pending' END state,count(d.id)::bigint delivery_count,count(d.id) FILTER (WHERE d.status='succeeded')::bigint succeeded_count,count(d.id) FILTER (WHERE d.status IN ('failed','cancelled','suppressed'))::bigint failed_count FROM outbox_messages o LEFT JOIN notification_deliveries d ON d.outbox_message_id=o.id "@,
        EventGroupRepository::NOTIFICATION_SUMMARY_TAIL@ == "o.aggregate_id=$2 AND o.topic='runtime_group.first_seen' GROUP BY o.id,o.source,o.processed_at,o.completion_reason"@,
        EventGroupRepository::RELATED_EVIDENCE@ == "SELECT e.id,e.event_id,e.observed_at,e.received_at,e.event_kind,COALESCE(e.payload#>>'{data,source}','unknown') source,e.payload FROM runtime_restart_loop_projections p JOIN runtime_restart_projection_memberships m ON m.organization_id=p.organization_id AND m.project_id=p.project_id AND m.projection_version=p.projection_version JOIN runtime_events e ON e.id=m.event_id AND e.organization_id=p.organization_id AND e.project_id=p.project_id AND e.application_id=p.application_id AND e.cluster_id=p.cluster_id AND e.pod_uid=p.pod_uid AND e.container_name=p.container_name AND e.container_id=p.runtime_container_id AND e.observed_at BETWEEN p.window_started_at AND p.window_ended_at "@,
        EventGroupRepository::RELATED_EVIDENCE_TAIL@ == "p.group_id=$2 ORDER BY e.observed_at,e.received_at,e.id LIMIT $3"@,
        EventGroupRepository::TENANT_OF@ == r#"
            SELECT organization_id, project_id
            FROM runtime_event_groups
            WHERE id = $1
            "#@,
        EventGroupRepository::INSERT_IF_ABSENT@ == r#"
            RETURNING id
            "#@,
        EventGroupRepository::LOCK_EXISTING@ == r#"
            SELECT id FROM runtime_event_groups
            "#@,
        EventGroupRepository::LOCK_EXISTING_TAIL@ == r#"cluster_id = $4
              AND namespace = $5
              AND workload_kind = $6
              AND workload_name = $7
              AND fingerprint_version = $8
              AND fingerprint_digest = $9
            FOR UPDATE
            "#@,
        EventGroupRepository::CHANGE_GROUP@ == r#"
            UPDATE runtime_event_groups
            SET "#@,
        EventGroupRepository::CHANGE_GROUP_TAIL@ == r#"
            WHERE id = $1
            "#@,
        EventGroupRepository::UPSERT_DERIVED@ == r#",
                updated_at = now()
            RETURNING id
            "#@,
{
}

} // verus!
