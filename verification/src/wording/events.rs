//! The wording of the statements of [`crate::events`].

use vstd::prelude::*;

use crate::events::EventRepository;

verus! {

/// The texts of [`EventRepository`], word for word.
pub proof fn texts_are_worded_so()
    ensures
        EventRepository::RECEIVED_WINDOW@ == "SELECT min(received_at),max(received_at) FROM runtime_events "@,
        EventRepository::OCCURRENCE@ == "SELECT e.id,e.event_id,e.observed_at,e.received_at,e.node_name,e.namespace,e.pod_name,e.container_name,e.process_command,e.event_kind,e.payload,COALESCE((SELECT jsonb_build_object('retention_incomplete',o.retention_incomplete,'status',o.status,'candidate_count',o.candidate_count,'tolerance_seconds',o.tolerance_seconds,'related_event_ids',COALESCE((SELECT jsonb_agg(c.kernel_event_id) FROM runtime_event_correlations c WHERE c.lifecycle_event_id=e.id),'[]'::jsonb)) FROM runtime_event_correlation_outcomes o WHERE o.event_id=e.id),jsonb_build_object('status','absent','candidate_count',0,'related_event_ids','[]'::jsonb)) correlation,e.release_id,r.version release_version,CASE WHEN r.id IS NULL THEN 'Unattributed' ELSE release_display_name(a.name,r.source,r.version,r.identity_digest,r.identity_components) END release_display_name FROM runtime_events e LEFT JOIN releases r ON r.id=e.release_id LEFT JOIN applications a ON a.id=r.application_id "@,
        EventRepository::OCCURRENCE_TAIL@ == "e.id=$2"@,
        EventRepository::RELATED_EVIDENCE@ == "SELECT e.id,e.event_id,e.observed_at,e.received_at,e.event_kind,COALESCE(e.payload#>>'{data,source}','unknown') source,e.payload FROM runtime_event_correlations c JOIN runtime_events e ON e.id=CASE WHEN c.lifecycle_event_id=$2 THEN c.kernel_event_id ELSE c.lifecycle_event_id END "@,
        EventRepository::RELATED_EVIDENCE_TAIL@ == "(c.lifecycle_event_id=$2 OR c.kernel_event_id=$2) ORDER BY e.observed_at,e.received_at,e.id LIMIT $3"@,
        EventRepository::RECENT_FOR_APPLICATION@ == r#"
            SELECT event_id, organization_id, project_id, application_id,
                   event_kind, observed_at, payload
            FROM runtime_events
            "#@,
        EventRepository::RECENT_FOR_APPLICATION_TAIL@ == r#"event_kind = $4
              AND observed_at >= $5
            ORDER BY observed_at DESC
            LIMIT $6
            "#@,
{
}

} // verus!
