//! The wording of the statements of [`crate::agent_health`].

use vstd::prelude::*;

use crate::agent_health::AgentHealthRepository;

verus! {

/// The texts of [`AgentHealthRepository`], word for word.
pub proof fn texts_are_worded_so()
    ensures
        AgentHealthRepository::SIGNAL_BUCKETS@ == "application_agent_signal_buckets"@,
        AgentHealthRepository::DIAGNOSTIC_BUCKETS@ == "application_agent_diagnostic_buckets"@,
        AgentHealthRepository::PRUNE@ == "DELETE FROM "@,
        AgentHealthRepository::PRUNE_SELECT@ == " WHERE ctid IN (SELECT ctid FROM "@,
        AgentHealthRepository::PRUNE_TAIL@ == " WHERE bucket_at<$1 ORDER BY bucket_at LIMIT 500)"@,
        AgentHealthRepository::REGISTER_AGENT@ == ",authenticated_at=now(),last_session_ended_at=NULL"@,
        AgentHealthRepository::RECORD_SIGNAL@ == " ON CONFLICT(organization_id,project_id,application_id,agent_id,bucket_at) DO UPDATE SET received_count=LEAST(application_agent_signal_buckets.received_count+1,120),last_received_at=GREATEST(application_agent_signal_buckets.last_received_at,EXCLUDED.last_received_at)"@,
        AgentHealthRepository::COUNTER_BASELINE@ == "SELECT sent_at,counters FROM application_agent_counter_baselines "@,
        AgentHealthRepository::COUNTER_BASELINE_TAIL@ == " FOR UPDATE"@,
        AgentHealthRepository::END_SESSION@ == "UPDATE agent_sessions SET "@,
        AgentHealthRepository::CURSOR_IS_VALID@ == "SELECT EXISTS(SELECT 1 FROM application_agents "@,
        AgentHealthRepository::CURSOR_IS_VALID_TAIL@ == ")"@,
        AgentHealthRepository::APPLICATION_VISIBLE@ == "SELECT EXISTS(SELECT 1 FROM applications a "@,
        AgentHealthRepository::APPLICATION_VISIBLE_MEMBER@ == "a.id=$3 AND ($4 OR EXISTS(SELECT 1 FROM project_memberships m "@,
        AgentHealthRepository::APPLICATION_VISIBLE_TAIL@ == "m.user_id=$5)))"@,
        AgentHealthRepository::AGENT_PAGE@ == "SELECT aa.organization_id,aa.project_id,aa.application_id,aa.agent_id,aa.cluster_id,c.name cluster_name,a.node_name,a.agent_version,a.architecture,a.kernel_release,aa.capabilities,aa.authenticated_at,aa.history_started_at,aa.last_heartbeat_at,(SELECT min(e.observed_at) FROM runtime_events e WHERE e.organization_id=aa.organization_id AND e.project_id=aa.project_id AND e.application_id=aa.application_id AND e.agent_id=aa.agent_id) first_event_at,(SELECT max(e.observed_at) FROM runtime_events e WHERE e.organization_id=aa.organization_id AND e.project_id=aa.project_id AND e.application_id=aa.application_id AND e.agent_id=aa.agent_id) last_event_at FROM application_agents aa JOIN agents a ON a.organization_id=aa.organization_id AND a.cluster_id=aa.cluster_id AND a.id=aa.agent_id JOIN clusters c ON c.organization_id=aa.organization_id AND c.id=aa.cluster_id "@,
        AgentHealthRepository::AGENT_PAGE_TAIL@ == " ORDER BY aa.authenticated_at DESC,aa.agent_id DESC LIMIT $6"@,
        AgentHealthRepository::BUCKETS@ == "WITH signals AS (SELECT date_bin(($6::text || ' minutes')::interval,bucket_at,'1970-01-01'::timestamptz) bucket_at,TRUE received FROM application_agent_signal_buckets "@,
        AgentHealthRepository::BUCKETS_DIAGNOSTICS@ == "agent_id=$4 AND bucket_at >= $7 AND bucket_at < $8 GROUP BY 1), diagnostics AS (SELECT date_bin(($6::text || ' minutes')::interval,bucket_at,'1970-01-01'::timestamptz) bucket_at,bool_or(reset) reset,sum(dropped)::bigint dropped,sum(rate_limited)::bigint rate_limited,sum(decode_failed)::bigint decode_failed,sum(attribution_failed)::bigint attribution_failed,sum(capacity)::bigint capacity,sum(kernel_lost)::bigint kernel_lost,sum(correlation)::bigint correlation,sum(delivery_retry)::bigint delivery_retry,sum(unsupported)::bigint unsupported FROM application_agent_diagnostic_buckets "@,
        AgentHealthRepository::BUCKETS_TAIL@ == "cluster_id=$5 AND agent_id=$4 AND bucket_at >= $7 AND bucket_at < $8 GROUP BY 1) SELECT COALESCE(s.bucket_at,d.bucket_at) bucket_at,COALESCE(s.received,FALSE) received,COALESCE(d.reset,FALSE) reset,COALESCE(d.dropped,0) dropped,COALESCE(d.rate_limited,0) rate_limited,COALESCE(d.decode_failed,0) decode_failed,COALESCE(d.attribution_failed,0) attribution_failed,COALESCE(d.capacity,0) capacity,COALESCE(d.kernel_lost,0) kernel_lost,COALESCE(d.correlation,0) correlation,COALESCE(d.delivery_retry,0) delivery_retry,COALESCE(d.unsupported,0) unsupported FROM signals s FULL OUTER JOIN diagnostics d USING(bucket_at) ORDER BY bucket_at"@,
{
}

} // verus!
