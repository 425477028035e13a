//! Raw runtime-event persistence.

use serde_json::Value;
use uuid::Uuid;
use vstd::prelude::*;

use crate::driver;
#[allow(unused_imports)]
use crate::statement::Bind;
use crate::statement::{Statement, StatementView, Timestamp};
use crate::tenant::{After, Before, Layout};
use crate::tenant;

verus! {

broadcast use tenant::known_aliases_name_tables;

/// The limit that a read of recent events applies: at least 1 and at most
/// 1000.
pub open spec fn clamped(limit: i64) -> i64 {
    if limit < 1 {
        1
    } else if limit > 1000 {
        1000
    } else {
        limit
    }
}

/// Brings a limit into `1..=1000`.
fn clamp(limit: i64) -> (result: i64)
    ensures
        result == clamped(limit),
{
    if limit < 1 {
        1
    } else if limit > 1000 {
        1000
    } else {
        limit
    }
}

/// A stored runtime event as persisted in `runtime_events`.
///
/// This is a persistence row, not an API response shape. Endpoints project it
/// into their own serializable types so that the table layout and the public
/// JSON contract can evolve independently.
#[derive(Debug, PartialEq)]
pub struct StoredEvent {
    pub event_id: Uuid,
    pub organization_id: Uuid,
    pub project_id: Uuid,
    pub application_id: Uuid,
    pub event_kind: String,
    pub observed_at: Timestamp,
    pub payload: Value,
}

impl Clone for StoredEvent {
    fn clone(&self) -> (copy: Self)
        ensures
            copy.event_id == self.event_id,
            copy.organization_id == self.organization_id,
            copy.project_id == self.project_id,
            copy.application_id == self.application_id,
            copy.event_kind@ == self.event_kind@,
            copy.observed_at == self.observed_at,
            copy.payload == self.payload,
    {
        StoredEvent {
            event_id: self.event_id,
            organization_id: self.organization_id,
            project_id: self.project_id,
            application_id: self.application_id,
            event_kind: self.event_kind.clone(),
            observed_at: self.observed_at,
            payload: driver::copy_json(&self.payload),
        }
    }
}

/// Queries against the `runtime_events` table.
#[derive(Clone, Copy, Debug)]
pub struct EventRepository;

impl EventRepository {
    pub const RECEIVED_WINDOW: &'static str =
        "SELECT min(received_at),max(received_at) FROM runtime_events ";

    /// When the application's earliest and latest retained events were
    /// received; both `None` when it has none.
    pub fn received_window(
        organization_id: Uuid,
        project_id: Uuid,
        application_id: Uuid,
    ) -> (statement: Statement)
        ensures
            statement@ == StatementView::one(
                tenant::application_text(
                    Self::RECEIVED_WINDOW@,
                    Before::Where,
                    ""@,
                    Layout::Tight,
                    After::End,
                    ""@,
                ),
                seq![organization_id.bound(), project_id.bound(), application_id.bound()],
            ),
            tenant::filters_by_application(statement@, organization_id, project_id, application_id),
    {
        proof {
            reveal_strlit("");
        }
        let text = tenant::application(
            Self::RECEIVED_WINDOW,
            Before::Where,
            "",
            Layout::Tight,
            After::End,
            "",
        );
        Statement::one(text.as_str()).bind(organization_id).bind(project_id).bind(application_id)
    }

    pub const OCCURRENCE: &'static str =
        "SELECT e.id,e.event_id,e.observed_at,e.received_at,e.node_name,e.namespace,e.pod_name,e.container_name,e.process_command,e.event_kind,e.payload,COALESCE((SELECT jsonb_build_object('retention_incomplete',o.retention_incomplete,'status',o.status,'candidate_count',o.candidate_count,'tolerance_seconds',o.tolerance_seconds,'related_event_ids',COALESCE((SELECT jsonb_agg(c.kernel_event_id) FROM runtime_event_correlations c WHERE c.lifecycle_event_id=e.id),'[]'::jsonb)) FROM runtime_event_correlation_outcomes o WHERE o.event_id=e.id),jsonb_build_object('status','absent','candidate_count',0,'related_event_ids','[]'::jsonb)) correlation,e.release_id,r.version release_version,CASE WHEN r.id IS NULL THEN 'Unattributed' ELSE release_display_name(a.name,r.source,r.version,r.identity_digest,r.identity_components) END release_display_name FROM runtime_events e LEFT JOIN releases r ON r.id=e.release_id LEFT JOIN applications a ON a.id=r.application_id ";

    pub const OCCURRENCE_TAIL: &'static str = "e.id=$2";

    /// One raw event as an occurrence, within the organization.
    pub fn occurrence(organization_id: Uuid, event_id: Uuid) -> (statement: Statement)
        ensures
            statement@ == StatementView::optional(
                tenant::organization_text(
                    Self::OCCURRENCE@,
                    Before::Where,
                    "e."@,
                    Layout::Tight,
                    After::And,
                    Self::OCCURRENCE_TAIL@,
                ),
                seq![organization_id.bound(), event_id.bound()],
            ),
            tenant::filters_by_organization(statement@, organization_id),
    {
        let text = tenant::organization(
            Self::OCCURRENCE,
            Before::Where,
            "e.",
            Layout::Tight,
            After::And,
            Self::OCCURRENCE_TAIL,
        );
        Statement::optional(text.as_str()).bind(organization_id).bind(event_id)
    }

    pub const RELATED_EVIDENCE: &'static str =
        "SELECT e.id,e.event_id,e.observed_at,e.received_at,e.event_kind,COALESCE(e.payload#>>'{data,source}','unknown') source,e.payload FROM runtime_event_correlations c JOIN runtime_events e ON e.id=CASE WHEN c.lifecycle_event_id=$2 THEN c.kernel_event_id ELSE c.lifecycle_event_id END ";

    pub const RELATED_EVIDENCE_TAIL: &'static str =
        "(c.lifecycle_event_id=$2 OR c.kernel_event_id=$2) ORDER BY e.observed_at,e.received_at,e.id LIMIT $3";

    /// Evidence correlated with one raw event, up to `limit`.
    pub fn related_evidence(
        organization_id: Uuid,
        event_id: Uuid,
        limit: i64,
    ) -> (statement: Statement)
        ensures
            statement@ == StatementView::all(
                tenant::organization_text(
                    Self::RELATED_EVIDENCE@,
                    Before::Where,
                    "c."@,
                    Layout::Tight,
                    After::And,
                    Self::RELATED_EVIDENCE_TAIL@,
                ),
                seq![organization_id.bound(), event_id.bound(), limit.bound()],
            ),
            tenant::filters_by_organization(statement@, organization_id),
    {
        let text = tenant::organization(
            Self::RELATED_EVIDENCE,
            Before::Where,
            "c.",
            Layout::Tight,
            After::And,
            Self::RELATED_EVIDENCE_TAIL,
        );
        Statement::all(text.as_str()).bind(organization_id).bind(event_id).bind(limit)
    }

    pub const RECENT_FOR_APPLICATION: &'static str = r#"
            SELECT event_id, organization_id, project_id, application_id,
                   event_kind, observed_at, payload
            FROM runtime_events
            "#;

    pub const RECENT_FOR_APPLICATION_TAIL: &'static str = r#"event_kind = $4
              AND observed_at >= $5
            ORDER BY observed_at DESC
            LIMIT $6
            "#;

    /// Returns the most recent events of one kind for an application, newest
    /// first.
    ///
    /// `limit` is clamped to `1..=1000` inside the repository so that no call
    /// site can issue an unbounded scan.
    pub fn recent_for_application(
        organization_id: Uuid,
        project_id: Uuid,
        application_id: Uuid,
        event_kind: &str,
        since: Timestamp,
        limit: i64,
    ) -> (statement: Statement)
        ensures
            statement@ == StatementView::all(
                tenant::application_text(
                    Self::RECENT_FOR_APPLICATION@,
                    Before::Where,
                    ""@,
                    Layout::Lines,
                    After::And,
                    Self::RECENT_FOR_APPLICATION_TAIL@,
                ),
                seq![
                    organization_id.bound(),
                    project_id.bound(),
                    application_id.bound(),
                    event_kind.bound(),
                    since.bound(),
                    clamped(limit).bound(),
                ],
            ),
            tenant::filters_by_application(statement@, organization_id, project_id, application_id),
    {
        let text = tenant::application(
            Self::RECENT_FOR_APPLICATION,
            Before::Where,
            "",
            Layout::Lines,
            After::And,
            Self::RECENT_FOR_APPLICATION_TAIL,
        );
        Statement::all(text.as_str())
            .bind(organization_id)
            .bind(project_id)
            .bind(application_id)
            .bind(event_kind)
            .bind(since)
            .bind(clamp(limit))
    }
}

/// The applied limit is never unbounded and never empty, is the given limit
/// wherever that is within bounds, and is the same when applied again.
pub proof fn limit_is_bounded(limit: i64)
    ensures
        1 <= clamped(limit) <= 1000,
        1 <= limit <= 1000 ==> clamped(limit) == limit,
        clamped(clamped(limit)) == clamped(limit),
{
}

/// A larger limit never asks for fewer events.
pub proof fn limit_is_monotone(smaller: i64, larger: i64)
    requires
        smaller <= larger,
    ensures
        clamped(smaller) <= clamped(larger),
{
}

} // verus!
