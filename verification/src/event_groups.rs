//! Runtime event group persistence.
//!
//! A group is the deduplicated unit the product reasons about: many raw
//! `runtime_events` rows collapse onto one `runtime_event_groups` row keyed by
//! a fingerprint. Two independent writers create groups, the live grouping of
//! events and the derived restart-loop projection. Their statements stand side
//! by side here so that the two remain visibly different where they must be and
//! identical where they should be.

use serde_json::Value;
use uuid::Uuid;
use vstd::prelude::*;

#[allow(unused_imports)]
use crate::statement::Bind;
use crate::condition::{Condition, Conditions, Database, Kind, Record, Test};
use crate::condition;
use crate::insert::{Row, RowView, Style};
use crate::insert;
use crate::statement::{Bound, Fetch, Statement, StatementView, Timestamp};
use crate::tenant::{After, Before, Layout, Start};
use crate::tenant;
use crate::text;
use crate::update::{Change, Changes, Form, Otherwise};
use crate::update;
use crate::upsert::{Gap, Table, Target, Upsert, UpsertView};
use crate::upsert;

pub mod aggregates;

verus! {

broadcast use {tenant::known_aliases_name_tables, condition::known_words_are_plain};

/// The columns that uniquely identify a group.
///
/// These are exactly the nine columns of the `runtime_event_groups` unique
/// index, in its order. Passing them as one value rather than nine arguments
/// keeps a caller from silently omitting one: dropping a column here would not
/// widen a query, it would change which row the conflict target matches.
#[derive(Clone, Copy, Debug)]
pub struct GroupKey<'a> {
    pub organization_id: Uuid,
    pub project_id: Uuid,
    pub application_id: Uuid,
    pub cluster_id: Uuid,
    pub namespace: &'a str,
    pub workload_kind: &'a str,
    pub workload_name: &'a str,
    pub fingerprint_version: i16,
    pub fingerprint_digest: &'a [u8],
}

impl<'a> GroupKey<'a> {
    /// The key's nine columns, in the order of the unique index.
    pub open spec fn columns(self) -> Seq<Bound> {
        seq![
            self.organization_id.bound(),
            self.project_id.bound(),
            self.application_id.bound(),
            self.cluster_id.bound(),
            self.namespace.bound(),
            self.workload_kind.bound(),
            self.workload_name.bound(),
            self.fingerprint_version.bound(),
            self.fingerprint_digest.bound(),
        ]
    }
}

/// Queries against `runtime_event_groups` and the tables around it.
#[derive(Clone, Copy, Debug)]
pub struct EventGroupRepository;

impl EventGroupRepository {
    /// The group summary projection.
    pub const SUMMARY_COLUMNS: &'static str =
        "id,project_id,application_id,cluster_id,namespace,workload_kind,workload_name,fingerprint_version,event_kind,semantic_summary,status,first_seen_at,first_seen_event_id,last_seen_at,occurrence_count,representative_event_id,status_changed_at,status_changed_by_user_id AS status_changed_by";

    /// The membership of an event in a group, with its release.
    pub open spec fn release_membership(
        organization_id: Uuid,
        project_id: Uuid,
        application_id: Uuid,
        event_id: Uuid,
        group_id: Uuid,
        fingerprint_version: i16,
        release_id: Option<Uuid>,
    ) -> UpsertView {
        upsert::upsert(Style::Mixed, Target::Spaced, "runtime_event_group_memberships"@)
            .kept("organization_id"@, organization_id.bound())
            .kept("project_id"@, project_id.bound())
            .kept("application_id"@, application_id.bound())
            .key("event_id"@, event_id.bound())
            .kept("group_id"@, group_id.bound())
            .key("fingerprint_version"@, fingerprint_version.bound())
            .kept("release_id"@, release_id.bound())
    }

    /// Makes an event a member of a group under a fingerprint version, with
    /// its release, once; `None` when it already was.
    pub fn add_release_membership(
        organization_id: Uuid,
        project_id: Uuid,
        application_id: Uuid,
        event_id: Uuid,
        group_id: Uuid,
        fingerprint_version: i16,
        release_id: Option<Uuid>,
    ) -> (statement: Statement)
        ensures
            statement@ == Self::release_membership(
                organization_id,
                project_id,
                application_id,
                event_id,
                group_id,
                fingerprint_version,
                release_id,
            ).finish_once(" RETURNING event_id"@, Fetch::Optional),
    {
        Upsert::new(Style::Mixed, Target::Spaced, "runtime_event_group_memberships")
            .kept("organization_id", organization_id)
            .kept("project_id", project_id)
            .kept("application_id", application_id)
            .key("event_id", event_id)
            .kept("group_id", group_id)
            .key("fingerprint_version", fingerprint_version)
            .kept("release_id", release_id)
            .finish_once(" RETURNING event_id", Fetch::Optional)
    }

    /// An occurrence of a group in a release.
    pub open spec fn release_occurrence(
        organization_id: Uuid,
        project_id: Uuid,
        application_id: Uuid,
        release_id: Uuid,
        group_id: Uuid,
        observed_at: Timestamp,
        event_id: Uuid,
    ) -> UpsertView {
        upsert::upsert(Style::Open, Target::Open, "runtime_event_group_releases"@)
            .kept("organization_id"@, organization_id.bound())
            .kept("project_id"@, project_id.bound())
            .kept("application_id"@, application_id.bound())
            .key("release_id"@, release_id.bound())
            .key("group_id"@, group_id.bound())
            .counted("occurrence_count"@)
            .earliest("first_seen_at"@, observed_at.bound())
            .latest_again("last_seen_at"@, 6)
            .newest_early("representative_event_id"@, event_id.bound(), 7)
    }

    /// Counts an occurrence of a group in a release, widening its seen
    /// window and making the event its representative when it is the latest:
    /// none was seen later, or there is no representative yet.
    pub fn record_release_occurrence(
        organization_id: Uuid,
        project_id: Uuid,
        application_id: Uuid,
        release_id: Uuid,
        group_id: Uuid,
        observed_at: Timestamp,
        event_id: Uuid,
    ) -> (statement: Statement)
        ensures
            statement@ == Self::release_occurrence(
                organization_id,
                project_id,
                application_id,
                release_id,
                group_id,
                observed_at,
                event_id,
            ).finish(",updated_at=now()"@, Fetch::Affected),
    {
        Upsert::new(Style::Open, Target::Open, "runtime_event_group_releases")
            .kept("organization_id", organization_id)
            .kept("project_id", project_id)
            .kept("application_id", application_id)
            .key("release_id", release_id)
            .key("group_id", group_id)
            .counted("occurrence_count")
            .earliest("first_seen_at", observed_at)
            .latest_again("last_seen_at", 6)
            .newest_early("representative_event_id", event_id, 7, "last_seen_at")
            .finish(",updated_at=now()", Fetch::Affected)
    }

    pub const EVIDENCE_COUNTS: &'static str =
        "SELECT (SELECT count(*) FROM runtime_event_group_memberships ";

    pub const EVIDENCE_COUNTS_SNAPSHOTS: &'static str =
        "+(SELECT COALESCE(sum(occurrence_count),0)::bigint FROM runtime_history_snapshots ";

    pub const EVIDENCE_COUNTS_GROUPS: &'static str =
        ",(SELECT COALESCE(sum(occurrence_count),0)::bigint FROM runtime_event_groups ";

    /// The application's group memberships plus snapshot occurrences, and
    /// the total occurrence count of its groups.
    pub fn evidence_counts(
        organization_id: Uuid,
        project_id: Uuid,
        application_id: Uuid,
    ) -> (statement: Statement)
        ensures
            statement@ == StatementView::one(
                tenant::application_text(
                    Self::EVIDENCE_COUNTS@,
                    Before::Where,
                    ""@,
                    Layout::Tight,
                    After::Parenthesis,
                    tenant::application_text(
                        Self::EVIDENCE_COUNTS_SNAPSHOTS@,
                        Before::Where,
                        ""@,
                        Layout::Tight,
                        After::Parenthesis,
                        tenant::application_text(
                            Self::EVIDENCE_COUNTS_GROUPS@,
                            Before::Where,
                            ""@,
                            Layout::Tight,
                            After::Parenthesis,
                            ""@,
                        ),
                    ),
                ),
                seq![organization_id.bound(), project_id.bound(), application_id.bound()],
            ),
            tenant::filters_by_application(statement@, organization_id, project_id, application_id),
    {
        let rest = tenant::application(
            Self::EVIDENCE_COUNTS_GROUPS,
            Before::Where,
            "",
            Layout::Tight,
            After::Parenthesis,
            "",
        );
        let rest = tenant::application(
            Self::EVIDENCE_COUNTS_SNAPSHOTS,
            Before::Where,
            "",
            Layout::Tight,
            After::Parenthesis,
            rest.as_str(),
        );
        let text = tenant::application(
            Self::EVIDENCE_COUNTS,
            Before::Where,
            "",
            Layout::Tight,
            After::Parenthesis,
            rest.as_str(),
        );
        Statement::one(text.as_str()).bind(organization_id).bind(project_id).bind(application_id)
    }

    pub const RELEASE_ROLLUP_COUNT: &'static str =
        "SELECT count(*) FROM runtime_event_group_releases";

    /// How many per-release group rollups exist.
    pub fn release_rollup_count() -> (statement: Statement)
        ensures
            statement@ == StatementView::one(Self::RELEASE_ROLLUP_COUNT@, seq![]),
    {
        Statement::one(Self::RELEASE_ROLLUP_COUNT)
    }

    pub const ADD_MEMBERSHIP: &'static str = " ON CONFLICT DO NOTHING";

    /// Makes an event a member of a group, once.
    pub fn add_membership(
        organization_id: Uuid,
        project_id: Uuid,
        application_id: Uuid,
        event_id: Uuid,
        group_id: Uuid,
        fingerprint_version: i16,
    ) -> (statement: Statement)
        ensures
            statement@ == insert::row(Style::Open, "runtime_event_group_memberships"@)
                .set("organization_id"@, organization_id.bound())
                .set("project_id"@, project_id.bound())
                .set("application_id"@, application_id.bound())
                .set("event_id"@, event_id.bound())
                .set("group_id"@, group_id.bound())
                .set("fingerprint_version"@, fingerprint_version.bound())
                .finish(Self::ADD_MEMBERSHIP@, Fetch::Affected),
    {
        Row::new(Style::Open, "runtime_event_group_memberships")
            .set("organization_id", organization_id)
            .set("project_id", project_id)
            .set("application_id", application_id)
            .set("event_id", event_id)
            .set("group_id", group_id)
            .set("fingerprint_version", fingerprint_version)
            .finish(Self::ADD_MEMBERSHIP, Fetch::Affected)
    }

    pub const NOTIFICATION_ELIGIBILITY: &'static str =
        "SELECT CASE WHEN s.id IS NOT NULL THEN 'active_suppression' WHEN e.group_id IS NULL OR e.policy_state_version<>COALESCE(ps.state_version,0) OR e.evaluator_version<>$3 THEN 'evaluation_pending' WHEN e.verdict='expected' THEN 'expected' ELSE 'eligible' END reason,now() evaluated_at,CASE WHEN e.policy_state_version=COALESCE(ps.state_version,0) AND e.evaluator_version=$3 THEN e.winning_revision_id END policy_revision_id,s.id policy_suppression_id FROM runtime_event_groups g LEFT JOIN runtime_group_policy_evaluations e ON e.group_id=g.id LEFT JOIN runtime_policy_states ps ON ps.organization_id=g.organization_id AND ps.project_id=g.project_id AND ps.application_id=g.application_id LEFT JOIN LATERAL (SELECT x.id FROM runtime_inventory_group_links gl JOIN runtime_inventory_items i ON i.id=gl.item_id JOIN runtime_policy_suppressions x ON x.organization_id=i.organization_id AND x.project_id=i.project_id AND x.application_id=i.application_id AND x.identity_version=i.identity_version AND x.identity_digest=i.identity_digest WHERE gl.group_id=g.id AND x.cancelled_at IS NULL AND x.expires_at>now() AND (cardinality(x.cluster_ids)=0 OR g.cluster_id=ANY(x.cluster_ids)) AND (cardinality(x.namespaces)=0 OR g.namespace=ANY(x.namespaces)) AND (cardinality(x.workload_kinds)=0 OR g.workload_kind=ANY(x.workload_kinds)) AND (cardinality(x.workload_names)=0 OR g.workload_name=ANY(x.workload_names)) ORDER BY x.expires_at,x.id LIMIT 1) s ON true ";

    pub const NOTIFICATION_ELIGIBILITY_TAIL: &'static str = "g.id=$2";

    /// Whether a group's first sighting should be notified under its current
    /// policy state: `active_suppression`, `evaluation_pending`, `expected`
    /// or `eligible`, with the winning revision and suppression behind it.
    ///
    /// Selects `reason`, `evaluated_at`, `policy_revision_id` and
    /// `policy_suppression_id`.
    pub fn notification_eligibility(
        organization_id: Uuid,
        group_id: Uuid,
        evaluator_version: i16,
    ) -> (statement: Statement)
        ensures
            statement@ == StatementView::one(
                tenant::organization_text(
                    Self::NOTIFICATION_ELIGIBILITY@,
                    Before::Where,
                    "g."@,
                    Layout::Tight,
                    After::And,
                    Self::NOTIFICATION_ELIGIBILITY_TAIL@,
                ),
                seq![organization_id.bound(), group_id.bound(), evaluator_version.bound()],
            ),
            tenant::filters_by_organization(statement@, organization_id),
    {
        let text = tenant::organization(
            Self::NOTIFICATION_ELIGIBILITY,
            Before::Where,
            "g.",
            Layout::Tight,
            After::And,
            Self::NOTIFICATION_ELIGIBILITY_TAIL,
        );
        Statement::one(text.as_str()).bind(organization_id).bind(group_id).bind(evaluator_version)
    }

    pub const USER_LABELS_JSON: &'static str =
        "SELECT COALESCE(jsonb_agg(label ORDER BY label->>'display_name',label->>'updated_at'),'[]'::jsonb) FROM (SELECT jsonb_build_object('display_name',l.display_name,'created_by_user_id',l.created_by_user_id,'updated_by_user_id',l.updated_by_user_id,'created_at',l.created_at,'updated_at',l.updated_at) label FROM runtime_inventory_group_links gl JOIN runtime_inventory_items i ON i.id=gl.item_id JOIN runtime_behavior_user_labels l ON l.organization_id=i.organization_id AND l.project_id=i.project_id AND l.application_id=i.application_id AND l.inventory_kind=i.inventory_kind AND l.identity_version=i.identity_version AND l.identity_digest=i.identity_digest ";

    pub const USER_LABELS_JSON_TAIL: &'static str =
        "gl.group_id=$2 ORDER BY l.display_name,l.id LIMIT 20) labels";

    /// Up to 20 user labels on the inventory items behind a group, as a JSON
    /// array ordered by display name.
    pub fn user_labels_json(organization_id: Uuid, group_id: Uuid) -> (statement: Statement)
        ensures
            statement@ == StatementView::one(
                tenant::organization_text(
                    Self::USER_LABELS_JSON@,
                    Before::Where,
                    "gl."@,
                    Layout::Tight,
                    After::And,
                    Self::USER_LABELS_JSON_TAIL@,
                ),
                seq![organization_id.bound(), group_id.bound()],
            ),
            tenant::filters_by_organization(statement@, organization_id),
    {
        let text = tenant::organization(
            Self::USER_LABELS_JSON,
            Before::Where,
            "gl.",
            Layout::Tight,
            After::And,
            Self::USER_LABELS_JSON_TAIL,
        );
        Statement::one(text.as_str()).bind(organization_id).bind(group_id)
    }

    pub const USER_LABELS: &'static str =
        "SELECT gl.group_id,jsonb_agg(jsonb_build_object('display_name',l.display_name,'created_by_user_id',l.created_by_user_id,'updated_by_user_id',l.updated_by_user_id,'created_at',l.created_at,'updated_at',l.updated_at) ORDER BY l.display_name,l.id) user_labels FROM runtime_inventory_group_links gl JOIN runtime_inventory_items i ON i.id=gl.item_id JOIN runtime_behavior_user_labels l ON l.organization_id=i.organization_id AND l.project_id=i.project_id AND l.application_id=i.application_id AND l.inventory_kind=i.inventory_kind AND l.identity_version=i.identity_version AND l.identity_digest=i.identity_digest ";

    pub const USER_LABELS_TAIL: &'static str = "gl.group_id=ANY($2) GROUP BY gl.group_id";

    /// The user-assigned behaviour labels attached to each of the given
    /// groups through their inventory items, one row per group.
    pub fn user_labels(organization_id: Uuid, group_ids: Vec<Uuid>) -> (statement: Statement)
        ensures
            statement@ == StatementView::all(
                tenant::organization_text(
                    Self::USER_LABELS@,
                    Before::Where,
                    "gl."@,
                    Layout::Tight,
                    After::And,
                    Self::USER_LABELS_TAIL@,
                ),
                seq![organization_id.bound(), group_ids.bound()],
            ),
            tenant::filters_by_organization(statement@, organization_id),
    {
        let text = tenant::organization(
            Self::USER_LABELS,
            Before::Where,
            "gl.",
            Layout::Tight,
            After::And,
            Self::USER_LABELS_TAIL,
        );
        Statement::all(text.as_str()).bind(organization_id).bind(group_ids)
    }

    pub const POLICY_STATES: &'static str =
        "SELECT g.id group_id,jsonb_build_object('state',CASE WHEN e.group_id IS NULL OR e.policy_state_version<>COALESCE(ps.state_version,0) OR e.evaluator_version<>$3 THEN 'evaluation_pending' ELSE 'current' END,'verdict',CASE WHEN e.group_id IS NULL OR e.policy_state_version<>COALESCE(ps.state_version,0) OR e.evaluator_version<>$3 THEN NULL ELSE e.verdict END,'reason_code',CASE WHEN e.group_id IS NULL OR e.policy_state_version<>COALESCE(ps.state_version,0) OR e.evaluator_version<>$3 THEN 'evaluation_pending' ELSE e.reason_code END,'winning_revision_id',CASE WHEN e.policy_state_version=COALESCE(ps.state_version,0) AND e.evaluator_version=$3 THEN e.winning_revision_id END,'explanation',CASE WHEN e.policy_state_version=COALESCE(ps.state_version,0) AND e.evaluator_version=$3 THEN e.explanation ELSE '{}'::jsonb END,'evaluated_at',CASE WHEN e.policy_state_version=COALESCE(ps.state_version,0) AND e.evaluator_version=$3 THEN e.evaluated_at END) policy_evaluation,s.summary active_suppression,(s.summary IS NULL AND (e.group_id IS NULL OR e.policy_state_version<>COALESCE(ps.state_version,0) OR e.evaluator_version<>$3 OR e.verdict<>'expected')) actionable FROM runtime_event_groups g LEFT JOIN runtime_group_policy_evaluations e ON e.group_id=g.id LEFT JOIN runtime_policy_states ps ON ps.organization_id=g.organization_id AND ps.project_id=g.project_id AND ps.application_id=g.application_id LEFT JOIN LATERAL (SELECT jsonb_build_object('id',x.id,'reason',x.reason,'expires_at',x.expires_at,'created_at',x.created_at) summary FROM runtime_inventory_group_links gl JOIN runtime_inventory_items i ON i.id=gl.item_id JOIN runtime_policy_suppressions x ON x.organization_id=i.organization_id AND x.project_id=i.project_id AND x.application_id=i.application_id AND x.identity_version=i.identity_version AND x.identity_digest=i.identity_digest WHERE gl.group_id=g.id AND x.cancelled_at IS NULL AND x.expires_at>now() AND (cardinality(x.cluster_ids)=0 OR g.cluster_id=ANY(x.cluster_ids)) AND (cardinality(x.namespaces)=0 OR g.namespace=ANY(x.namespaces)) AND (cardinality(x.workload_kinds)=0 OR g.workload_kind=ANY(x.workload_kinds)) AND (cardinality(x.workload_names)=0 OR g.workload_name=ANY(x.workload_names)) ORDER BY (cardinality(x.cluster_ids)>0)::int+(cardinality(x.namespaces)>0)::int+(cardinality(x.workload_kinds)>0)::int+(cardinality(x.workload_names)>0)::int DESC,x.expires_at,x.id LIMIT 1) s ON true ";

    pub const POLICY_STATES_TAIL: &'static str = "g.id=ANY($2)";

    /// The current policy verdict of each of the given groups, as a JSON
    /// object per group. A verdict computed by an older evaluator or against
    /// an older policy state is reported as pending rather than as current.
    pub fn policy_states(
        organization_id: Uuid,
        group_ids: &[Uuid],
        evaluator_version: i16,
    ) -> (statement: Statement)
        ensures
            statement@ == StatementView::all(
                tenant::organization_text(
                    Self::POLICY_STATES@,
                    Before::Where,
                    "g."@,
                    Layout::Tight,
                    After::And,
                    Self::POLICY_STATES_TAIL@,
                ),
                seq![organization_id.bound(), group_ids.bound(), evaluator_version.bound()],
            ),
            tenant::filters_by_organization(statement@, organization_id),
    {
        let text = tenant::organization(
            Self::POLICY_STATES,
            Before::Where,
            "g.",
            Layout::Tight,
            After::And,
            Self::POLICY_STATES_TAIL,
        );
        Statement::all(text.as_str()).bind(organization_id).bind(group_ids).bind(evaluator_version)
    }

    pub const LIST_CURSOR: &'static str =
        "SELECT last_seen_at,id FROM runtime_event_groups WHERE id=$1 ";

    /// Resolves a group id used as a list cursor into its
    /// `(last_seen_at, id)` ordering key, within the application.
    pub fn list_cursor(
        group_id: Uuid,
        organization_id: Uuid,
        project_id: Uuid,
        application_id: Uuid,
    ) -> (statement: Statement)
        ensures
            statement@ == StatementView::optional(
                tenant::application_text_from(
                    Start::Second,
                    Self::LIST_CURSOR@,
                    Before::And,
                    ""@,
                    Layout::Tight,
                    After::End,
                    ""@,
                ),
                seq![
                    group_id.bound(),
                    organization_id.bound(),
                    project_id.bound(),
                    application_id.bound(),
                ],
            ),
            tenant::filters_by_application_from(
                statement@,
                Start::Second,
                organization_id,
                project_id,
                application_id,
            ),
    {
        proof {
            reveal_strlit("");
        }
        let text = tenant::application_from(
            Start::Second,
            Self::LIST_CURSOR,
            Before::And,
            "",
            Layout::Tight,
            After::End,
            "",
        );
        Statement::optional(text.as_str())
            .bind(group_id)
            .bind(organization_id)
            .bind(project_id)
            .bind(application_id)
    }

    pub const SUMMARY_PAGE: &'static str = "runtime_event_groups g ";

    pub const SUMMARY_PAGE_TAIL: &'static str = " ORDER BY last_seen_at DESC,id DESC LIMIT $16";

    /// Whether the group was seen in the release at `$13`.
    pub const IS_IN_RELEASE: &'static str =
        "EXISTS (SELECT 1 FROM runtime_event_group_releases gr WHERE gr.group_id=g.id AND gr.release_id=$13)";

    /// The conditions on a group of a page, besides the path.
    pub open spec fn summary_filters() -> Seq<Condition> {
        seq![
            Condition::ComparedIfGiven("event_kind"@, Test::Equal, Kind::Text, 4),
            Condition::ComparedIfGiven("status"@, Test::Equal, Kind::Text, 5),
            Condition::ComparedIfGiven("namespace"@, Test::Equal, Kind::Text, 6),
            Condition::ComparedIfGiven("workload_kind"@, Test::Equal, Kind::Text, 7),
            Condition::ComparedIfGiven("workload_name"@, Test::Equal, Kind::Text, 8),
            Condition::ComparedIfGiven("last_seen_at"@, Test::From, Kind::Timestamp, 9),
            Condition::ComparedIfGiven("first_seen_at"@, Test::From, Kind::Timestamp, 10),
            Condition::ComparedIfGiven("first_seen_at"@, Test::UpTo, Kind::Timestamp, 11),
            Condition::ComparedIfGiven("last_seen_at"@, Test::UpTo, Kind::Timestamp, 12),
            Condition::AskedIfGiven(Self::IS_IN_RELEASE@, Kind::Uuid, 13),
            Condition::PairIfGiven(
                "last_seen_at"@,
                "id"@,
                Test::Below,
                Kind::Timestamp,
                14,
                15,
            ),
        ]
    }

    /// A page of an application's groups, most recently seen first, under
    /// the list filters, after the cursor's `(last_seen_at, id)` when one is
    /// given. Selects the columns of the runtime groups API's group summary.
    pub fn summary_page(
        organization_id: Uuid,
        project_id: Uuid,
        application_id: Uuid,
        event_kind: Option<String>,
        status: Option<String>,
        namespace: Option<String>,
        workload_kind: Option<String>,
        workload_name: Option<String>,
        since: Option<Timestamp>,
        first_seen_from: Option<Timestamp>,
        first_seen_to: Option<Timestamp>,
        last_seen_to: Option<Timestamp>,
        release_id: Option<Uuid>,
        cursor_last_seen_at: Option<Timestamp>,
        cursor_id: Option<Uuid>,
        fetch_limit: i64,
    ) -> (statement: Statement)
        ensures
            statement@ == StatementView::all(
                text::select_text(
                    Self::SUMMARY_COLUMNS@,
                    tenant::application_text(
                        Self::SUMMARY_PAGE@,
                        Before::Where,
                        ""@,
                        Layout::Tight,
                        After::And,
                        condition::all_text(Self::summary_filters()) + Self::SUMMARY_PAGE_TAIL@,
                    ),
                ),
                seq![
                    organization_id.bound(),
                    project_id.bound(),
                    application_id.bound(),
                    event_kind.bound(),
                    status.bound(),
                    namespace.bound(),
                    workload_kind.bound(),
                    workload_name.bound(),
                    since.bound(),
                    first_seen_from.bound(),
                    first_seen_to.bound(),
                    last_seen_to.bound(),
                    release_id.bound(),
                    cursor_last_seen_at.bound(),
                    cursor_id.bound(),
                    fetch_limit.bound(),
                ],
            ),
            tenant::filters_by_application(statement@, organization_id, project_id, application_id),
            text::gives(statement@.text, Self::SUMMARY_COLUMNS@),
    {
        let conditions = Conditions::new()
            .compared_if_given("event_kind", Test::Equal, Kind::Text, 4)
            .compared_if_given("status", Test::Equal, Kind::Text, 5)
            .compared_if_given("namespace", Test::Equal, Kind::Text, 6)
            .compared_if_given("workload_kind", Test::Equal, Kind::Text, 7)
            .compared_if_given("workload_name", Test::Equal, Kind::Text, 8)
            .compared_if_given("last_seen_at", Test::From, Kind::Timestamp, 9)
            .compared_if_given("first_seen_at", Test::From, Kind::Timestamp, 10)
            .compared_if_given("first_seen_at", Test::UpTo, Kind::Timestamp, 11)
            .compared_if_given("last_seen_at", Test::UpTo, Kind::Timestamp, 12)
            .asked_if_given(Self::IS_IN_RELEASE, Kind::Uuid, 13)
            .pair_if_given("last_seen_at", "id", Test::Below, Kind::Timestamp, 14, 15);
        assert(conditions@ =~= Self::summary_filters());
        let tail = conditions.into_text().concat(Self::SUMMARY_PAGE_TAIL);
        let rows = tenant::application(
            Self::SUMMARY_PAGE,
            Before::Where,
            "",
            Layout::Tight,
            After::And,
            tail.as_str(),
        );
        let text = text::select(Self::SUMMARY_COLUMNS, rows.as_str());
        Statement::all(text.as_str())
            .bind(organization_id)
            .bind(project_id)
            .bind(application_id)
            .bind(event_kind)
            .bind(status)
            .bind(namespace)
            .bind(workload_kind)
            .bind(workload_name)
            .bind(since)
            .bind(first_seen_from)
            .bind(first_seen_to)
            .bind(last_seen_to)
            .bind(release_id)
            .bind(cursor_last_seen_at)
            .bind(cursor_id)
            .bind(fetch_limit)
    }

    pub const SUMMARY: &'static str = "runtime_event_groups ";

    pub const SUMMARY_TAIL: &'static str = "id=$2";

    /// One group with the same columns as [`Self::summary_page`].
    pub fn summary(organization_id: Uuid, group_id: Uuid) -> (statement: Statement)
        ensures
            statement@ == StatementView::optional(
                text::select_text(
                    Self::SUMMARY_COLUMNS@,
                    tenant::organization_text(
                        Self::SUMMARY@,
                        Before::Where,
                        ""@,
                        Layout::Tight,
                        After::And,
                        Self::SUMMARY_TAIL@,
                    ),
                ),
                seq![organization_id.bound(), group_id.bound()],
            ),
            tenant::filters_by_organization(statement@, organization_id),
            text::gives(statement@.text, Self::SUMMARY_COLUMNS@),
    {
        let rows = tenant::organization(
            Self::SUMMARY,
            Before::Where,
            "",
            Layout::Tight,
            After::And,
            Self::SUMMARY_TAIL,
        );
        let text = text::select(Self::SUMMARY_COLUMNS, rows.as_str());
        Statement::optional(text.as_str()).bind(organization_id).bind(group_id)
    }

    pub const OCCURRENCE_CURSOR: &'static str =
        "SELECT e.received_at,e.observed_at,e.id FROM runtime_event_group_memberships m JOIN runtime_events e ON e.id=m.event_id ";

    pub const OCCURRENCE_CURSOR_TAIL: &'static str = "m.group_id=$2 AND e.id=$3";

    /// Resolves an event id used as an occurrence cursor into its
    /// `(received_at, observed_at, id)` ordering key, within the group.
    pub fn occurrence_cursor(
        organization_id: Uuid,
        group_id: Uuid,
        event_id: Uuid,
    ) -> (statement: Statement)
        ensures
            statement@ == StatementView::optional(
                tenant::organization_text(
                    Self::OCCURRENCE_CURSOR@,
                    Before::Where,
                    "m."@,
                    Layout::Tight,
                    After::And,
                    Self::OCCURRENCE_CURSOR_TAIL@,
                ),
                seq![organization_id.bound(), group_id.bound(), event_id.bound()],
            ),
            tenant::filters_by_organization(statement@, organization_id),
    {
        let text = tenant::organization(
            Self::OCCURRENCE_CURSOR,
            Before::Where,
            "m.",
            Layout::Tight,
            After::And,
            Self::OCCURRENCE_CURSOR_TAIL,
        );
        Statement::optional(text.as_str()).bind(organization_id).bind(group_id).bind(event_id)
    }

    pub const OCCURRENCE_PAGE: &'static str =
        "SELECT e.id,e.event_id,e.observed_at,e.received_at,e.node_name,e.namespace,e.pod_name,e.container_name,e.process_command,CASE WHEN g.event_kind='container.restart_loop' THEN g.event_kind ELSE e.event_kind END event_kind,CASE WHEN g.event_kind='container.restart_loop' THEN jsonb_build_object('type','ContainerRestartLoop','data',g.semantic_summary) ELSE e.payload END payload,COALESCE((SELECT jsonb_build_object('retention_incomplete',o.retention_incomplete,'status',o.status,'candidate_count',o.candidate_count,'tolerance_seconds',o.tolerance_seconds,'related_event_ids',COALESCE((SELECT jsonb_agg(c.kernel_event_id) FROM runtime_event_correlations c WHERE c.lifecycle_event_id=e.id),'[]'::jsonb)) FROM runtime_event_correlation_outcomes o WHERE o.event_id=e.id),jsonb_build_object('status','absent','candidate_count',0,'related_event_ids','[]'::jsonb)) correlation,e.release_id,r.version release_version,CASE WHEN r.id IS NULL THEN 'Unattributed' ELSE release_display_name(a.name,r.source,r.version,r.identity_digest,r.identity_components) END release_display_name FROM runtime_event_group_memberships m JOIN runtime_event_groups g ON g.id=m.group_id AND g.organization_id=m.organization_id JOIN runtime_events e ON e.id=m.event_id AND e.organization_id=m.organization_id LEFT JOIN releases r ON r.id=e.release_id LEFT JOIN applications a ON a.id=r.application_id ";

    pub const OCCURRENCE_PAGE_TAIL: &'static str =
        "m.group_id=$2 AND ($3::timestamptz IS NULL OR (e.received_at,e.observed_at,e.id)<($3,$4,$5)) ORDER BY e.received_at DESC,e.observed_at DESC,e.id DESC LIMIT $6";

    /// A page of the raw events grouped into a group, newest first, after
    /// the cursor when one is given.
    pub fn occurrence_page(
        organization_id: Uuid,
        group_id: Uuid,
        cursor_received_at: Option<Timestamp>,
        cursor_observed_at: Option<Timestamp>,
        cursor_id: Option<Uuid>,
        fetch_limit: i64,
    ) -> (statement: Statement)
        ensures
            statement@ == StatementView::all(
                tenant::organization_text(
                    Self::OCCURRENCE_PAGE@,
                    Before::Where,
                    "m."@,
                    Layout::Tight,
                    After::And,
                    Self::OCCURRENCE_PAGE_TAIL@,
                ),
                seq![
                    organization_id.bound(),
                    group_id.bound(),
                    cursor_received_at.bound(),
                    cursor_observed_at.bound(),
                    cursor_id.bound(),
                    fetch_limit.bound(),
                ],
            ),
            tenant::filters_by_organization(statement@, organization_id),
    {
        let text = tenant::organization(
            Self::OCCURRENCE_PAGE,
            Before::Where,
            "m.",
            Layout::Tight,
            After::And,
            Self::OCCURRENCE_PAGE_TAIL,
        );
        Statement::all(text.as_str())
            .bind(organization_id)
            .bind(group_id)
            .bind(cursor_received_at)
            .bind(cursor_observed_at)
            .bind(cursor_id)
            .bind(fetch_limit)
    }

    pub const SET_STATUS: &'static str = "UPDATE runtime_event_groups SET ";

    /// What a change of status changes.
    pub open spec fn status_change() -> Seq<Change> {
        seq![
            Change::Given("status"@, 3),
            Change::KeptIfSame("status_changed_at"@, "status"@, 3, Otherwise::Now),
            Change::KeptIfSame("status_changed_by_user_id"@, "status"@, 3, Otherwise::Given(4)),
            Change::KeptIfSame("status_changed_by_kind"@, "status"@, 3, Otherwise::Word("user"@)),
            Change::KeptIfSame("updated_at"@, "status"@, 3, Otherwise::Now),
        ]
    }

    /// The conditions that a change of status is allowed by, besides the
    /// organization.
    pub open spec fn status_conditions() -> Seq<Condition> {
        seq![
            Condition::Compared("id"@, Test::Equal, 2),
            Condition::EqualOrAmong("status"@, 3, 5),
        ]
    }

    /// Moves a group to `status` and records who did it, provided its current
    /// status is one of `allowed`; returns the updated summary, or `None`
    /// when the transition is not allowed from the current status. Setting
    /// the status it already has keeps the original change time.
    pub fn set_status(
        organization_id: Uuid,
        group_id: Uuid,
        status: &str,
        actor_user_id: Uuid,
        allowed: &[&str],
    ) -> (statement: Statement)
        ensures
            statement@ == StatementView::optional(
                text::returning_text(
                    tenant::organization_text(
                        Self::SET_STATUS@ + update::all_text(Self::status_change(), Form::Tight)
                            + " "@,
                        Before::Where,
                        ""@,
                        Layout::Tight,
                        After::And,
                        condition::all_text(Self::status_conditions()),
                    ),
                    Self::SUMMARY_COLUMNS@,
                ),
                seq![
                    organization_id.bound(),
                    group_id.bound(),
                    status.bound(),
                    actor_user_id.bound(),
                    allowed.bound(),
                ],
            ),
            tenant::filters_by_organization(statement@, organization_id),
            text::gives(statement@.text, Self::SUMMARY_COLUMNS@),
    {
        let changes = Changes::new(Form::Tight)
            .given("status", 3)
            .now_if_other("status_changed_at", "status", 3)
            .given_if_other("status_changed_by_user_id", "status", 3, 4)
            .word_if_other("status_changed_by_kind", "status", 3, "user")
            .now_if_other("updated_at", "status", 3);
        let conditions = Conditions::new()
            .compared("id", Test::Equal, 2)
            .equal_or_among("status", 3, 5);
        assert(changes@ =~= Self::status_change());
        assert(conditions@ =~= Self::status_conditions());
        let head = text::join(Self::SET_STATUS, changes.into_text().as_str()).concat(" ");
        let tail = conditions.into_text();
        let update = tenant::organization(
            head.as_str(),
            Before::Where,
            "",
            Layout::Tight,
            After::And,
            tail.as_str(),
        );
        let text = text::returning(update.as_str(), Self::SUMMARY_COLUMNS);
        Statement::optional(text.as_str())
            .bind(organization_id)
            .bind(group_id)
            .bind(status)
            .bind(actor_user_id)
            .bind(allowed)
    }

    pub const STATUS: &'static str = "SELECT status FROM runtime_event_groups ";

    pub const STATUS_TAIL: &'static str = "id=$2";

    /// The group's current status.
    pub fn status(organization_id: Uuid, group_id: Uuid) -> (statement: Statement)
        ensures
            statement@ == StatementView::optional(
                tenant::organization_text(
                    Self::STATUS@,
                    Before::Where,
                    ""@,
                    Layout::Tight,
                    After::And,
                    Self::STATUS_TAIL@,
                ),
                seq![organization_id.bound(), group_id.bound()],
            ),
            tenant::filters_by_organization(statement@, organization_id),
    {
        let text = tenant::organization(
            Self::STATUS,
            Before::Where,
            "",
            Layout::Tight,
            After::And,
            Self::STATUS_TAIL,
        );
        Statement::optional(text.as_str()).bind(organization_id).bind(group_id)
    }

    pub const NOTIFICATION_SUMMARY: &'static str =
        "SELECT CASE WHEN o.completion_reason='expected' THEN 'policy_expected' WHEN o.completion_reason='active_suppression' THEN 'temporary_policy_suppressed' WHEN o.completion_reason='backfill_suppressed' OR o.source='backfill' AND count(d.id) FILTER(WHERE d.status<>'suppressed')=0 THEN 'backfill_suppressed' WHEN count(d.id)=0 AND o.processed_at IS NOT NULL THEN 'not_configured' WHEN count(d.id) FILTER (WHERE d.status IN ('pending','in_flight'))>0 THEN CASE WHEN count(d.id) FILTER (WHERE d.status='in_flight')>0 THEN 'delivering' ELSE 'pending' END WHEN count(d.id) FILTER (WHERE d.status='succeeded')>0 THEN 'delivered' WHEN count(d.id) FILTER (WHERE d.status IN ('failed','cancelled','suppressed'))>0 THEN 'terminally_failed' ELSE 'pending' END state,count(d.id)::bigint delivery_count,count(d.id) FILTER (WHERE d.status='succeeded')::bigint succeeded_count,count(d.id) FILTER (WHERE d.status IN ('failed','cancelled','suppressed'))::bigint failed_count FROM outbox_messages o LEFT JOIN notification_deliveries d ON d.outbox_message_id=o.id ";

    pub const NOTIFICATION_SUMMARY_TAIL: &'static str =
        "o.aggregate_id=$2 AND o.topic='runtime_group.first_seen' GROUP BY o.id,o.source,o.processed_at,o.completion_reason";

    /// The notification state of a group: whether its first sighting has been
    /// delivered, and the outcome of its deliveries.
    pub fn notification_summary(organization_id: Uuid, group_id: Uuid) -> (statement: Statement)
        ensures
            statement@ == StatementView::optional(
                tenant::organization_text(
                    Self::NOTIFICATION_SUMMARY@,
                    Before::Where,
                    "o."@,
                    Layout::Tight,
                    After::And,
                    Self::NOTIFICATION_SUMMARY_TAIL@,
                ),
                seq![organization_id.bound(), group_id.bound()],
            ),
            tenant::filters_by_organization(statement@, organization_id),
    {
        let text = tenant::organization(
            Self::NOTIFICATION_SUMMARY,
            Before::Where,
            "o.",
            Layout::Tight,
            After::And,
            Self::NOTIFICATION_SUMMARY_TAIL,
        );
        Statement::optional(text.as_str()).bind(organization_id).bind(group_id)
    }

    pub const RELATED_EVIDENCE: &'static str =
        "SELECT e.id,e.event_id,e.observed_at,e.received_at,e.event_kind,COALESCE(e.payload#>>'{data,source}','unknown') source,e.payload FROM runtime_restart_loop_projections p JOIN runtime_restart_projection_memberships m ON m.organization_id=p.organization_id AND m.project_id=p.project_id AND m.projection_version=p.projection_version JOIN runtime_events e ON e.id=m.event_id AND e.organization_id=p.organization_id AND e.project_id=p.project_id AND e.application_id=p.application_id AND e.cluster_id=p.cluster_id AND e.pod_uid=p.pod_uid AND e.container_name=p.container_name AND e.container_id=p.runtime_container_id AND e.observed_at BETWEEN p.window_started_at AND p.window_ended_at ";

    pub const RELATED_EVIDENCE_TAIL: &'static str =
        "p.group_id=$2 ORDER BY e.observed_at,e.received_at,e.id LIMIT $3";

    /// Evidence correlated with the group's events — the kernel records and
    /// lifecycle events linked to them — up to `limit`.
    pub fn related_evidence(
        organization_id: Uuid,
        group_id: Uuid,
        limit: i64,
    ) -> (statement: Statement)
        ensures
            statement@ == StatementView::all(
                tenant::organization_text(
                    Self::RELATED_EVIDENCE@,
                    Before::Where,
                    "p."@,
                    Layout::Tight,
                    After::And,
                    Self::RELATED_EVIDENCE_TAIL@,
                ),
                seq![organization_id.bound(), group_id.bound(), limit.bound()],
            ),
            tenant::filters_by_organization(statement@, organization_id),
    {
        let text = tenant::organization(
            Self::RELATED_EVIDENCE,
            Before::Where,
            "p.",
            Layout::Tight,
            After::And,
            Self::RELATED_EVIDENCE_TAIL,
        );
        Statement::all(text.as_str()).bind(organization_id).bind(group_id).bind(limit)
    }

    pub const TENANT_OF: &'static str = r#"
            SELECT organization_id, project_id
            FROM runtime_event_groups
            WHERE id = $1
            "#;

    /// Returns the organization and project owning the group, or `None` when
    /// no such group exists.
    ///
    /// Like `ProjectRepository::organization_of`, the lookup itself is
    /// unauthenticated: the caller needs the tenant path in order to authorize
    /// against it, and maps `None` onto `404`.
    pub fn tenant_of(group_id: Uuid) -> (statement: Statement)
        ensures
            statement@ == StatementView::optional(Self::TENANT_OF@, seq![group_id.bound()]),
    {
        Statement::optional(Self::TENANT_OF).bind(group_id)
    }

    /// A group at its first observation.
    pub open spec fn group_row(
        candidate_id: Uuid,
        key: GroupKey<'_>,
        event_kind: &str,
        semantic_summary: &Value,
        observed_at: Timestamp,
        event_id: Uuid,
    ) -> RowView {
        insert::row(Style::Block, "runtime_event_groups"@)
            .set("id"@, candidate_id.bound())
            .set("organization_id"@, key.organization_id.bound())
            .set("project_id"@, key.project_id.bound())
            .set("cluster_id"@, key.cluster_id.bound())
            .set("application_id"@, key.application_id.bound())
            .set_on_line("namespace"@, key.namespace.bound())
            .set("workload_kind"@, key.workload_kind.bound())
            .set("workload_name"@, key.workload_name.bound())
            .set_on_line("fingerprint_version"@, key.fingerprint_version.bound())
            .set("fingerprint_digest"@, key.fingerprint_digest.bound())
            .set_on_line("event_kind"@, event_kind.bound())
            .set("semantic_summary"@, semantic_summary.bound())
            .set_on_line("first_seen_at"@, observed_at.bound())
            .again("last_seen_at"@, 13)
            .computed("occurrence_count"@, "1"@)
            .set_on_line("representative_event_id"@, event_id.bound())
            .again("first_seen_event_id"@, 14)
    }

    /// A group at its first observation.
    fn group(
        candidate_id: Uuid,
        key: GroupKey<'_>,
        event_kind: &str,
        semantic_summary: &Value,
        observed_at: Timestamp,
        event_id: Uuid,
    ) -> (row: Row)
        ensures
            row@ == Self::group_row(
                candidate_id,
                key,
                event_kind,
                semantic_summary,
                observed_at,
                event_id,
            ),
    {
        Row::new(Style::Block, "runtime_event_groups")
            .set("id", candidate_id)
            .set("organization_id", key.organization_id)
            .set("project_id", key.project_id)
            .set("cluster_id", key.cluster_id)
            .set("application_id", key.application_id)
            .set_on_line("namespace", key.namespace)
            .set("workload_kind", key.workload_kind)
            .set("workload_name", key.workload_name)
            .set_on_line("fingerprint_version", key.fingerprint_version)
            .set("fingerprint_digest", key.fingerprint_digest)
            .set_on_line("event_kind", event_kind)
            .set("semantic_summary", semantic_summary)
            .set_on_line("first_seen_at", observed_at)
            .again("last_seen_at", 13)
            .computed("occurrence_count", "1")
            .set_on_line("representative_event_id", event_id)
            .again("first_seen_event_id", 14)
    }

    pub const INSERT_IF_ABSENT: &'static str = r#"
            RETURNING id
            "#;

    /// A group at its first observation, by its key.
    pub open spec fn keyed_group(
        candidate_id: Uuid,
        key: GroupKey<'_>,
        event_kind: &str,
        semantic_summary: &Value,
        observed_at: Timestamp,
        event_id: Uuid,
    ) -> UpsertView {
        upsert::of(
            Self::group_row(
                candidate_id,
                key,
                event_kind,
                semantic_summary,
                observed_at,
                event_id,
            ),
            Target::Block,
        )
            .keyed(1, Gap::Nothing)
            .keyed(2, Gap::Space)
            .keyed(4, Gap::Space)
            .keyed(3, Gap::Space)
            .keyed(5, Gap::Line)
            .keyed(6, Gap::Space)
            .keyed(7, Gap::Space)
            .keyed(8, Gap::Line)
            .keyed(9, Gap::Space)
    }

    /// A group at its first observation, by its key.
    fn group_by_key(
        candidate_id: Uuid,
        key: GroupKey<'_>,
        event_kind: &str,
        semantic_summary: &Value,
        observed_at: Timestamp,
        event_id: Uuid,
    ) -> (row: Upsert)
        ensures
            row@ == Self::keyed_group(
                candidate_id,
                key,
                event_kind,
                semantic_summary,
                observed_at,
                event_id,
            ),
    {
        let row = Self::group(
            candidate_id,
            key,
            event_kind,
            semantic_summary,
            observed_at,
            event_id,
        );
        Upsert::of(row, Target::Block, "runtime_event_groups")
            .keyed(1, Gap::Nothing, "organization_id")
            .keyed(2, Gap::Space, "project_id")
            .keyed(4, Gap::Space, "application_id")
            .keyed(3, Gap::Space, "cluster_id")
            .keyed(5, Gap::Line, "namespace")
            .keyed(6, Gap::Space, "workload_kind")
            .keyed(7, Gap::Space, "workload_name")
            .keyed(8, Gap::Line, "fingerprint_version")
            .keyed(9, Gap::Space, "fingerprint_digest")
    }

    /// Inserts a new group, returning its id, or `None` when one already
    /// exists for the key.
    ///
    /// The row starts at one occurrence with `first_seen_at` and `last_seen_at`
    /// both at the observation, and the same event as both representative and
    /// first-seen. A `None` result means another writer won the race; pair this
    /// with [`Self::lock_existing`] to obtain the winner's id.
    pub fn insert_if_absent(
        candidate_id: Uuid,
        key: GroupKey<'_>,
        event_kind: &str,
        semantic_summary: &Value,
        observed_at: Timestamp,
        event_id: Uuid,
    ) -> (statement: Statement)
        ensures
            statement@ == Self::keyed_group(
                candidate_id,
                key,
                event_kind,
                semantic_summary,
                observed_at,
                event_id,
            ).finish_once(Self::INSERT_IF_ABSENT@, Fetch::Optional),
    {
        Self::group_by_key(
            candidate_id,
            key,
            event_kind,
            semantic_summary,
            observed_at,
            event_id,
        ).finish_once(Self::INSERT_IF_ABSENT, Fetch::Optional)
    }

    pub const LOCK_EXISTING: &'static str = r#"
            SELECT id FROM runtime_event_groups
            "#;

    pub const LOCK_EXISTING_TAIL: &'static str = r#"cluster_id = $4
              AND namespace = $5
              AND workload_kind = $6
              AND workload_name = $7
              AND fingerprint_version = $8
              AND fingerprint_digest = $9
            FOR UPDATE
            "#;

    /// The statement that locks the group of a key.
    pub open spec fn locking(key: GroupKey<'_>) -> StatementView {
        StatementView::one(
            tenant::application_text(
                Self::LOCK_EXISTING@,
                Before::Where,
                ""@,
                Layout::Lines,
                After::And,
                Self::LOCK_EXISTING_TAIL@,
            ),
            key.columns(),
        )
    }

    /// Locks the existing group for the key and returns its id.
    ///
    /// `FOR UPDATE` serializes concurrent writers against the same group, so
    /// the occurrence bookkeeping that follows cannot interleave. This requires
    /// a transaction.
    pub fn lock_existing(key: GroupKey<'_>) -> (statement: Statement)
        ensures
            statement@ == Self::locking(key),
            tenant::filters_by_application(
                statement@,
                key.organization_id,
                key.project_id,
                key.application_id,
            ),
    {
        let text = tenant::application(
            Self::LOCK_EXISTING,
            Before::Where,
            "",
            Layout::Lines,
            After::And,
            Self::LOCK_EXISTING_TAIL,
        );
        Statement::one(text.as_str())
            .bind(key.organization_id)
            .bind(key.project_id)
            .bind(key.application_id)
            .bind(key.cluster_id)
            .bind(key.namespace)
            .bind(key.workload_kind)
            .bind(key.workload_name)
            .bind(key.fingerprint_version)
            .bind(key.fingerprint_digest)
    }

    pub const CHANGE_GROUP: &'static str = r#"
            UPDATE runtime_event_groups
            SET "#;

    pub const CHANGE_GROUP_TAIL: &'static str = r#"
            WHERE id = $1
            "#;

    /// The text that changes a group by its id.
    pub open spec fn changing(changes: Seq<Change>) -> Seq<char> {
        Self::CHANGE_GROUP@ + update::all_text(changes, Form::Lines) + Self::CHANGE_GROUP_TAIL@
    }

    /// Changes a group by its id.
    fn change(changes: Changes) -> (text: String)
        requires
            changes.laid_out() == Form::Lines,
        ensures
            text@ == Self::changing(changes@),
    {
        text::join(Self::CHANGE_GROUP, changes.into_text().as_str()).concat(
            Self::CHANGE_GROUP_TAIL,
        )
    }

    /// What one further observation changes.
    pub open spec fn observation() -> Seq<Change> {
        seq![
            Change::EarliestPair("first_seen_event_id"@, "first_seen_at"@, 2, 3),
            Change::RestartedFirst("first_seen_at"@, "occurrence_count"@, 2),
            Change::RestartedLast("last_seen_at"@, "occurrence_count"@, 2),
            Change::GivenOnce("representative_event_id"@, 3),
            Change::Incremented("occurrence_count"@),
            Change::Now("updated_at"@),
        ]
    }

    /// Folds one further observation into an existing group.
    ///
    /// The `occurrence_count = 0` branches are not defensive padding, and the
    /// state they guard is narrower than "retention ran". The count sums raw
    /// events and history snapshots together, so compacting a group's raw
    /// events into a snapshot leaves it intact. It reaches zero only once the
    /// snapshots have expired in turn, at which point the group has no
    /// surviving record of any kind, raw or summarised, and survives deletion
    /// only because a policy revision, a suppression or an unprocessed outbox
    /// message still points at it.
    ///
    /// Such a group can still be observed again. Extending its old window with
    /// `LEAST`/`GREATEST` would report a first sighting that nothing at all
    /// substantiates, so a group at zero restarts its window at the new
    /// observation instead.
    pub fn record_occurrence(
        group_id: Uuid,
        observed_at: Timestamp,
        event_id: Uuid,
    ) -> (statement: Statement)
        ensures
            statement@ == StatementView::nothing(
                Self::changing(Self::observation()),
                seq![group_id.bound(), observed_at.bound(), event_id.bound()],
            ),
    {
        let changes = Changes::new(Form::Lines)
            .earliest_pair("first_seen_event_id", "first_seen_at", 2, 3)
            .restarted_first("first_seen_at", "occurrence_count", 2)
            .restarted_last("last_seen_at", "occurrence_count", 2)
            .given_once("representative_event_id", 3)
            .incremented("occurrence_count")
            .now("updated_at");
        assert(changes@ =~= Self::observation());
        let text = Self::change(changes);
        Statement::nothing(text.as_str()).bind(group_id).bind(observed_at).bind(event_id)
    }

    pub const UPSERT_DERIVED: &'static str = r#",
                updated_at = now()
            RETURNING id
            "#;

    /// A derived group, by its key: a stored one takes the summary, the
    /// representative and a later time of the last sighting.
    pub open spec fn derived_group(
        candidate_id: Uuid,
        key: GroupKey<'_>,
        event_kind: &str,
        semantic_summary: &Value,
        observed_at: Timestamp,
        event_id: Uuid,
    ) -> UpsertView {
        Self::keyed_group(
            candidate_id,
            key,
            event_kind,
            semantic_summary,
            observed_at,
            event_id,
        ).replacing(11).at_least(13).replacing(15)
    }

    /// Creates or refreshes a group derived from a projection rather than from
    /// a fingerprinted event, returning its id.
    ///
    /// Unlike [`Self::insert_if_absent`] this always returns a row, because a
    /// derived group carries a recomputed summary that must overwrite the
    /// stored one on every pass. A caller tells creation from refresh by
    /// comparing the result against the candidate id it supplied.
    ///
    /// The window maintenance here is deliberately weaker than
    /// [`Self::record_occurrence`]: it advances `last_seen_at` but does not
    /// restart the window of a group retention has emptied.
    pub fn upsert_derived(
        candidate_id: Uuid,
        key: GroupKey<'_>,
        event_kind: &str,
        semantic_summary: &Value,
        observed_at: Timestamp,
        event_id: Uuid,
    ) -> (statement: Statement)
        ensures
            statement@ == Self::derived_group(
                candidate_id,
                key,
                event_kind,
                semantic_summary,
                observed_at,
                event_id,
            ).finish(Self::UPSERT_DERIVED@, Fetch::One),
    {
        Self::group_by_key(
            candidate_id,
            key,
            event_kind,
            semantic_summary,
            observed_at,
            event_id,
        )
            .replacing(11, "semantic_summary")
            .at_least(13, "last_seen_at")
            .replacing(15, "representative_event_id")
            .finish(Self::UPSERT_DERIVED, Fetch::One)
    }

    /// What counting an occurrence changes.
    pub open spec fn count() -> Seq<Change> {
        seq![Change::Incremented("occurrence_count"@)]
    }

    /// Adds one to a group's occurrence count without touching its window.
    ///
    /// This is the derived-projection counterpart to
    /// [`Self::record_occurrence`], used where the caller has already written
    /// the window through [`Self::upsert_derived`].
    pub fn increment_occurrence(group_id: Uuid) -> (statement: Statement)
        ensures
            statement@ == StatementView::nothing(
                Self::changing(Self::count()),
                seq![group_id.bound()],
            ),
    {
        let changes = Changes::new(Form::Lines).incremented("occurrence_count");
        assert(changes@ =~= Self::count());
        let text = Self::change(changes);
        Statement::nothing(text.as_str()).bind(group_id)
    }
}

/// Keys that differ in any column lock different groups: the statements that
/// lock them are the same only where all nine columns are.
pub proof fn keys_lock_apart(one: GroupKey<'_>, other: GroupKey<'_>)
    requires
        EventGroupRepository::locking(one) == EventGroupRepository::locking(other),
    ensures
        one.organization_id == other.organization_id,
        one.project_id == other.project_id,
        one.application_id == other.application_id,
        one.cluster_id == other.cluster_id,
        one.namespace@ == other.namespace@,
        one.workload_kind@ == other.workload_kind@,
        one.workload_name@ == other.workload_name@,
        one.fingerprint_version == other.fingerprint_version,
        one.fingerprint_digest@ == other.fingerprint_digest@,
{
    let a = one.columns();
    let b = other.columns();
    assert(a[0] == b[0] && a[1] == b[1] && a[2] == b[2] && a[3] == b[3] && a[4] == b[4]);
    assert(a[5] == b[5] && a[6] == b[6] && a[7] == b[7] && a[8] == b[8]);
}

/// An event joins one group under a fingerprint version: a second membership of
/// the event changes nothing, whichever group or release it names.
pub proof fn event_joins_one_group(
    table: Table,
    organization_id: Uuid,
    project_id: Uuid,
    application_id: Uuid,
    event_id: Uuid,
    first_group_id: Uuid,
    later_group_id: Uuid,
    fingerprint_version: i16,
    first_release_id: Option<Uuid>,
    later_release_id: Option<Uuid>,
)
    ensures
        ({
            let membership = |group_id: Uuid, release_id: Option<Uuid>|
                EventGroupRepository::release_membership(
                    organization_id,
                    project_id,
                    application_id,
                    event_id,
                    group_id,
                    fingerprint_version,
                    release_id,
                );
            let after = membership(first_group_id, first_release_id).applied_once(table);
            &&& after.contains_key(seq![event_id.bound(), fingerprint_version.bound()])
            &&& membership(later_group_id, later_release_id).applied_once(after) == after
        }),
{
    let first = EventGroupRepository::release_membership(
        organization_id,
        project_id,
        application_id,
        event_id,
        first_group_id,
        fingerprint_version,
        first_release_id,
    );
    let later = EventGroupRepository::release_membership(
        organization_id,
        project_id,
        application_id,
        event_id,
        later_group_id,
        fingerprint_version,
        later_release_id,
    );
    assert(first.key =~= seq![event_id.bound(), fingerprint_version.bound()]);
    assert(later.key =~= first.key);
    upsert::the_first_row_stays(first, later, table);
}

/// An occurrence of a group in a release is counted and widens its seen window
/// there, and its event represents the group where none was seen later or there
/// is no representative yet. A first one starts the count at 1 and the window
/// at its time. Every other row is as it was.
pub proof fn release_occurrence_is_counted(
    table: Table,
    organization_id: Uuid,
    project_id: Uuid,
    application_id: Uuid,
    release_id: Uuid,
    group_id: Uuid,
    observed_at: Timestamp,
    event_id: Uuid,
    count: i64,
    less: spec_fn(Bound, Bound) -> bool,
)
    requires
        ({
            let key: Seq<Bound> = seq![release_id.bound(), group_id.bound()];
            if table.contains_key(key) {
                table[key][5] == count.bound()
            } else {
                count == 0
            }
        }),
        count < i64::MAX,
    ensures
        ({
            let key: Seq<Bound> = seq![release_id.bound(), group_id.bound()];
            let stored = table[key];
            let after = EventGroupRepository::release_occurrence(
                organization_id,
                project_id,
                application_id,
                release_id,
                group_id,
                observed_at,
                event_id,
            ).applied(table, less);
            let time = observed_at.bound();
            &&& after.contains_key(key)
            &&& after[key][5] == Bound::BigInt(Some((count + 1) as i64))
            &&& after[key][6] == if table.contains_key(key) {
                condition::least(stored[6], time, less)
            } else {
                time
            }
            &&& after[key][7] == if table.contains_key(key) {
                condition::greatest(stored[7], time, less)
            } else {
                time
            }
            &&& after[key][8] == if table.contains_key(key) && !condition::is_null(stored[8])
                && !upsert::is_no_earlier(time, stored[7], less) {
                stored[8]
            } else {
                event_id.bound()
            }
            &&& after.remove(key) == table.remove(key)
        }),
{
    let written = EventGroupRepository::release_occurrence(
        organization_id,
        project_id,
        application_id,
        release_id,
        group_id,
        observed_at,
        event_id,
    );
    assert(written.key =~= seq![release_id.bound(), group_id.bound()]);
    assert(written.applied(table, less).remove(written.key) =~= table.remove(written.key));
}

/// Two occurrences at different times count the same in either order, where the
/// release has none of the group yet: the count is 2, the window runs from the
/// earlier to the later, and the later one's event represents the group. `at`
/// is when a time is.
pub proof fn release_occurrences_count_in_any_order(
    table: Table,
    organization_id: Uuid,
    project_id: Uuid,
    application_id: Uuid,
    release_id: Uuid,
    group_id: Uuid,
    earlier_at: Timestamp,
    earlier_id: Uuid,
    later_at: Timestamp,
    later_id: Uuid,
    at: spec_fn(Bound) -> int,
)
    requires
        !table.contains_key(seq![release_id.bound(), group_id.bound()]),
        at(earlier_at.bound()) < at(later_at.bound()),
    ensures
        ({
            let less = |left: Bound, right: Bound| at(left) < at(right);
            let occurrence = |observed_at: Timestamp, event_id: Uuid|
                EventGroupRepository::release_occurrence(
                    organization_id,
                    project_id,
                    application_id,
                    release_id,
                    group_id,
                    observed_at,
                    event_id,
                );
            let earlier = occurrence(earlier_at, earlier_id);
            let later = occurrence(later_at, later_id);
            let after = table.insert(
                seq![release_id.bound(), group_id.bound()],
                seq![
                    organization_id.bound(),
                    project_id.bound(),
                    application_id.bound(),
                    release_id.bound(),
                    group_id.bound(),
                    Bound::BigInt(Some(2)),
                    earlier_at.bound(),
                    later_at.bound(),
                    later_id.bound(),
                ],
            );
            &&& later.applied(earlier.applied(table, less), less) == after
            &&& earlier.applied(later.applied(table, less), less) == after
        }),
{
    let less = |left: Bound, right: Bound| at(left) < at(right);
    let earlier = EventGroupRepository::release_occurrence(
        organization_id,
        project_id,
        application_id,
        release_id,
        group_id,
        earlier_at,
        earlier_id,
    );
    let later = EventGroupRepository::release_occurrence(
        organization_id,
        project_id,
        application_id,
        release_id,
        group_id,
        later_at,
        later_id,
    );
    let key: Seq<Bound> = seq![release_id.bound(), group_id.bound()];
    let row: Seq<Bound> = seq![
        organization_id.bound(),
        project_id.bound(),
        application_id.bound(),
        release_id.bound(),
        group_id.bound(),
        Bound::BigInt(Some(2)),
        earlier_at.bound(),
        later_at.bound(),
        later_id.bound(),
    ];
    assert(earlier.key =~= key);
    assert(later.key =~= key);
    assert(later.over(earlier.values, less) =~= row);
    assert(earlier.over(later.values, less) =~= row);
    assert(table.insert(key, earlier.values).insert(key, row) =~= table.insert(key, row));
    assert(table.insert(key, later.values).insert(key, row) =~= table.insert(key, row));
}

/// The columns of a group at its first observation: one occurrence, both ends of
/// the window at the observation, and the same event as its representative and
/// its first.
pub open spec fn first_observation(
    candidate_id: Uuid,
    key: GroupKey<'_>,
    event_kind: &str,
    semantic_summary: &Value,
    observed_at: Timestamp,
    event_id: Uuid,
) -> Seq<Bound> {
    seq![
        candidate_id.bound(),
        key.organization_id.bound(),
        key.project_id.bound(),
        key.cluster_id.bound(),
        key.application_id.bound(),
        key.namespace.bound(),
        key.workload_kind.bound(),
        key.workload_name.bound(),
        key.fingerprint_version.bound(),
        key.fingerprint_digest.bound(),
        event_kind.bound(),
        semantic_summary.bound(),
        observed_at.bound(),
        observed_at.bound(),
        Bound::BigInt(Some(1)),
        event_id.bound(),
        event_id.bound(),
    ]
}

/// There is one group per key. Where a group has the key, an insert leaves it as
/// it is, whatever the candidate holds; where none has, the candidate is added
/// at its first observation. Every other group is as it was.
pub proof fn one_group_per_key(
    table: Table,
    candidate_id: Uuid,
    key: GroupKey<'_>,
    event_kind: &str,
    semantic_summary: &Value,
    observed_at: Timestamp,
    event_id: Uuid,
)
    ensures
        EventGroupRepository::keyed_group(
            candidate_id,
            key,
            event_kind,
            semantic_summary,
            observed_at,
            event_id,
        ).applied_once(table) == if table.contains_key(key.columns()) {
            table
        } else {
            table.insert(
                key.columns(),
                first_observation(
                    candidate_id,
                    key,
                    event_kind,
                    semantic_summary,
                    observed_at,
                    event_id,
                ),
            )
        },
{
    let written = EventGroupRepository::keyed_group(
        candidate_id,
        key,
        event_kind,
        semantic_summary,
        observed_at,
        event_id,
    );
    assert(written.key =~= key.columns());
    assert(written.values =~= first_observation(
        candidate_id,
        key,
        event_kind,
        semantic_summary,
        observed_at,
        event_id,
    ));
}

/// A derived group is the group of its key. Where one has the key, it takes the
/// new summary and representative and a later time of the last sighting, and
/// keeps its id, its count and the start of its window; where none has, the
/// candidate is added at its first observation. Every other group is as it was.
pub proof fn derived_group_refreshes_its_key(
    table: Table,
    candidate_id: Uuid,
    key: GroupKey<'_>,
    event_kind: &str,
    semantic_summary: &Value,
    observed_at: Timestamp,
    event_id: Uuid,
    less: spec_fn(Bound, Bound) -> bool,
)
    requires
        table.contains_key(key.columns()) ==> table[key.columns()].len() == 17,
    ensures
        ({
            let stored = table[key.columns()];
            let time = observed_at.bound();
            let refreshed = stored.update(11, semantic_summary.bound()).update(
                13,
                condition::greatest(stored[13], time, less),
            ).update(15, event_id.bound());
            let first = first_observation(
                candidate_id,
                key,
                event_kind,
                semantic_summary,
                observed_at,
                event_id,
            );
            EventGroupRepository::derived_group(
                candidate_id,
                key,
                event_kind,
                semantic_summary,
                observed_at,
                event_id,
            ).applied(table, less) == table.insert(
                key.columns(),
                if table.contains_key(key.columns()) {
                    refreshed
                } else {
                    first
                },
            )
        }),
{
    let written = EventGroupRepository::derived_group(
        candidate_id,
        key,
        event_kind,
        semantic_summary,
        observed_at,
        event_id,
    );
    let stored = table[key.columns()];
    let time = observed_at.bound();
    assert(written.key =~= key.columns());
    if table.contains_key(key.columns()) {
        let later = condition::greatest(stored[13], time, less);
        assert(written.over(stored, less) =~= stored.update(
            11,
            semantic_summary.bound(),
        ).update(13, later).update(15, event_id.bound()));
    } else {
        assert(written.values =~= first_observation(
            candidate_id,
            key,
            event_kind,
            semantic_summary,
            observed_at,
            event_id,
        ));
    }
}

/// The columns that an observation changes are six different ones.
proof fn lemma_observation_columns()
    ensures
        forall|i: int, j: int|
            0 <= i < j < EventGroupRepository::observation().len() ==> (
            #[trigger] EventGroupRepository::observation()[i]).column() != (
            #[trigger] EventGroupRepository::observation()[j]).column(),
{
    reveal_strlit("first_seen_event_id");
    reveal_strlit("first_seen_at");
    reveal_strlit("last_seen_at");
    reveal_strlit("representative_event_id");
    reveal_strlit("occurrence_count");
    reveal_strlit("updated_at");
    let changes = EventGroupRepository::observation();
    assert(changes[0].column().len() == 19 && changes[1].column().len() == 13);
    assert(changes[2].column().len() == 12 && changes[3].column().len() == 23);
    assert(changes[4].column().len() == 16 && changes[5].column().len() == 10);
}

/// A group that retention has emptied restarts its window at the new
/// observation, and its count at 1. The event represents it where nothing does.
pub proof fn emptied_group_restarts_its_window(
    group: Record,
    group_id: Uuid,
    observed_at: Timestamp,
    event_id: Uuid,
    database: Database,
)
    requires
        update::is_zero(group, "occurrence_count"@),
    ensures
        ({
            let after = update::changed(
                EventGroupRepository::observation(),
                group,
                seq![group_id.bound(), observed_at.bound(), event_id.bound()],
                database,
            );
            &&& condition::has(after, "first_seen_at"@, observed_at.bound())
            &&& condition::has(after, "last_seen_at"@, observed_at.bound())
            &&& condition::has(after, "occurrence_count"@, Bound::BigInt(Some(1)))
            &&& condition::has(
                after,
                "representative_event_id"@,
                if condition::lacks(group, "representative_event_id"@) {
                    event_id.bound()
                } else {
                    group["representative_event_id"@]
                },
            )
        }),
{
    let changes = EventGroupRepository::observation();
    let values: Seq<Bound> = seq![group_id.bound(), observed_at.bound(), event_id.bound()];
    lemma_observation_columns();
    update::changed_column(changes, group, values, database, 1);
    update::changed_column(changes, group, values, database, 2);
    update::changed_column(changes, group, values, database, 3);
    update::changed_column(changes, group, values, database, 4);
}

/// A further observation folds into a group that has any: its window comes to
/// hold the observation, its count is one greater, and what represents it stays.
/// The event becomes its first where the observation comes before the first.
pub proof fn observation_folds_into_the_window(
    group: Record,
    group_id: Uuid,
    observed_at: Timestamp,
    event_id: Uuid,
    count: i64,
    database: Database,
)
    requires
        0 < count < i64::MAX,
        condition::has(group, "occurrence_count"@, count.bound()),
        !condition::lacks(group, "first_seen_at"@),
        !condition::lacks(group, "last_seen_at"@),
    ensures
        ({
            let after = update::changed(
                EventGroupRepository::observation(),
                group,
                seq![group_id.bound(), observed_at.bound(), event_id.bound()],
                database,
            );
            &&& condition::has(
                after,
                "first_seen_at"@,
                condition::least(group["first_seen_at"@], observed_at.bound(), database.less),
            )
            &&& condition::has(
                after,
                "last_seen_at"@,
                condition::greatest(group["last_seen_at"@], observed_at.bound(), database.less),
            )
            &&& condition::has(
                after,
                "occurrence_count"@,
                Bound::BigInt(Some((count + 1) as i64)),
            )
            &&& !condition::lacks(group, "representative_event_id"@) ==> condition::has(
                after,
                "representative_event_id"@,
                group["representative_event_id"@],
            )
            &&& (database.less)(observed_at.bound(), group["first_seen_at"@])
                ==> condition::has(after, "first_seen_event_id"@, event_id.bound())
        }),
{
    let changes = EventGroupRepository::observation();
    let values: Seq<Bound> = seq![group_id.bound(), observed_at.bound(), event_id.bound()];
    lemma_observation_columns();
    update::changed_column(changes, group, values, database, 0);
    update::changed_column(changes, group, values, database, 1);
    update::changed_column(changes, group, values, database, 2);
    update::changed_column(changes, group, values, database, 3);
    update::changed_column(changes, group, values, database, 4);
}

/// Counting an occurrence makes the count one greater and leaves the rest of the
/// group, its window with it, as it is.
pub proof fn count_leaves_the_window(
    group: Record,
    group_id: Uuid,
    count: i64,
    database: Database,
)
    requires
        count < i64::MAX,
        condition::has(group, "occurrence_count"@, count.bound()),
    ensures
        update::changed(
            EventGroupRepository::count(),
            group,
            seq![group_id.bound()],
            database,
        ) == group.insert("occurrence_count"@, Bound::BigInt(Some((count + 1) as i64))),
{
    assert(EventGroupRepository::count().drop_last() =~= Seq::<Change>::empty());
    reveal_with_fuel(update::changed, 2);
}

/// A group moves to a status only from one that is allowed, or from that status
/// itself.
pub proof fn status_changes_only_from_an_allowed_status(
    group: Record,
    organization_id: Uuid,
    group_id: Uuid,
    status: &str,
    actor_user_id: Uuid,
    allowed: &[&str],
    database: Database,
)
    ensures
        condition::selects(
            EventGroupRepository::status_conditions(),
            group,
            seq![
                organization_id.bound(),
                group_id.bound(),
                status.bound(),
                actor_user_id.bound(),
                allowed.bound(),
            ],
            database,
        ) <==> {
            &&& condition::has(group, "id"@, group_id.bound())
            &&& condition::has(group, "status"@, status.bound()) || {
                &&& group.contains_key("status"@)
                &&& condition::among(group["status"@], allowed.bound())
            }
        },
{
    let conditions = EventGroupRepository::status_conditions();
    let values: Seq<Bound> = seq![
        organization_id.bound(),
        group_id.bound(),
        status.bound(),
        actor_user_id.bound(),
        allowed.bound(),
    ];
    assert(conditions[0].holds(group, values, database) == condition::has(
        group,
        "id"@,
        group_id.bound(),
    ));
    let allows = conditions[1].holds(group, values, database);
    assert(condition::selects(conditions, group, values, database) <==> conditions[0].holds(
        group,
        values,
        database,
    ) && allows);
}

/// Setting the status that a group has already leaves the group as it is: when
/// it came to have the status, and by whom.
pub proof fn same_status_changes_nothing(
    group: Record,
    organization_id: Uuid,
    group_id: Uuid,
    status: &str,
    actor_user_id: Uuid,
    allowed: &[&str],
    database: Database,
)
    requires
        condition::has(group, "status"@, status.bound()),
    ensures
        update::changed(
            EventGroupRepository::status_change(),
            group,
            seq![
                organization_id.bound(),
                group_id.bound(),
                status.bound(),
                actor_user_id.bound(),
                allowed.bound(),
            ],
            database,
        ) == group,
{
    let changes = EventGroupRepository::status_change();
    let values: Seq<Bound> = seq![
        organization_id.bound(),
        group_id.bound(),
        status.bound(),
        actor_user_id.bound(),
        allowed.bound(),
    ];
    lemma_kept_values_change_nothing(changes, group, values, database);
}

/// Changes that each keep what a record holds leave the record as it is.
proof fn lemma_kept_values_change_nothing(
    changes: Seq<Change>,
    record: Record,
    parameters: Seq<Bound>,
    database: Database,
)
    requires
        forall|i: int|
            0 <= i < changes.len() ==> (#[trigger] changes[i]).value(record, parameters, database)
                == update::stored(record, changes[i].column()),
    ensures
        update::changed(changes, record, parameters, database) == record,
    decreases changes.len(),
{
    if changes.len() > 0 {
        let before = changes.drop_last();
        assert forall|i: int| 0 <= i < before.len() implies (#[trigger] before[i]).value(
            record,
            parameters,
            database,
        ) == update::stored(record, before[i].column()) by {
            assert(before[i] == changes[i]);
        }
        lemma_kept_values_change_nothing(before, record, parameters, database);
        assert(changes.last() == changes[changes.len() - 1]);
        assert(update::changed(changes, record, parameters, database) =~= record);
    }
}

/// An observation becomes a group's first sighting only where it comes before
/// that one: at an earlier time, or at the same time with a lesser event id. Any
/// other leaves the first event as it was.
pub proof fn only_an_earlier_event_becomes_the_first(
    group: Record,
    group_id: Uuid,
    observed_at: Timestamp,
    event_id: Uuid,
    database: Database,
)
    requires
        !condition::lacks(group, "first_seen_at"@),
        !condition::lacks(group, "first_seen_event_id"@),
    ensures
        ({
            let first_at = group["first_seen_at"@];
            let first_id = group["first_seen_event_id"@];
            let time = Bound::Timestamp(Some(observed_at));
            let event = Bound::Uuid(Some(event_id));
            let after = update::changed(
                EventGroupRepository::observation(),
                group,
                seq![group_id.bound(), observed_at.bound(), event_id.bound()],
                database,
            );
            let comes_before = (database.less)(time, first_at) || time == first_at
                && (database.less)(event, first_id);
            &&& comes_before ==> condition::has(after, "first_seen_event_id"@, event)
            &&& !comes_before ==> condition::has(after, "first_seen_event_id"@, first_id)
        }),
{
    let changes = EventGroupRepository::observation();
    let values: Seq<Bound> = seq![group_id.bound(), observed_at.bound(), event_id.bound()];
    lemma_observation_columns();
    update::changed_column(changes, group, values, database, 0);
}

/// An observation changes a group's window, count, first event, representative
/// and time of change, and no other column.
pub proof fn observation_changes_nothing_else(
    group: Record,
    group_id: Uuid,
    observed_at: Timestamp,
    event_id: Uuid,
    database: Database,
    column: Seq<char>,
)
    requires
        column != "first_seen_event_id"@,
        column != "first_seen_at"@,
        column != "last_seen_at"@,
        column != "representative_event_id"@,
        column != "occurrence_count"@,
        column != "updated_at"@,
    ensures
        ({
            let after = update::changed(
                EventGroupRepository::observation(),
                group,
                seq![group_id.bound(), observed_at.bound(), event_id.bound()],
                database,
            );
            &&& after.contains_key(column) == group.contains_key(column)
            &&& group.contains_key(column) ==> after[column] == group[column]
            &&& condition::has(after, "updated_at"@, database.now)
        }),
{
    let changes = EventGroupRepository::observation();
    let values: Seq<Bound> = seq![group_id.bound(), observed_at.bound(), event_id.bound()];
    lemma_observation_columns();
    update::unchanged_column(changes, group, values, database, column);
    update::changed_column(changes, group, values, database, 5);
}

/// A group that moves to another status has it from now on, set by the user.
/// Nothing else of it changes.
pub proof fn new_status_says_who_set_it(
    group: Record,
    organization_id: Uuid,
    group_id: Uuid,
    status: &str,
    actor_user_id: Uuid,
    allowed: &[&str],
    database: Database,
)
    requires
        !condition::has(group, "status"@, status.bound()),
    ensures
        update::changed(
            EventGroupRepository::status_change(),
            group,
            seq![
                organization_id.bound(),
                group_id.bound(),
                status.bound(),
                actor_user_id.bound(),
                allowed.bound(),
            ],
            database,
        ) == group.insert("status"@, Bound::Text(Some(status@)))
            .insert("status_changed_at"@, database.now)
            .insert("status_changed_by_user_id"@, Bound::Uuid(Some(actor_user_id)))
            .insert("status_changed_by_kind"@, Bound::Text(Some("user"@)))
            .insert("updated_at"@, database.now),
{
    broadcast use update::first_changes;

    let changes = EventGroupRepository::status_change();
    assert(changes =~= changes.take(changes.len() as int));
}

/// A change of a group is of the group with the id at `$1`, and of no other.
pub proof fn changes_are_of_one_group(changes: Seq<Change>)
    ensures
        EventGroupRepository::changing(changes)
            == "\n            UPDATE runtime_event_groups\n            SET "@
                + update::all_text(changes, Form::Lines)
                + "\n            WHERE id = $1\n            "@,
{
    assert(EventGroupRepository::changing(changes)
        =~= "\n            UPDATE runtime_event_groups\n            SET "@
            + update::all_text(changes, Form::Lines)
            + "\n            WHERE id = $1\n            "@);
}

/// The group of a key is locked by all nine columns of the key, and by nothing
/// else.
pub proof fn group_is_locked_by_its_whole_key(key: GroupKey<'_>)
    ensures
        EventGroupRepository::locking(key) == (StatementView {
            text: EventGroupRepository::LOCK_EXISTING@ + "WHERE "@ + tenant::application_filter(
                ""@,
                Layout::Lines,
                Start::First,
            ) + "\n              AND "@ + EventGroupRepository::LOCK_EXISTING_TAIL@,
            parameters: seq![
                Bound::Uuid(Some(key.organization_id)),
                Bound::Uuid(Some(key.project_id)),
                Bound::Uuid(Some(key.application_id)),
                Bound::Uuid(Some(key.cluster_id)),
                Bound::Text(Some(key.namespace@)),
                Bound::Text(Some(key.workload_kind@)),
                Bound::Text(Some(key.workload_name@)),
                Bound::SmallInt(Some(key.fingerprint_version)),
                Bound::Bytes(Some(key.fingerprint_digest@)),
            ],
            fetch: Fetch::One,
        }),
{
    assert(EventGroupRepository::locking(key).parameters =~= seq![
        Bound::Uuid(Some(key.organization_id)),
        Bound::Uuid(Some(key.project_id)),
        Bound::Uuid(Some(key.application_id)),
        Bound::Uuid(Some(key.cluster_id)),
        Bound::Text(Some(key.namespace@)),
        Bound::Text(Some(key.workload_kind@)),
        Bound::Text(Some(key.workload_name@)),
        Bound::SmallInt(Some(key.fingerprint_version)),
        Bound::Bytes(Some(key.fingerprint_digest@)),
    ]);
}

/// A group is on the page exactly where it is what each filter asks for that is
/// given, and comes behind the cursor, or no cursor is given.
pub proof fn page_holds_the_groups_asked_for(
    group: Record,
    organization_id: Uuid,
    project_id: Uuid,
    application_id: Uuid,
    event_kind: Option<String>,
    status: Option<String>,
    namespace: Option<String>,
    workload_kind: Option<String>,
    workload_name: Option<String>,
    since: Option<Timestamp>,
    first_seen_from: Option<Timestamp>,
    first_seen_to: Option<Timestamp>,
    last_seen_to: Option<Timestamp>,
    release_id: Option<Uuid>,
    cursor_last_seen_at: Option<Timestamp>,
    cursor_id: Option<Uuid>,
    fetch_limit: i64,
    database: Database,
)
    ensures
        ({
            let values: Seq<Bound> = seq![
                organization_id.bound(),
                project_id.bound(),
                application_id.bound(),
                event_kind.bound(),
                status.bound(),
                namespace.bound(),
                workload_kind.bound(),
                workload_name.bound(),
                since.bound(),
                first_seen_from.bound(),
                first_seen_to.bound(),
                last_seen_to.bound(),
                release_id.bound(),
                cursor_last_seen_at.bound(),
                cursor_id.bound(),
                fetch_limit.bound(),
            ];
            condition::selects(
                EventGroupRepository::summary_filters(),
                group,
                values,
                database,
            ) <==> {
                &&& event_kind is Some ==> condition::has(group, "event_kind"@, event_kind.bound())
                &&& status is Some ==> condition::has(group, "status"@, status.bound())
                &&& namespace is Some ==> condition::has(group, "namespace"@, namespace.bound())
                &&& workload_kind is Some ==> condition::has(
                    group,
                    "workload_kind"@,
                    workload_kind.bound(),
                )
                &&& workload_name is Some ==> condition::has(
                    group,
                    "workload_name"@,
                    workload_name.bound(),
                )
                &&& since is Some ==> {
                    &&& !condition::lacks(group, "last_seen_at"@)
                    &&& !(database.less)(group["last_seen_at"@], since.bound())
                }
                &&& first_seen_from is Some ==> {
                    &&& !condition::lacks(group, "first_seen_at"@)
                    &&& !(database.less)(group["first_seen_at"@], first_seen_from.bound())
                }
                &&& first_seen_to is Some ==> {
                    &&& !condition::lacks(group, "first_seen_at"@)
                    &&& !(database.less)(first_seen_to.bound(), group["first_seen_at"@])
                }
                &&& last_seen_to is Some ==> {
                    &&& !condition::lacks(group, "last_seen_at"@)
                    &&& !(database.less)(last_seen_to.bound(), group["last_seen_at"@])
                }
                &&& release_id is Some ==> (database.answers)(
                    EventGroupRepository::IS_IN_RELEASE@,
                    group,
                    values,
                )
                &&& cursor_last_seen_at is Some ==> {
                    &&& !condition::lacks(group, "last_seen_at"@)
                    &&& {
                        ||| {
                            &&& group["last_seen_at"@] != cursor_last_seen_at.bound()
                            &&& (database.less)(group["last_seen_at"@], cursor_last_seen_at.bound())
                        }
                        ||| {
                            &&& group["last_seen_at"@] == cursor_last_seen_at.bound()
                            &&& cursor_id is Some
                            &&& !condition::lacks(group, "id"@)
                            &&& (database.less)(group["id"@], cursor_id.bound())
                        }
                    }
                }
            }
        }),
{
    let values: Seq<Bound> = seq![
        organization_id.bound(),
        project_id.bound(),
        application_id.bound(),
        event_kind.bound(),
        status.bound(),
        namespace.bound(),
        workload_kind.bound(),
        workload_name.bound(),
        since.bound(),
        first_seen_from.bound(),
        first_seen_to.bound(),
        last_seen_to.bound(),
        release_id.bound(),
        cursor_last_seen_at.bound(),
        cursor_id.bound(),
        fetch_limit.bound(),
    ];
    let conditions = EventGroupRepository::summary_filters();
    assert(condition::selects(conditions, group, values, database) <==> {
        &&& conditions[0].holds(group, values, database)
        &&& conditions[1].holds(group, values, database)
        &&& conditions[2].holds(group, values, database)
        &&& conditions[3].holds(group, values, database)
        &&& conditions[4].holds(group, values, database)
        &&& conditions[5].holds(group, values, database)
        &&& conditions[6].holds(group, values, database)
        &&& conditions[7].holds(group, values, database)
        &&& conditions[8].holds(group, values, database)
        &&& conditions[9].holds(group, values, database)
        &&& conditions[10].holds(group, values, database)
    });
}

} // verus!
