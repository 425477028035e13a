//! Agent health persistence: the agents registered for an application, their
//! heartbeat and signal buckets, diagnostic counter baselines and deltas, their
//! sessions, and the reads behind the agent health endpoint.
//!
//! Writes arrive from the agent protocol, reads from the health endpoint. The
//! read projections belong to that endpoint, so the reads document the columns
//! they select.

use serde_json::Value;
use uuid::Uuid;
use vstd::prelude::*;

#[allow(unused_imports)]
use crate::statement::Bind;
use crate::condition::{Condition, Conditions, Database, Kind, Record, Test};
use crate::condition;
use crate::insert::{Row, Style};
use crate::insert;
use crate::statement::{Bound, Fetch, Statement, StatementView, Timestamp};
use crate::tenant::{After, Before, Layout};
use crate::tenant;
use crate::text;
use crate::update::{Change, Changes, Form};
use crate::update;
use crate::upsert::{Table, Target, Upsert, UpsertView};
use crate::upsert;

verus! {

broadcast use {tenant::known_aliases_name_tables, condition::known_words_are_plain};

/// A one-minute bucket of an agent's diagnostics.
#[derive(Clone, Copy, Debug)]
pub struct Bucket {
    pub organization_id: Uuid,
    pub project_id: Uuid,
    pub application_id: Uuid,
    pub cluster_id: Uuid,
    pub agent_id: Uuid,
    pub bucket_at: Timestamp,
}

/// What diagnostic counters gained, and whether they went backwards.
#[derive(Clone, Copy, Debug)]
pub struct Deltas {
    pub reset: bool,
    pub dropped: i64,
    pub rate_limited: i64,
    pub decode_failed: i64,
    pub attribution_failed: i64,
    pub capacity: i64,
    pub kernel_lost: i64,
    pub correlation: i64,
    pub delivery_retry: i64,
    pub unsupported: i64,
}

impl Deltas {
    /// Counters that gained nothing.
    pub open spec fn none() -> Deltas {
        Deltas {
            reset: false,
            dropped: 0,
            rate_limited: 0,
            decode_failed: 0,
            attribution_failed: 0,
            capacity: 0,
            kernel_lost: 0,
            correlation: 0,
            delivery_retry: 0,
            unsupported: 0,
        }
    }

    /// Whether every counter of both, added up, is a `BIGINT`.
    pub open spec fn can_add(self, other: Deltas) -> bool {
        &&& i64::MIN <= self.dropped + other.dropped <= i64::MAX
        &&& i64::MIN <= self.rate_limited + other.rate_limited <= i64::MAX
        &&& i64::MIN <= self.decode_failed + other.decode_failed <= i64::MAX
        &&& i64::MIN <= self.attribution_failed + other.attribution_failed <= i64::MAX
        &&& i64::MIN <= self.capacity + other.capacity <= i64::MAX
        &&& i64::MIN <= self.kernel_lost + other.kernel_lost <= i64::MAX
        &&& i64::MIN <= self.correlation + other.correlation <= i64::MAX
        &&& i64::MIN <= self.delivery_retry + other.delivery_retry <= i64::MAX
        &&& i64::MIN <= self.unsupported + other.unsupported <= i64::MAX
    }

    /// Both together: each counter added up, and a reset where either has one.
    pub open spec fn plus(self, other: Deltas) -> Deltas {
        Deltas {
            reset: self.reset || other.reset,
            dropped: (self.dropped + other.dropped) as i64,
            rate_limited: (self.rate_limited + other.rate_limited) as i64,
            decode_failed: (self.decode_failed + other.decode_failed) as i64,
            attribution_failed: (self.attribution_failed + other.attribution_failed) as i64,
            capacity: (self.capacity + other.capacity) as i64,
            kernel_lost: (self.kernel_lost + other.kernel_lost) as i64,
            correlation: (self.correlation + other.correlation) as i64,
            delivery_retry: (self.delivery_retry + other.delivery_retry) as i64,
            unsupported: (self.unsupported + other.unsupported) as i64,
        }
    }
}

/// Agent registration, heartbeats, diagnostics and the health reads over them.
#[derive(Clone, Copy, Debug)]
pub struct AgentHealthRepository;

impl AgentHealthRepository {
    /// The table of signal buckets.
    pub const SIGNAL_BUCKETS: &'static str = "application_agent_signal_buckets";

    /// The table of diagnostic buckets.
    pub const DIAGNOSTIC_BUCKETS: &'static str = "application_agent_diagnostic_buckets";

    pub const PRUNE: &'static str = "DELETE FROM ";

    pub const PRUNE_SELECT: &'static str = " WHERE ctid IN (SELECT ctid FROM ";

    pub const PRUNE_TAIL: &'static str = " WHERE bucket_at<$1 ORDER BY bucket_at LIMIT 500)";

    /// Deletes the buckets of one table older than `$1`, at most 500, oldest
    /// first.
    pub open spec fn prune_text(table: Seq<char>) -> Seq<char> {
        Self::PRUNE@ + table + Self::PRUNE_SELECT@ + table + Self::PRUNE_TAIL@
    }

    /// Deletes the buckets of `table` older than `cutoff`.
    fn prune_table(table: &str, cutoff: Timestamp) -> (statement: Statement)
        ensures
            statement@ == StatementView::nothing(
                Self::prune_text(table@),
                seq![cutoff.bound()],
            ),
    {
        let text = text::join(Self::PRUNE, table).concat(Self::PRUNE_SELECT).concat(table).concat(
            Self::PRUNE_TAIL,
        );
        Statement::nothing(text.as_str()).bind(cutoff)
    }

    /// Deletes signal and diagnostic buckets older than `cutoff`, at most 500
    /// rows per table per call, oldest first. The bound keeps each pass short;
    /// the caller runs it on every heartbeat, so the backlog drains over time.
    ///
    /// One statement per table, to be run in order on one connection; the
    /// first that fails ends the pass.
    pub fn prune_buckets(cutoff: Timestamp) -> (statements: Vec<Statement>)
        ensures
            statements@.len() == 2,
            statements@[0]@ == StatementView::nothing(
                Self::prune_text(Self::SIGNAL_BUCKETS@),
                seq![cutoff.bound()],
            ),
            statements@[1]@ == StatementView::nothing(
                Self::prune_text(Self::DIAGNOSTIC_BUCKETS@),
                seq![cutoff.bound()],
            ),
    {
        let mut statements: Vec<Statement> = Vec::new();
        statements.push(Self::prune_table(Self::SIGNAL_BUCKETS, cutoff));
        statements.push(Self::prune_table(Self::DIAGNOSTIC_BUCKETS, cutoff));
        statements
    }

    pub const REGISTER_AGENT: &'static str = ",authenticated_at=now(),last_session_ended_at=NULL";

    /// Records that an agent serves an application from a cluster, with the
    /// capabilities it reported.
    pub fn register_agent(
        organization_id: Uuid,
        project_id: Uuid,
        application_id: Uuid,
        cluster_id: Uuid,
        agent_id: Uuid,
        capabilities: Value,
    ) -> (statement: Statement)
        ensures
            statement@ == upsert::upsert(Style::Tight, Target::Tight, "application_agents"@)
                .key("organization_id"@, organization_id.bound())
                .key("project_id"@, project_id.bound())
                .key("application_id"@, application_id.bound())
                .replaced("cluster_id"@, cluster_id.bound())
                .key("agent_id"@, agent_id.bound())
                .replaced("capabilities"@, capabilities.bound())
                .finish(Self::REGISTER_AGENT@, Fetch::Affected),
    {
        Upsert::new(Style::Tight, Target::Tight, "application_agents")
            .key("organization_id", organization_id)
            .key("project_id", project_id)
            .key("application_id", application_id)
            .replaced("cluster_id", cluster_id)
            .key("agent_id", agent_id)
            .replaced("capabilities", capabilities)
            .finish(Self::REGISTER_AGENT, Fetch::Affected)
    }

    /// What a heartbeat changes in an agent.
    pub open spec fn heartbeat() -> Seq<Change> {
        seq![Change::Given("last_heartbeat_at"@, 5)]
    }

    /// The conditions on the agent that is heard, besides the path.
    pub open spec fn heard_agent() -> Seq<Condition> {
        seq![Condition::Compared("agent_id"@, Test::Equal, 4)]
    }

    /// Records the time of an agent's latest heartbeat.
    pub fn touch_heartbeat(
        organization_id: Uuid,
        project_id: Uuid,
        application_id: Uuid,
        agent_id: Uuid,
        received_at: Timestamp,
    ) -> (statement: Statement)
        ensures
            statement@ == StatementView::affected(
                tenant::application_text(
                    "UPDATE application_agents SET "@ + update::all_text(Self::heartbeat(), Form::Tight) + " "@,
                    Before::Where,
                    ""@,
                    Layout::Tight,
                    After::And,
                    condition::all_text(Self::heard_agent()),
                ),
                seq![
                    organization_id.bound(),
                    project_id.bound(),
                    application_id.bound(),
                    agent_id.bound(),
                    received_at.bound(),
                ],
            ),
            tenant::filters_by_application(statement@, organization_id, project_id, application_id),
    {
        let changes = Changes::new(Form::Tight)
            .given("last_heartbeat_at", 5);
        let conditions = Conditions::new().compared("agent_id", Test::Equal, 4);
        assert(changes@ =~= Self::heartbeat());
        assert(conditions@ =~= Self::heard_agent());
        let head = text::join(
            "UPDATE application_agents SET ",
            changes.into_text().as_str(),
        ).concat(" ");
        let tail = conditions.into_text();
        let text = tenant::application(
            head.as_str(),
            Before::Where,
            "",
            Layout::Tight,
            After::And,
            tail.as_str(),
        );
        Statement::affected(text.as_str())
            .bind(organization_id)
            .bind(project_id)
            .bind(application_id)
            .bind(agent_id)
            .bind(received_at)
    }

    pub const RECORD_SIGNAL: &'static str =
        " ON CONFLICT(organization_id,project_id,application_id,agent_id,bucket_at) DO UPDATE SET received_count=LEAST(application_agent_signal_buckets.received_count+1,120),last_received_at=GREATEST(application_agent_signal_buckets.last_received_at,EXCLUDED.last_received_at)";

    /// Counts a heartbeat into its one-minute signal bucket.
    pub fn record_signal(
        organization_id: Uuid,
        project_id: Uuid,
        application_id: Uuid,
        agent_id: Uuid,
        bucket_at: Timestamp,
        received_at: Timestamp,
    ) -> (statement: Statement)
        ensures
            statement@ == insert::row(Style::Tight, "application_agent_signal_buckets"@)
                .set("organization_id"@, organization_id.bound())
                .set("project_id"@, project_id.bound())
                .set("application_id"@, application_id.bound())
                .set("agent_id"@, agent_id.bound())
                .set("bucket_at"@, bucket_at.bound())
                .set("first_received_at"@, received_at.bound())
                .again("last_received_at"@, 6)
                .finish(Self::RECORD_SIGNAL@, Fetch::Affected),
    {
        Row::new(Style::Tight, "application_agent_signal_buckets")
            .set("organization_id", organization_id)
            .set("project_id", project_id)
            .set("application_id", application_id)
            .set("agent_id", agent_id)
            .set("bucket_at", bucket_at)
            .set("first_received_at", received_at)
            .again("last_received_at", 6)
            .finish(Self::RECORD_SIGNAL, Fetch::Affected)
    }

    pub const COUNTER_BASELINE: &'static str =
        "SELECT sent_at,counters FROM application_agent_counter_baselines ";

    pub const COUNTER_BASELINE_TAIL: &'static str = " FOR UPDATE";

    /// The conditions on an agent's baseline, besides the path.
    pub open spec fn baseline_of_agent() -> Seq<Condition> {
        seq![
            Condition::Compared("cluster_id"@, Test::Equal, 4),
            Condition::Compared("agent_id"@, Test::Equal, 5),
        ]
    }

    /// The agent's previous diagnostic counter snapshot and when it was sent,
    /// from which the next snapshot's deltas are computed.
    pub fn counter_baseline(
        organization_id: Uuid,
        project_id: Uuid,
        application_id: Uuid,
        cluster_id: Uuid,
        agent_id: Uuid,
    ) -> (statement: Statement)
        ensures
            statement@ == StatementView::optional(
                tenant::application_text(
                    Self::COUNTER_BASELINE@,
                    Before::Where,
                    ""@,
                    Layout::Tight,
                    After::And,
                    condition::all_text(Self::baseline_of_agent()) + Self::COUNTER_BASELINE_TAIL@,
                ),
                seq![
                    organization_id.bound(),
                    project_id.bound(),
                    application_id.bound(),
                    cluster_id.bound(),
                    agent_id.bound(),
                ],
            ),
            tenant::filters_by_application(statement@, organization_id, project_id, application_id),
    {
        let conditions = Conditions::new()
            .compared("cluster_id", Test::Equal, 4)
            .compared("agent_id", Test::Equal, 5);
        assert(conditions@ =~= Self::baseline_of_agent());
        let tail = conditions.into_text().concat(Self::COUNTER_BASELINE_TAIL);
        let text = tenant::application(
            Self::COUNTER_BASELINE,
            Before::Where,
            "",
            Layout::Tight,
            After::And,
            tail.as_str(),
        );
        Statement::optional(text.as_str())
            .bind(organization_id)
            .bind(project_id)
            .bind(application_id)
            .bind(cluster_id)
            .bind(agent_id)
    }

    /// Replaces the agent's diagnostic counter snapshot.
    pub fn store_counter_baseline(
        organization_id: Uuid,
        project_id: Uuid,
        application_id: Uuid,
        cluster_id: Uuid,
        agent_id: Uuid,
        sent_at: Timestamp,
        counters: Value,
    ) -> (statement: Statement)
        ensures
            statement@ == upsert::upsert(
                Style::Tight,
                Target::Tight,
                "application_agent_counter_baselines"@,
            )
                .key("organization_id"@, organization_id.bound())
                .key("project_id"@, project_id.bound())
                .key("application_id"@, application_id.bound())
                .key("cluster_id"@, cluster_id.bound())
                .key("agent_id"@, agent_id.bound())
                .replaced("sent_at"@, sent_at.bound())
                .replaced("counters"@, counters.bound())
                .finish(""@, Fetch::Affected),
    {
        Upsert::new(Style::Tight, Target::Tight, "application_agent_counter_baselines")
            .key("organization_id", organization_id)
            .key("project_id", project_id)
            .key("application_id", application_id)
            .key("cluster_id", cluster_id)
            .key("agent_id", agent_id)
            .replaced("sent_at", sent_at)
            .replaced("counters", counters)
            .finish("", Fetch::Affected)
    }

    /// The row that adds deltas into a bucket.
    pub open spec fn diagnostic_deltas(bucket: Bucket, deltas: Deltas) -> UpsertView {
        upsert::upsert(Style::Tight, Target::Tight, "application_agent_diagnostic_buckets"@)
            .key("organization_id"@, bucket.organization_id.bound())
            .key("project_id"@, bucket.project_id.bound())
            .key("application_id"@, bucket.application_id.bound())
            .key("cluster_id"@, bucket.cluster_id.bound())
            .key("agent_id"@, bucket.agent_id.bound())
            .key("bucket_at"@, bucket.bucket_at.bound())
            .either("reset"@, deltas.reset.bound())
            .added("dropped"@, deltas.dropped.bound())
            .added("rate_limited"@, deltas.rate_limited.bound())
            .added("decode_failed"@, deltas.decode_failed.bound())
            .added("attribution_failed"@, deltas.attribution_failed.bound())
            .added("capacity"@, deltas.capacity.bound())
            .added("kernel_lost"@, deltas.kernel_lost.bound())
            .added("correlation"@, deltas.correlation.bound())
            .added("delivery_retry"@, deltas.delivery_retry.bound())
            .added("unsupported"@, deltas.unsupported.bound())
    }

    /// Adds diagnostic counter deltas into their one-minute bucket. `reset`
    /// marks a bucket in which the agent's counters went backwards, so its
    /// deltas could not be computed.
    pub fn add_diagnostic_deltas(
        organization_id: Uuid,
        project_id: Uuid,
        application_id: Uuid,
        cluster_id: Uuid,
        agent_id: Uuid,
        bucket_at: Timestamp,
        reset: bool,
        dropped: i64,
        rate_limited: i64,
        decode_failed: i64,
        attribution_failed: i64,
        capacity: i64,
        kernel_lost: i64,
        correlation: i64,
        delivery_retry: i64,
        unsupported: i64,
    ) -> (statement: Statement)
        ensures
            statement@ == Self::diagnostic_deltas(
                Bucket {
                    organization_id,
                    project_id,
                    application_id,
                    cluster_id,
                    agent_id,
                    bucket_at,
                },
                Deltas {
                    reset,
                    dropped,
                    rate_limited,
                    decode_failed,
                    attribution_failed,
                    capacity,
                    kernel_lost,
                    correlation,
                    delivery_retry,
                    unsupported,
                },
            ).finish(""@, Fetch::Affected),
    {
        Upsert::new(Style::Tight, Target::Tight, "application_agent_diagnostic_buckets")
            .key("organization_id", organization_id)
            .key("project_id", project_id)
            .key("application_id", application_id)
            .key("cluster_id", cluster_id)
            .key("agent_id", agent_id)
            .key("bucket_at", bucket_at)
            .either("reset", reset)
            .added("dropped", dropped)
            .added("rate_limited", rate_limited)
            .added("decode_failed", decode_failed)
            .added("attribution_failed", attribution_failed)
            .added("capacity", capacity)
            .added("kernel_lost", kernel_lost)
            .added("correlation", correlation)
            .added("delivery_retry", delivery_retry)
            .added("unsupported", unsupported)
            .finish("", Fetch::Affected)
    }

    pub const END_SESSION: &'static str = "UPDATE agent_sessions SET ";

    /// What the end of a session changes.
    pub open spec fn disconnection() -> Seq<Change> {
        seq![Change::Given("disconnected_at"@, 2)]
    }

    /// The conditions that a session is ended by.
    pub open spec fn connected() -> Seq<Condition> {
        seq![
            Condition::Compared("id"@, Test::Equal, 1),
            Condition::Null("disconnected_at"@),
        ]
    }

    /// Marks an agent session disconnected, unless it already is.
    pub fn end_session(session_id: Uuid, disconnected_at: Timestamp) -> (statement: Statement)
        ensures
            statement@ == StatementView::affected(
                Self::END_SESSION@ + update::all_text(Self::disconnection(), Form::Tight)
                    + " WHERE "@ + condition::all_text(Self::connected()),
                seq![session_id.bound(), disconnected_at.bound()],
            ),
    {
        let changes = Changes::new(Form::Tight).given("disconnected_at", 2);
        let conditions = Conditions::new().compared("id", Test::Equal, 1).is_null(
            "disconnected_at",
        );
        assert(changes@ =~= Self::disconnection());
        assert(conditions@ =~= Self::connected());
        let text = text::join(Self::END_SESSION, changes.into_text().as_str())
            .concat(" WHERE ")
            .concat(conditions.into_text().as_str());
        Statement::affected(text.as_str()).bind(session_id).bind(disconnected_at)
    }

    /// What the end of a session changes in an agent.
    pub open spec fn session_end() -> Seq<Change> {
        seq![Change::Given("last_session_ended_at"@, 5)]
    }

    /// The conditions on the agent whose session ended, besides the path.
    pub open spec fn ended_agent() -> Seq<Condition> {
        seq![Condition::Compared("agent_id"@, Test::Equal, 4)]
    }

    /// Records when the agent's latest session ended.
    pub fn record_session_end(
        organization_id: Uuid,
        project_id: Uuid,
        application_id: Uuid,
        agent_id: Uuid,
        ended_at: Timestamp,
    ) -> (statement: Statement)
        ensures
            statement@ == StatementView::affected(
                tenant::application_text(
                    "UPDATE application_agents SET "@ + update::all_text(Self::session_end(), Form::Tight) + " "@,
                    Before::Where,
                    ""@,
                    Layout::Tight,
                    After::And,
                    condition::all_text(Self::ended_agent()),
                ),
                seq![
                    organization_id.bound(),
                    project_id.bound(),
                    application_id.bound(),
                    agent_id.bound(),
                    ended_at.bound(),
                ],
            ),
            tenant::filters_by_application(statement@, organization_id, project_id, application_id),
    {
        let changes = Changes::new(Form::Tight)
            .given("last_session_ended_at", 5);
        let conditions = Conditions::new().compared("agent_id", Test::Equal, 4);
        assert(changes@ =~= Self::session_end());
        assert(conditions@ =~= Self::ended_agent());
        let head = text::join(
            "UPDATE application_agents SET ",
            changes.into_text().as_str(),
        ).concat(" ");
        let tail = conditions.into_text();
        let text = tenant::application(
            head.as_str(),
            Before::Where,
            "",
            Layout::Tight,
            After::And,
            tail.as_str(),
        );
        Statement::affected(text.as_str())
            .bind(organization_id)
            .bind(project_id)
            .bind(application_id)
            .bind(agent_id)
            .bind(ended_at)
    }

    pub const CURSOR_IS_VALID: &'static str =
        "SELECT EXISTS(SELECT 1 FROM application_agents ";

    pub const CURSOR_IS_VALID_TAIL: &'static str = ")";

    /// The conditions on the agent that a cursor names, besides the path.
    pub open spec fn agent_at_cursor() -> Seq<Condition> {
        seq![
            Condition::Compared("agent_id"@, Test::Equal, 4),
            Condition::Compared("authenticated_at"@, Test::Equal, 5),
        ]
    }

    /// Reports whether a health-page cursor names an agent of this
    /// application authenticated at exactly the cursor's time.
    pub fn cursor_is_valid(
        organization_id: Uuid,
        project_id: Uuid,
        application_id: Uuid,
        agent_id: Uuid,
        authenticated_at: Timestamp,
    ) -> (statement: Statement)
        ensures
            statement@ == StatementView::one(
                tenant::application_text(
                    Self::CURSOR_IS_VALID@,
                    Before::Where,
                    ""@,
                    Layout::Tight,
                    After::And,
                    condition::all_text(Self::agent_at_cursor()) + Self::CURSOR_IS_VALID_TAIL@,
                ),
                seq![
                    organization_id.bound(),
                    project_id.bound(),
                    application_id.bound(),
                    agent_id.bound(),
                    authenticated_at.bound(),
                ],
            ),
            tenant::filters_by_application(statement@, organization_id, project_id, application_id),
    {
        let conditions = Conditions::new()
            .compared("agent_id", Test::Equal, 4)
            .compared("authenticated_at", Test::Equal, 5);
        assert(conditions@ =~= Self::agent_at_cursor());
        let tail = conditions.into_text().concat(Self::CURSOR_IS_VALID_TAIL);
        let text = tenant::application(
            Self::CURSOR_IS_VALID,
            Before::Where,
            "",
            Layout::Tight,
            After::And,
            tail.as_str(),
        );
        Statement::one(text.as_str())
            .bind(organization_id)
            .bind(project_id)
            .bind(application_id)
            .bind(agent_id)
            .bind(authenticated_at)
    }

    pub const APPLICATION_VISIBLE: &'static str =
        "SELECT EXISTS(SELECT 1 FROM applications a ";

    pub const APPLICATION_VISIBLE_MEMBER: &'static str =
        "a.id=$3 AND ($4 OR EXISTS(SELECT 1 FROM project_memberships m ";

    pub const APPLICATION_VISIBLE_TAIL: &'static str = "m.user_id=$5)))";

    /// Reports whether the application exists and the user may see it:
    /// through an organization role that inherits project access, or through
    /// a membership of its project.
    pub fn application_visible(
        organization_id: Uuid,
        project_id: Uuid,
        application_id: Uuid,
        inherits_project_access: bool,
        user_id: Uuid,
    ) -> (statement: Statement)
        ensures
            statement@ == StatementView::one(
                tenant::project_text(
                    Self::APPLICATION_VISIBLE@,
                    Before::Where,
                    "a."@,
                    Layout::Tight,
                    After::And,
                    tenant::project_text(
                        Self::APPLICATION_VISIBLE_MEMBER@,
                        Before::Where,
                        "m."@,
                        Layout::Tight,
                        After::And,
                        Self::APPLICATION_VISIBLE_TAIL@,
                    ),
                ),
                seq![
                    organization_id.bound(),
                    project_id.bound(),
                    application_id.bound(),
                    inherits_project_access.bound(),
                    user_id.bound(),
                ],
            ),
            tenant::filters_by_project(statement@, organization_id, project_id),
    {
        let rest = tenant::project(
            Self::APPLICATION_VISIBLE_MEMBER,
            Before::Where,
            "m.",
            Layout::Tight,
            After::And,
            Self::APPLICATION_VISIBLE_TAIL,
        );
        let text = tenant::project(
            Self::APPLICATION_VISIBLE,
            Before::Where,
            "a.",
            Layout::Tight,
            After::And,
            rest.as_str(),
        );
        Statement::one(text.as_str())
            .bind(organization_id)
            .bind(project_id)
            .bind(application_id)
            .bind(inherits_project_access)
            .bind(user_id)
    }

    pub const AGENT_PAGE: &'static str =
        "SELECT aa.organization_id,aa.project_id,aa.application_id,aa.agent_id,aa.cluster_id,c.name cluster_name,a.node_name,a.agent_version,a.architecture,a.kernel_release,aa.capabilities,aa.authenticated_at,aa.history_started_at,aa.last_heartbeat_at,(SELECT min(e.observed_at) FROM runtime_events e WHERE e.organization_id=aa.organization_id AND e.project_id=aa.project_id AND e.application_id=aa.application_id AND e.agent_id=aa.agent_id) first_event_at,(SELECT max(e.observed_at) FROM runtime_events e WHERE e.organization_id=aa.organization_id AND e.project_id=aa.project_id AND e.application_id=aa.application_id AND e.agent_id=aa.agent_id) last_event_at FROM application_agents aa JOIN agents a ON a.organization_id=aa.organization_id AND a.cluster_id=aa.cluster_id AND a.id=aa.agent_id JOIN clusters c ON c.organization_id=aa.organization_id AND c.id=aa.cluster_id ";

    pub const AGENT_PAGE_TAIL: &'static str = " ORDER BY aa.authenticated_at DESC,aa.agent_id DESC LIMIT $6";

    /// The conditions on an agent of a page, besides the path.
    pub open spec fn page_of_agents() -> Seq<Condition> {
        seq![
            Condition::PairIfGiven(
                "aa.authenticated_at"@,
                "aa.agent_id"@,
                Test::Less,
                Kind::Timestamp,
                4,
                5,
            ),
        ]
    }

    /// A page of the application's agents, most recently authenticated first,
    /// after the cursor when one is given, with their cluster's name.
    pub fn agent_page(
        organization_id: Uuid,
        project_id: Uuid,
        application_id: Uuid,
        cursor_authenticated_at: Option<Timestamp>,
        cursor_agent_id: Option<Uuid>,
        fetch_limit: i64,
    ) -> (statement: Statement)
        ensures
            statement@ == StatementView::all(
                tenant::application_text(
                    Self::AGENT_PAGE@,
                    Before::Where,
                    "aa."@,
                    Layout::Tight,
                    After::And,
                    condition::all_text(Self::page_of_agents()) + Self::AGENT_PAGE_TAIL@,
                ),
                seq![
                    organization_id.bound(),
                    project_id.bound(),
                    application_id.bound(),
                    cursor_authenticated_at.bound(),
                    cursor_agent_id.bound(),
                    fetch_limit.bound(),
                ],
            ),
            tenant::filters_by_application(statement@, organization_id, project_id, application_id),
    {
        let conditions = Conditions::new().pair_if_given("aa.authenticated_at", "aa.agent_id", Test::Less, Kind::Timestamp, 4, 5);
        assert(conditions@ =~= Self::page_of_agents());
        let tail = conditions.into_text().concat(Self::AGENT_PAGE_TAIL);
        let text = tenant::application(
            Self::AGENT_PAGE,
            Before::Where,
            "aa.",
            Layout::Tight,
            After::And,
            tail.as_str(),
        );
        Statement::all(text.as_str())
            .bind(organization_id)
            .bind(project_id)
            .bind(application_id)
            .bind(cursor_authenticated_at)
            .bind(cursor_agent_id)
            .bind(fetch_limit)
    }

    pub const BUCKETS: &'static str =
        "WITH signals AS (SELECT date_bin(($6::text || ' minutes')::interval,bucket_at,'1970-01-01'::timestamptz) bucket_at,TRUE received FROM application_agent_signal_buckets ";

    pub const BUCKETS_DIAGNOSTICS: &'static str =
        "agent_id=$4 AND bucket_at >= $7 AND bucket_at < $8 GROUP BY 1), diagnostics AS (SELECT date_bin(($6::text || ' minutes')::interval,bucket_at,'1970-01-01'::timestamptz) bucket_at,bool_or(reset) reset,sum(dropped)::bigint dropped,sum(rate_limited)::bigint rate_limited,sum(decode_failed)::bigint decode_failed,sum(attribution_failed)::bigint attribution_failed,sum(capacity)::bigint capacity,sum(kernel_lost)::bigint kernel_lost,sum(correlation)::bigint correlation,sum(delivery_retry)::bigint delivery_retry,sum(unsupported)::bigint unsupported FROM application_agent_diagnostic_buckets ";

    pub const BUCKETS_TAIL: &'static str =
        "cluster_id=$5 AND agent_id=$4 AND bucket_at >= $7 AND bucket_at < $8 GROUP BY 1) SELECT COALESCE(s.bucket_at,d.bucket_at) bucket_at,COALESCE(s.received,FALSE) received,COALESCE(d.reset,FALSE) reset,COALESCE(d.dropped,0) dropped,COALESCE(d.rate_limited,0) rate_limited,COALESCE(d.decode_failed,0) decode_failed,COALESCE(d.attribution_failed,0) attribution_failed,COALESCE(d.capacity,0) capacity,COALESCE(d.kernel_lost,0) kernel_lost,COALESCE(d.correlation,0) correlation,COALESCE(d.delivery_retry,0) delivery_retry,COALESCE(d.unsupported,0) unsupported FROM signals s FULL OUTER JOIN diagnostics d USING(bucket_at) ORDER BY bucket_at";

    /// An agent's signal and diagnostic buckets rolled up to `step_minutes`
    /// over `[start, end)`.
    pub fn buckets(
        organization_id: Uuid,
        project_id: Uuid,
        application_id: Uuid,
        agent_id: Uuid,
        cluster_id: Uuid,
        step_minutes: i64,
        start: Timestamp,
        end: Timestamp,
    ) -> (statement: Statement)
        ensures
            statement@ == StatementView::all(
                tenant::application_text(
                    Self::BUCKETS@,
                    Before::Where,
                    ""@,
                    Layout::Tight,
                    After::And,
                    tenant::application_text(
                        Self::BUCKETS_DIAGNOSTICS@,
                        Before::Where,
                        ""@,
                        Layout::Tight,
                        After::And,
                        Self::BUCKETS_TAIL@,
                    ),
                ),
                seq![
                    organization_id.bound(),
                    project_id.bound(),
                    application_id.bound(),
                    agent_id.bound(),
                    cluster_id.bound(),
                    step_minutes.bound(),
                    start.bound(),
                    end.bound(),
                ],
            ),
            tenant::filters_by_application(statement@, organization_id, project_id, application_id),
    {
        let rest = tenant::application(
            Self::BUCKETS_DIAGNOSTICS,
            Before::Where,
            "",
            Layout::Tight,
            After::And,
            Self::BUCKETS_TAIL,
        );
        let text = tenant::application(
            Self::BUCKETS,
            Before::Where,
            "",
            Layout::Tight,
            After::And,
            rest.as_str(),
        );
        Statement::all(text.as_str())
            .bind(organization_id)
            .bind(project_id)
            .bind(application_id)
            .bind(agent_id)
            .bind(cluster_id)
            .bind(step_minutes)
            .bind(start)
            .bind(end)
    }
}

/// Deltas add up, in either order. Where a bucket holds `stored`, or is not
/// there and `stored` is nothing, two writes of deltas leave one row for it,
/// with each counter the sum of the three and a reset where any has one, and
/// every other row as it was.
pub proof fn deltas_add_up(
    table: Table,
    bucket: Bucket,
    stored: Deltas,
    first: Deltas,
    second: Deltas,
    less: spec_fn(Bound, Bound) -> bool,
)
    requires
        ({
            let row = AgentHealthRepository::diagnostic_deltas(bucket, stored);
            if table.contains_key(row.key) {
                table[row.key] == row.values
            } else {
                stored == Deltas::none()
            }
        }),
        stored.can_add(first),
        stored.can_add(second),
        stored.plus(first).can_add(second),
    ensures
        ({
            let row = AgentHealthRepository::diagnostic_deltas(
                bucket,
                stored.plus(first).plus(second),
            );
            let one = AgentHealthRepository::diagnostic_deltas(bucket, first);
            let other = AgentHealthRepository::diagnostic_deltas(bucket, second);
            let either = table.insert(row.key, row.values);
            &&& other.applied(one.applied(table, less), less) == either
            &&& one.applied(other.applied(table, less), less) == either
        }),
{
    lemma_deltas_are_added(table, bucket, stored, first, less);
    lemma_deltas_are_added(table, bucket, stored, second, less);
    let key = AgentHealthRepository::diagnostic_deltas(bucket, stored).key;
    let one = AgentHealthRepository::diagnostic_deltas(bucket, stored.plus(first));
    let other = AgentHealthRepository::diagnostic_deltas(bucket, stored.plus(second));
    assert(one.key =~= key);
    assert(other.key =~= key);
    let after_one = table.insert(key, one.values);
    let after_other = table.insert(key, other.values);
    lemma_deltas_are_added(after_one, bucket, stored.plus(first), second, less);
    lemma_deltas_are_added(after_other, bucket, stored.plus(second), first, less);
    assert(stored.plus(first).plus(second) == stored.plus(second).plus(first));
    let row = AgentHealthRepository::diagnostic_deltas(bucket, stored.plus(first).plus(second));
    assert(row.key =~= key);
    assert(after_one.insert(key, row.values) =~= table.insert(key, row.values));
    assert(after_other.insert(key, row.values) =~= table.insert(key, row.values));
}

/// One write of deltas leaves what was stored and the deltas, added up.
proof fn lemma_deltas_are_added(
    table: Table,
    bucket: Bucket,
    stored: Deltas,
    deltas: Deltas,
    less: spec_fn(Bound, Bound) -> bool,
)
    requires
        ({
            let row = AgentHealthRepository::diagnostic_deltas(bucket, stored);
            if table.contains_key(row.key) {
                table[row.key] == row.values
            } else {
                stored == Deltas::none()
            }
        }),
        stored.can_add(deltas),
    ensures
        ({
            let row = AgentHealthRepository::diagnostic_deltas(bucket, stored.plus(deltas));
            &&& row.key == AgentHealthRepository::diagnostic_deltas(bucket, stored).key
            &&& AgentHealthRepository::diagnostic_deltas(bucket, deltas).applied(table, less)
                == table.insert(row.key, row.values)
        }),
{
    let row = AgentHealthRepository::diagnostic_deltas(bucket, stored.plus(deltas));
    let written = AgentHealthRepository::diagnostic_deltas(bucket, deltas);
    let before = AgentHealthRepository::diagnostic_deltas(bucket, stored);
    assert(row.key =~= before.key);
    assert(written.key =~= before.key);
    if table.contains_key(written.key) {
        assert(written.over(before.values, less) =~= row.values);
    } else {
        assert(written.values =~= row.values);
    }
}

/// A session ends once: it is marked disconnected where it is not, and the time
/// that is marked stays, whenever it is said to end again.
pub proof fn session_ends_once(
    session: Record,
    session_id: Uuid,
    disconnected_at: Timestamp,
    later_at: Timestamp,
    database: Database,
)
    ensures
        ({
            let values: Seq<Bound> = seq![session_id.bound(), disconnected_at.bound()];
            let after = update::changed(
                AgentHealthRepository::disconnection(),
                session,
                values,
                database,
            );
            &&& condition::selects(AgentHealthRepository::connected(), session, values, database)
                <==> {
                &&& condition::has(session, "id"@, session_id.bound())
                &&& condition::lacks(session, "disconnected_at"@)
            }
            &&& after == session.insert("disconnected_at"@, disconnected_at.bound())
            &&& !condition::selects(
                AgentHealthRepository::connected(),
                after,
                seq![session_id.bound(), later_at.bound()],
                database,
            )
        }),
{
    let changes = AgentHealthRepository::disconnection();
    let conditions = AgentHealthRepository::connected();
    let values: Seq<Bound> = seq![session_id.bound(), disconnected_at.bound()];
    let others: Seq<Bound> = seq![session_id.bound(), later_at.bound()];
    assert(changes.drop_last() =~= Seq::<Change>::empty());
    reveal_with_fuel(update::changed, 2);
    let after = update::changed(changes, session, values, database);
    assert(!conditions[1].holds(after, others, database));
    assert(condition::selects(conditions, session, values, database) <==> {
        &&& conditions[0].holds(session, values, database)
        &&& conditions[1].holds(session, values, database)
    });
}

/// The buckets that are deleted are of the table that the old ones are looked up in.
pub proof fn pruning_deletes_from_the_table_it_reads(table: Seq<char>)
    ensures
        AgentHealthRepository::prune_text(table) == "DELETE FROM "@ + table
            + " WHERE ctid IN (SELECT ctid FROM "@ + table
            + " WHERE bucket_at<$1 ORDER BY bucket_at LIMIT 500)"@,
{
    assert(AgentHealthRepository::prune_text(table) =~= "DELETE FROM "@ + table
        + " WHERE ctid IN (SELECT ctid FROM "@ + table
        + " WHERE bucket_at<$1 ORDER BY bucket_at LIMIT 500)"@);
}

/// The application's agent of the id was last heard at the time, and nothing
/// else of it changes.
pub proof fn heartbeat_is_recorded(
    agent: Record,
    organization_id: Uuid,
    project_id: Uuid,
    application_id: Uuid,
    agent_id: Uuid,
    received_at: Timestamp,
    database: Database,
)
    ensures
        ({
            let values: Seq<Bound> = seq![
                organization_id.bound(),
                project_id.bound(),
                application_id.bound(),
                agent_id.bound(),
                received_at.bound(),
            ];
            &&& condition::selects(
                AgentHealthRepository::heard_agent(),
                agent,
                values,
                database,
            ) <==> {
                &&& condition::has(agent, "agent_id"@, agent_id.bound())
            }
            &&& update::changed(
                AgentHealthRepository::heartbeat(),
                agent,
                values,
                database,
            ) == agent
                .insert("last_heartbeat_at"@, received_at.bound())
        }),
{
    broadcast use update::first_changes;

    let values: Seq<Bound> = seq![
        organization_id.bound(),
        project_id.bound(),
        application_id.bound(),
        agent_id.bound(),
        received_at.bound(),
    ];
    let changes = AgentHealthRepository::heartbeat();
    assert(changes =~= changes.take(changes.len() as int));
    let conditions = AgentHealthRepository::heard_agent();
    assert(condition::selects(conditions, agent, values, database) <==> {
        &&& conditions[0].holds(agent, values, database)
    });
}

/// The application's agent of the id had its latest session end at the time,
/// and nothing else of it changes.
pub proof fn session_end_is_recorded(
    agent: Record,
    organization_id: Uuid,
    project_id: Uuid,
    application_id: Uuid,
    agent_id: Uuid,
    ended_at: Timestamp,
    database: Database,
)
    ensures
        ({
            let values: Seq<Bound> = seq![
                organization_id.bound(),
                project_id.bound(),
                application_id.bound(),
                agent_id.bound(),
                ended_at.bound(),
            ];
            &&& condition::selects(
                AgentHealthRepository::ended_agent(),
                agent,
                values,
                database,
            ) <==> {
                &&& condition::has(agent, "agent_id"@, agent_id.bound())
            }
            &&& update::changed(
                AgentHealthRepository::session_end(),
                agent,
                values,
                database,
            ) == agent
                .insert("last_session_ended_at"@, ended_at.bound())
        }),
{
    broadcast use update::first_changes;

    let values: Seq<Bound> = seq![
        organization_id.bound(),
        project_id.bound(),
        application_id.bound(),
        agent_id.bound(),
        ended_at.bound(),
    ];
    let changes = AgentHealthRepository::session_end();
    assert(changes =~= changes.take(changes.len() as int));
    let conditions = AgentHealthRepository::ended_agent();
    assert(condition::selects(conditions, agent, values, database) <==> {
        &&& conditions[0].holds(agent, values, database)
    });
}

/// An agent is on the page exactly where it comes behind the cursor, in the
/// order of the listing, or no cursor is given.
pub proof fn page_holds_the_agents_behind_the_cursor(
    agent: Record,
    organization_id: Uuid,
    project_id: Uuid,
    application_id: Uuid,
    cursor_authenticated_at: Option<Timestamp>,
    cursor_agent_id: Option<Uuid>,
    fetch_limit: i64,
    database: Database,
)
    ensures
        ({
            let values: Seq<Bound> = seq![
                organization_id.bound(),
                project_id.bound(),
                application_id.bound(),
                cursor_authenticated_at.bound(),
                cursor_agent_id.bound(),
                fetch_limit.bound(),
            ];
            condition::selects(
                AgentHealthRepository::page_of_agents(),
                agent,
                values,
                database,
            ) <==> {
                &&& cursor_authenticated_at is Some ==> {
                    &&& !condition::lacks(agent, "aa.authenticated_at"@)
                    &&& {
                        ||| {
                            &&& agent["aa.authenticated_at"@] != cursor_authenticated_at.bound()
                            &&& (database.less)(
                                agent["aa.authenticated_at"@],
                                cursor_authenticated_at.bound(),
                            )
                        }
                        ||| {
                            &&& agent["aa.authenticated_at"@] == cursor_authenticated_at.bound()
                            &&& cursor_agent_id is Some
                            &&& !condition::lacks(agent, "aa.agent_id"@)
                            &&& (database.less)(agent["aa.agent_id"@], cursor_agent_id.bound())
                        }
                    }
                }
            }
        }),
{
    let values: Seq<Bound> = seq![
        organization_id.bound(),
        project_id.bound(),
        application_id.bound(),
        cursor_authenticated_at.bound(),
        cursor_agent_id.bound(),
        fetch_limit.bound(),
    ];
    let conditions = AgentHealthRepository::page_of_agents();
    assert(condition::selects(conditions, agent, values, database) <==> {
        &&& conditions[0].holds(agent, values, database)
    });
}

/// The baseline is that of the agent in the cluster.
pub proof fn baseline_is_that_of_the_agent(
    baseline: Record,
    organization_id: Uuid,
    project_id: Uuid,
    application_id: Uuid,
    cluster_id: Uuid,
    agent_id: Uuid,
    database: Database,
)
    ensures
        ({
            let values: Seq<Bound> = seq![
                organization_id.bound(),
                project_id.bound(),
                application_id.bound(),
                cluster_id.bound(),
                agent_id.bound(),
            ];
            condition::selects(
                AgentHealthRepository::baseline_of_agent(),
                baseline,
                values,
                database,
            ) <==> {
                &&& condition::has(baseline, "cluster_id"@, cluster_id.bound())
                &&& condition::has(baseline, "agent_id"@, agent_id.bound())
            }
        }),
{
    let values: Seq<Bound> = seq![
        organization_id.bound(),
        project_id.bound(),
        application_id.bound(),
        cluster_id.bound(),
        agent_id.bound(),
    ];
    let conditions = AgentHealthRepository::baseline_of_agent();
    assert(condition::selects(conditions, baseline, values, database) <==> {
        &&& conditions[0].holds(baseline, values, database)
        &&& conditions[1].holds(baseline, values, database)
    });
}

/// A cursor is valid exactly where the agent authenticated at its time.
pub proof fn cursor_names_an_agent_and_its_time(
    agent: Record,
    organization_id: Uuid,
    project_id: Uuid,
    application_id: Uuid,
    agent_id: Uuid,
    authenticated_at: Timestamp,
    database: Database,
)
    ensures
        ({
            let values: Seq<Bound> = seq![
                organization_id.bound(),
                project_id.bound(),
                application_id.bound(),
                agent_id.bound(),
                authenticated_at.bound(),
            ];
            condition::selects(
                AgentHealthRepository::agent_at_cursor(),
                agent,
                values,
                database,
            ) <==> {
                &&& condition::has(agent, "agent_id"@, agent_id.bound())
                &&& condition::has(agent, "authenticated_at"@, authenticated_at.bound())
            }
        }),
{
    let values: Seq<Bound> = seq![
        organization_id.bound(),
        project_id.bound(),
        application_id.bound(),
        agent_id.bound(),
        authenticated_at.bound(),
    ];
    let conditions = AgentHealthRepository::agent_at_cursor();
    assert(condition::selects(conditions, agent, values, database) <==> {
        &&& conditions[0].holds(agent, values, database)
        &&& conditions[1].holds(agent, values, database)
    });
}

} // verus!
