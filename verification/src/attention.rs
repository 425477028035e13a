//! The reads behind the attention views: what changed between each
//! application's latest two releases, open discoveries, notification
//! delivery problems and resource findings, across the projects a user can
//! see or within one application.
//!
//! Every projection belongs to the attention endpoints, so the reads document
//! the columns they select. They are meant to run inside one read-only
//! snapshot.

use uuid::Uuid;
use vstd::prelude::*;

#[allow(unused_imports)]
use crate::statement::Bind;
use crate::condition::{Condition, Conditions, Database, Kind, Record, Test};
use crate::condition;
use crate::statement::{Bound, Statement, StatementView, Timestamp};
use crate::tenant::{After, Before, Layout, Start};
use crate::tenant;
use crate::text;

verus! {

broadcast use tenant::known_aliases_name_tables;

/// Reads behind the attention views.
#[derive(Clone, Copy, Debug)]
pub struct AttentionRepository;

impl AttentionRepository {
    /// The comparison of each application's latest release with its baseline:
    /// the transition predecessor when one was recorded, otherwise the previous
    /// deployment. Reads the organization at `$1` and the project ids at `$2`,
    /// and ends with the per-application aggregate `agg`.
    pub const CHANGED_CTE: &'static str =
        "WITH ranked AS (SELECT r.*,row_number() OVER(PARTITION BY application_id ORDER BY deployed_at DESC,id DESC) rn FROM releases r ";

    pub const CHANGED_CTE_TAIL: &'static str =
        "project_id=ANY($2)), pairs AS (SELECT t.organization_id,t.project_id,t.application_id,t.id target_id,t.version target_version,t.deployed_at target_deployed_at,b.id baseline_id,b.version baseline_version,b.deployed_at baseline_deployed_at FROM ranked t JOIN LATERAL (((SELECT r.*,0 priority FROM deployment_episodes te JOIN deployment_episode_predecessors x ON x.episode_id=te.id JOIN deployment_episodes pe ON pe.id=x.predecessor_episode_id JOIN releases r ON r.id=pe.release_id WHERE te.organization_id=t.organization_id AND te.application_id=t.application_id AND te.release_id=t.id ORDER BY te.first_observed_at DESC,te.id DESC,x.observed_at DESC,pe.id DESC LIMIT 1) UNION ALL (SELECT r.*,1 priority FROM releases r WHERE r.organization_id=t.organization_id AND r.application_id=t.application_id AND (r.deployed_at,r.id)<(t.deployed_at,t.id) ORDER BY r.deployed_at DESC,r.id DESC LIMIT 1)) ORDER BY priority LIMIT 1) b ON true WHERE t.rn=1), diff AS (SELECT p.*,ids.group_id,CASE WHEN b.group_id IS NULL AND EXISTS(SELECT 1 FROM releases r JOIN projects pr ON pr.id=r.project_id WHERE r.id=p.baseline_id AND r.deployed_at<pr.runtime_history_expired_before) THEN 'unknown' WHEN b.group_id IS NULL THEN 'new' WHEN t.group_id IS NULL AND (EXISTS(SELECT 1 FROM releases r JOIN projects pr ON pr.id=r.project_id WHERE r.id=p.target_id AND r.deployed_at<pr.runtime_history_expired_before) OR NOT (EXISTS(SELECT 1 FROM runtime_event_group_releases gr WHERE gr.release_id=p.target_id AND gr.occurrence_count>0) OR EXISTS(SELECT 1 FROM runtime_events ev WHERE ev.release_id=p.target_id))) THEN 'unknown' WHEN t.group_id IS NULL THEN 'disappeared' ELSE 'unchanged' END classification,coalesce(t.occurrence_count,0) tc,coalesce(b.occurrence_count,0) bc FROM pairs p JOIN LATERAL (SELECT group_id FROM runtime_event_group_releases WHERE release_id=p.target_id AND occurrence_count>0 UNION SELECT group_id FROM runtime_event_group_releases WHERE release_id=p.baseline_id AND occurrence_count>0) ids ON true LEFT JOIN runtime_event_group_releases t ON t.release_id=p.target_id AND t.group_id=ids.group_id LEFT JOIN runtime_event_group_releases b ON b.release_id=p.baseline_id AND b.group_id=ids.group_id), agg AS (SELECT project_id,application_id,target_id,target_version,target_deployed_at,baseline_id,baseline_version,baseline_deployed_at,count(*) FILTER(WHERE classification='new')::bigint new_count,count(*) FILTER(WHERE classification='disappeared')::bigint disappeared_count,count(*) FILTER(WHERE classification='unchanged')::bigint unchanged_count,count(*)::bigint total_item_count,coalesce(sum(abs(tc-bc)),0)::bigint absolute_occurrence_delta_sum,coalesce(max(abs(tc-bc)),0)::bigint max_absolute_occurrence_delta FROM diff WHERE classification<>'unknown' GROUP BY project_id,application_id,target_id,target_version,target_deployed_at,baseline_id,baseline_version,baseline_deployed_at)";

    /// The release comparison projection.
    pub const CHANGED_COLUMNS: &'static str =
        "a.project_id,p.name project_name,p.slug project_slug,a.application_id,app.name application_name,app.slug application_slug,a.target_id,a.target_version,release_display_name(app.name,rt.source,rt.version,rt.identity_digest,rt.identity_components) target_display_name,a.target_deployed_at,a.baseline_id,a.baseline_version,release_display_name(app.name,rb.source,rb.version,rb.identity_digest,rb.identity_components) baseline_display_name,a.baseline_deployed_at,a.new_count,a.disappeared_count,a.unchanged_count,a.total_item_count,a.absolute_occurrence_delta_sum,a.max_absolute_occurrence_delta";

    /// The release comparison with the names of what it compares.
    pub const CHANGED_PROJECTS: &'static str = "agg a JOIN projects p ";

    pub const CHANGED_APPLICATIONS: &'static str = "p.id=a.project_id JOIN applications app ";

    pub const CHANGED_RELEASES: &'static str =
        "app.id=a.application_id JOIN releases rt ON rt.id=a.target_id JOIN releases rb ON rb.id=a.baseline_id WHERE ";

    /// The text that reads from the release comparison.
    pub open spec fn changed_text(query: Seq<char>) -> Seq<char> {
        tenant::organization_text(
            Self::CHANGED_CTE@,
            Before::Where,
            ""@,
            Layout::Tight,
            After::And,
            Self::CHANGED_CTE_TAIL@ + " "@ + query,
        )
    }

    /// Reads from the release comparison.
    fn with_changed(query: &str) -> (text: String)
        ensures
            text@ == Self::changed_text(query@),
            tenant::conditions_on_organization(text@, Start::First),
            forall|columns: Seq<char>|
                #![trigger text::gives(text@, columns)]
                text::gives(query@, columns) ==> text::gives(text@, columns),
    {
        let tail = text::join(Self::CHANGED_CTE_TAIL, " ").concat(query);
        let text = tenant::organization(
            Self::CHANGED_CTE,
            Before::Where,
            "",
            Layout::Tight,
            After::And,
            tail.as_str(),
        );
        proof {
            let filter = tenant::organization_filter(""@, Layout::Tight, Start::First);
            let before = Self::CHANGED_CTE@ + Before::Where.text() + filter
                + After::And.text(Layout::Tight) + Self::CHANGED_CTE_TAIL@ + " "@;
            assert(text@ =~= before + query@);
            assert forall|columns: Seq<char>| text::gives(query@, columns) implies #[trigger]
                text::gives(text@, columns) by {
                text::lemma_given_behind(before, query@, columns);
            }
        }
        text
    }

    /// The text that selects the compared releases that `rest` asks for.
    pub open spec fn change_text(rest: Seq<char>) -> Seq<char> {
        text::select_text(
            Self::CHANGED_COLUMNS@,
            tenant::organization_text(
                Self::CHANGED_PROJECTS@,
                Before::On,
                "p."@,
                Layout::Tight,
                After::And,
                tenant::organization_text(
                    Self::CHANGED_APPLICATIONS@,
                    Before::On,
                    "app."@,
                    Layout::Tight,
                    After::And,
                    Self::CHANGED_RELEASES@ + rest,
                ),
            ),
        )
    }

    /// Selects the compared releases that `rest` asks for.
    fn change(rest: &str) -> (text: String)
        ensures
            text@ == Self::change_text(rest@),
            text::gives(text@, Self::CHANGED_COLUMNS@),
    {
        let releases = text::join(Self::CHANGED_RELEASES, rest);
        let from = tenant::organization(
            Self::CHANGED_APPLICATIONS,
            Before::On,
            "app.",
            Layout::Tight,
            After::And,
            releases.as_str(),
        );
        let from = tenant::organization(
            Self::CHANGED_PROJECTS,
            Before::On,
            "p.",
            Layout::Tight,
            After::And,
            from.as_str(),
        );
        text::select(Self::CHANGED_COLUMNS, from.as_str())
    }

    /// The conditions on a compared application that changed.
    pub open spec fn added_or_dropped() -> Seq<Condition> {
        seq![Condition::SumPositive("a.new_count"@, "a.disappeared_count"@)]
    }

    pub const CHANGED: &'static str =
        " ORDER BY a.new_count+a.disappeared_count DESC,a.target_deployed_at DESC,a.application_id LIMIT $3";

    /// Applications of the projects whose latest release added or dropped
    /// runtime groups against its baseline, most changes first.
    ///
    /// Selects the project and application identity, the target and baseline
    /// release ids, versions, display names and deployment times,
    /// `new_count`, `disappeared_count`, `unchanged_count`,
    /// `total_item_count`, `absolute_occurrence_delta_sum` and
    /// `max_absolute_occurrence_delta`.
    pub fn changed(
        organization_id: Uuid,
        project_ids: &[Uuid],
        limit: i64,
    ) -> (statement: Statement)
        ensures
            statement@ == StatementView::all(
                Self::changed_text(
                    Self::change_text(
                        condition::all_text(Self::added_or_dropped()) + Self::CHANGED@,
                    ),
                ),
                seq![organization_id.bound(), project_ids.bound(), limit.bound()],
            ),
            statement@.text == Self::CHANGED_CTE@ + "WHERE organization_id=$1 AND "@
                + Self::CHANGED_CTE_TAIL@ + " SELECT "@ + Self::CHANGED_COLUMNS@ + " FROM "@
                + Self::CHANGED_PROJECTS@ + "ON p.organization_id=$1 AND "@
                + Self::CHANGED_APPLICATIONS@ + "ON app.organization_id=$1 AND "@
                + Self::CHANGED_RELEASES@ + condition::all_text(Self::added_or_dropped())
                + Self::CHANGED@,
            tenant::filters_by_organization(statement@, organization_id),
            text::gives(statement@.text, Self::CHANGED_COLUMNS@),
    {
        let conditions = Conditions::new().sum_positive("a.new_count", "a.disappeared_count");
        assert(conditions@ =~= Self::added_or_dropped());
        let rest = conditions.into_text().concat(Self::CHANGED);
        let text = Self::with_changed(Self::change(rest.as_str()).as_str());
        proof {
            comparison_reads_what_is_asked_for(rest@);
            assert(text@ =~= Self::CHANGED_CTE@ + "WHERE organization_id=$1 AND "@
                + Self::CHANGED_CTE_TAIL@ + " SELECT "@ + Self::CHANGED_COLUMNS@ + " FROM "@
                + Self::CHANGED_PROJECTS@ + "ON p.organization_id=$1 AND "@
                + Self::CHANGED_APPLICATIONS@ + "ON app.organization_id=$1 AND "@
                + Self::CHANGED_RELEASES@ + condition::all_text(Self::added_or_dropped())
                + Self::CHANGED@);
        }
        Statement::all(text.as_str()).bind(organization_id).bind(project_ids).bind(limit)
    }

    /// The conditions on the comparison of one application.
    pub open spec fn one_application() -> Seq<Condition> {
        seq![Condition::Compared("a.application_id"@, Test::Equal, 3)]
    }

    /// The latest-release comparison of one application with the columns of
    /// [`Self::changed`], whether or not anything changed. `project_ids`
    /// holds the application's project.
    pub fn application_changed(
        organization_id: Uuid,
        project_ids: Vec<Uuid>,
        application_id: Uuid,
    ) -> (statement: Statement)
        ensures
            statement@ == StatementView::optional(
                Self::changed_text(
                    Self::change_text(condition::all_text(Self::one_application())),
                ),
                seq![organization_id.bound(), project_ids.bound(), application_id.bound()],
            ),
            statement@.text == Self::CHANGED_CTE@ + "WHERE organization_id=$1 AND "@
                + Self::CHANGED_CTE_TAIL@ + " SELECT "@ + Self::CHANGED_COLUMNS@ + " FROM "@
                + Self::CHANGED_PROJECTS@ + "ON p.organization_id=$1 AND "@
                + Self::CHANGED_APPLICATIONS@ + "ON app.organization_id=$1 AND "@
                + Self::CHANGED_RELEASES@ + condition::all_text(Self::one_application()),
            tenant::filters_by_organization(statement@, organization_id),
            text::gives(statement@.text, Self::CHANGED_COLUMNS@),
    {
        let conditions = Conditions::new().compared("a.application_id", Test::Equal, 3);
        assert(conditions@ =~= Self::one_application());
        let rest = conditions.into_text();
        let text = Self::with_changed(Self::change(rest.as_str()).as_str());
        proof {
            comparison_reads_what_is_asked_for(rest@);
        }
        Statement::optional(text.as_str())
            .bind(organization_id)
            .bind(project_ids)
            .bind(application_id)
    }

    pub const ORGANIZATION_TOTALS: &'static str =
        "SELECT (SELECT count(*) FROM runtime_event_groups WHERE occurrence_count>0 ";

    pub const TOTALS_OPEN: &'static str =
        "project_id=ANY($2) AND first_seen_at BETWEEN $3 AND $4)::bigint new_discoveries,(SELECT count(*) FROM runtime_event_groups WHERE occurrence_count>0 ";

    pub const TOTALS_ACKNOWLEDGED: &'static str =
        "project_id=ANY($2) AND status='open')::bigint open_discoveries,(SELECT count(*) FROM runtime_event_groups WHERE occurrence_count>0 ";

    pub const TOTALS_FAILED: &'static str =
        "project_id=ANY($2) AND status='acknowledged')::bigint acknowledged_discoveries,(SELECT count(*) FROM agg WHERE new_count+disappeared_count>0)::bigint changed_applications,0::bigint projects_with_notification_problems,(SELECT count(*) FROM notification_deliveries ";

    pub const TOTALS_REGRESSIONS: &'static str =
        "project_id=ANY($2) AND status='failed' AND terminal_at BETWEEN $3 AND $4)::bigint failed_notification_deliveries,(SELECT count(*) FROM release_resource_findings ";

    pub const TOTALS_POLICY: &'static str =
        "project_id=ANY($2) AND closed_at IS NULL)::bigint resource_regressions,(SELECT jsonb_build_object('factual_total',count(*),'actionable_total',count(*) FILTER(WHERE (e.group_id IS NULL OR e.policy_state_version<>COALESCE(ps.state_version,0) OR e.evaluator_version<>1 OR e.verdict<>'expected')),'evaluation_pending',count(*) FILTER(WHERE e.group_id IS NULL OR e.policy_state_version<>COALESCE(ps.state_version,0) OR e.evaluator_version<>1),'expected',count(*) FILTER(WHERE e.policy_state_version=COALESCE(ps.state_version,0) AND e.evaluator_version=1 AND e.verdict='expected'),'requires_review',count(*) FILTER(WHERE e.policy_state_version=COALESCE(ps.state_version,0) AND e.evaluator_version=1 AND e.verdict='requires_review'),'policy_conflict',count(*) FILTER(WHERE e.policy_state_version=COALESCE(ps.state_version,0) AND e.evaluator_version=1 AND e.verdict='policy_conflict'),'unclassified',count(*) FILTER(WHERE e.policy_state_version=COALESCE(ps.state_version,0) AND e.evaluator_version=1 AND e.verdict='unclassified')) FROM runtime_event_groups g LEFT JOIN runtime_group_policy_evaluations e ON e.group_id=g.id LEFT JOIN runtime_policy_states ps ON ps.organization_id=g.organization_id AND ps.project_id=g.project_id AND ps.application_id=g.application_id WHERE g.occurrence_count>0 ";

    pub const TOTALS_TAIL: &'static str = "g.project_id=ANY($2)) policy";

    /// The text that counts the totals, over the release comparison `agg`.
    pub open spec fn totals_text() -> Seq<char> {
        let rest = tenant::organization_text(
            Self::TOTALS_POLICY@,
            Before::And,
            "g."@,
            Layout::Tight,
            After::And,
            Self::TOTALS_TAIL@,
        );
        let rest = tenant::organization_text(
            Self::TOTALS_REGRESSIONS@,
            Before::Where,
            ""@,
            Layout::Tight,
            After::And,
            rest,
        );
        let rest = tenant::organization_text(
            Self::TOTALS_FAILED@,
            Before::Where,
            ""@,
            Layout::Tight,
            After::And,
            rest,
        );
        let rest = tenant::organization_text(
            Self::TOTALS_ACKNOWLEDGED@,
            Before::And,
            ""@,
            Layout::Tight,
            After::And,
            rest,
        );
        let rest = tenant::organization_text(
            Self::TOTALS_OPEN@,
            Before::And,
            ""@,
            Layout::Tight,
            After::And,
            rest,
        );
        tenant::organization_text(
            Self::ORGANIZATION_TOTALS@,
            Before::And,
            ""@,
            Layout::Tight,
            After::And,
            rest,
        )
    }

    /// Counts the totals, over the release comparison `agg`.
    fn totals() -> (text: String)
        ensures
            text@ == Self::totals_text(),
    {
        let rest = tenant::organization(
            Self::TOTALS_POLICY,
            Before::And,
            "g.",
            Layout::Tight,
            After::And,
            Self::TOTALS_TAIL,
        );
        let rest = tenant::organization(
            Self::TOTALS_REGRESSIONS,
            Before::Where,
            "",
            Layout::Tight,
            After::And,
            rest.as_str(),
        );
        let rest = tenant::organization(
            Self::TOTALS_FAILED,
            Before::Where,
            "",
            Layout::Tight,
            After::And,
            rest.as_str(),
        );
        let rest = tenant::organization(
            Self::TOTALS_ACKNOWLEDGED,
            Before::And,
            "",
            Layout::Tight,
            After::And,
            rest.as_str(),
        );
        let rest = tenant::organization(
            Self::TOTALS_OPEN,
            Before::And,
            "",
            Layout::Tight,
            After::And,
            rest.as_str(),
        );
        let rest = tenant::organization(
            Self::ORGANIZATION_TOTALS,
            Before::And,
            "",
            Layout::Tight,
            After::And,
            rest.as_str(),
        );
        rest
    }

    /// Organization-wide attention totals over the projects: groups first
    /// seen in `[from, to]`, open and acknowledged groups, changed
    /// applications, failed deliveries in `[from, to]`, open resource
    /// regressions, and the groups by policy state.
    ///
    /// Selects `new_discoveries`, `open_discoveries`,
    /// `acknowledged_discoveries`, `changed_applications`,
    /// `projects_with_notification_problems` (always 0, for the caller to
    /// fill), `failed_notification_deliveries`, `resource_regressions` and
    /// `policy`.
    pub fn organization_totals(
        organization_id: Uuid,
        project_ids: &[Uuid],
        from: Timestamp,
        to: Timestamp,
    ) -> (statement: Statement)
        ensures
            statement@ == StatementView::one(
                Self::changed_text(Self::totals_text()),
                seq![organization_id.bound(), project_ids.bound(), from.bound(), to.bound()],
            ),
            tenant::filters_by_organization(statement@, organization_id),
    {
        let text = Self::with_changed(Self::totals().as_str());
        Statement::one(text.as_str()).bind(organization_id).bind(project_ids).bind(from).bind(to)
    }

    pub const RESOURCE_FINDINGS: &'static str =
        "SELECT f.id,f.project_id,p.name project_name,p.slug project_slug,f.application_id,a.name application_name,a.slug application_slug,f.target_release_id,f.priority,f.reason_code,f.facts,f.opened_at FROM release_resource_findings f JOIN projects p ON p.organization_id=f.organization_id AND p.id=f.project_id JOIN applications a ON a.organization_id=f.organization_id AND a.project_id=f.project_id AND a.id=f.application_id ";

    pub const RESOURCE_FINDINGS_TAIL: &'static str = " ORDER BY CASE f.priority WHEN 'urgent' THEN 0 WHEN 'high' THEN 1 ELSE 2 END,f.opened_at DESC,f.id LIMIT $5";

    /// The conditions on a finding that is listed, besides its organization.
    pub open spec fn open_findings() -> Seq<Condition> {
        seq![
            Condition::Among("f.project_id"@, 2),
            Condition::ComparedIfGiven("f.application_id"@, Test::Equal, Kind::Uuid, 3),
            Condition::Null("f.closed_at"@),
            Condition::Compared("f.opened_at"@, Test::From, 4),
        ]
    }

    /// Open resource findings opened since `from` in the projects, optionally
    /// one application, most urgent first, then newest.
    ///
    /// Selects `id`, `project_id`, `project_name`, `project_slug`,
    /// `application_id`, `application_name`, `application_slug`,
    /// `target_release_id`, `priority`, `reason_code`, `facts` and
    /// `opened_at`.
    pub fn resource_findings(
        organization_id: Uuid,
        project_ids: &[Uuid],
        application_id: Option<Uuid>,
        from: Timestamp,
        limit: i64,
    ) -> (statement: Statement)
        ensures
            statement@ == StatementView::all(
                tenant::organization_text(
                    Self::RESOURCE_FINDINGS@,
                    Before::Where,
                    "f."@,
                    Layout::Tight,
                    After::And,
                    condition::all_text(Self::open_findings()) + Self::RESOURCE_FINDINGS_TAIL@,
                ),
                seq![
                    organization_id.bound(),
                    project_ids.bound(),
                    application_id.bound(),
                    from.bound(),
                    limit.bound(),
                ],
            ),
            tenant::filters_by_organization(statement@, organization_id),
    {
        let conditions = Conditions::new()
            .among("f.project_id", 2)
            .compared_if_given("f.application_id", Test::Equal, Kind::Uuid, 3)
            .is_null("f.closed_at")
            .compared("f.opened_at", Test::From, 4);
        assert(conditions@ =~= Self::open_findings());
        let tail = conditions.into_text().concat(Self::RESOURCE_FINDINGS_TAIL);
        let text = tenant::organization(
            Self::RESOURCE_FINDINGS,
            Before::Where,
            "f.",
            Layout::Tight,
            After::And,
            tail.as_str(),
        );
        Statement::all(text.as_str())
            .bind(organization_id)
            .bind(project_ids)
            .bind(application_id)
            .bind(from)
            .bind(limit)
    }

    pub const LARGEST_CHANGES: &'static str =
        "WITH pairs AS (SELECT * FROM unnest($1::uuid[],$2::uuid[],$3::uuid[]) AS p(application_id,target_id,baseline_id)), changes AS (SELECT p.application_id,ids.group_id,CASE WHEN b.group_id IS NULL AND EXISTS(SELECT 1 FROM releases r JOIN projects pr ON pr.id=r.project_id WHERE r.id=p.baseline_id AND r.deployed_at<pr.runtime_history_expired_before) THEN 'unknown' WHEN b.group_id IS NULL THEN 'new' WHEN t.group_id IS NULL AND (EXISTS(SELECT 1 FROM releases r JOIN projects pr ON pr.id=r.project_id WHERE r.id=p.target_id AND r.deployed_at<pr.runtime_history_expired_before) OR NOT (EXISTS(SELECT 1 FROM runtime_event_group_releases gr WHERE gr.release_id=p.target_id AND gr.occurrence_count>0) OR EXISTS(SELECT 1 FROM runtime_events ev WHERE ev.release_id=p.target_id))) THEN 'unknown' WHEN t.group_id IS NULL THEN 'disappeared' ELSE 'unchanged' END classification,coalesce(b.occurrence_count,0)::bigint baseline_occurrence_count,coalesce(t.occurrence_count,0)::bigint target_occurrence_count,(coalesce(t.occurrence_count,0)-coalesce(b.occurrence_count,0))::bigint occurrence_delta,greatest(coalesce(t.last_seen_at,'epoch'),coalesce(b.last_seen_at,'epoch')) relevant_at FROM pairs p JOIN LATERAL (SELECT group_id FROM runtime_event_group_releases WHERE release_id=p.target_id AND occurrence_count>0 UNION SELECT group_id FROM runtime_event_group_releases WHERE release_id=p.baseline_id AND occurrence_count>0) ids ON true LEFT JOIN runtime_event_group_releases t ON t.release_id=p.target_id AND t.group_id=ids.group_id LEFT JOIN runtime_event_group_releases b ON b.release_id=p.baseline_id AND b.group_id=ids.group_id), ranked AS (SELECT *,row_number() OVER(PARTITION BY application_id ORDER BY abs(occurrence_delta) DESC,relevant_at DESC,group_id) rn FROM changes WHERE classification<>'unknown') SELECT application_id,group_id,classification,baseline_occurrence_count,target_occurrence_count,occurrence_delta FROM ranked WHERE rn<=$4 ORDER BY application_id,rn";

    /// For each `(application, target, baseline)` release pair, up to
    /// `limit` groups whose occurrence count changed most between the two,
    /// most recent first on ties; groups whose classification is unknown are
    /// left out.
    ///
    /// Selects `application_id`, `group_id`, `classification`,
    /// `baseline_occurrence_count`, `target_occurrence_count` and
    /// `occurrence_delta`.
    pub fn largest_changes(
        application_ids: Vec<Uuid>,
        target_ids: Vec<Uuid>,
        baseline_ids: Vec<Uuid>,
        limit: i64,
    ) -> (statement: Statement)
        ensures
            statement@ == StatementView::all(
                Self::LARGEST_CHANGES@,
                seq![
                    application_ids.bound(),
                    target_ids.bound(),
                    baseline_ids.bound(),
                    limit.bound(),
                ],
            ),
    {
        Statement::all(Self::LARGEST_CHANGES)
            .bind(application_ids)
            .bind(target_ids)
            .bind(baseline_ids)
            .bind(limit)
    }

    pub const DISCOVERIES: &'static str =
        "SELECT g.id group_id,g.project_id,p.name project_name,p.slug project_slug,g.application_id,a.name application_name,a.slug application_slug,g.first_seen_at,g.last_seen_at,g.occurrence_count,g.event_kind,g.semantic_summary,COALESCE((SELECT jsonb_agg(label ORDER BY label->>'display_name',label->>'updated_at') FROM (SELECT jsonb_build_object('display_name',l.display_name,'created_by_user_id',l.created_by_user_id,'updated_by_user_id',l.updated_by_user_id,'created_at',l.created_at,'updated_at',l.updated_at) label FROM runtime_inventory_group_links gl JOIN runtime_inventory_items i ON i.id=gl.item_id JOIN runtime_behavior_user_labels l ON l.organization_id=i.organization_id AND l.project_id=i.project_id AND l.application_id=i.application_id AND l.inventory_kind=i.inventory_kind AND l.identity_version=i.identity_version AND l.identity_digest=i.identity_digest WHERE gl.group_id=g.id ORDER BY l.display_name,l.id LIMIT 20) labels),'[]'::jsonb) user_labels,g.namespace,g.workload_kind,g.workload_name,(g.first_seen_at BETWEEN $4 AND $5) is_new,CASE WHEN e.group_id IS NULL OR e.policy_state_version<>COALESCE(ps.state_version,0) OR e.evaluator_version<>$7 THEN NULL ELSE e.verdict END policy_verdict,CASE WHEN e.group_id IS NULL OR e.policy_state_version<>COALESCE(ps.state_version,0) OR e.evaluator_version<>$7 THEN 'evaluation_pending' ELSE 'current' END policy_evaluation_state FROM runtime_event_groups g JOIN projects p ON p.organization_id=g.organization_id AND p.id=g.project_id JOIN applications a ON a.organization_id=g.organization_id AND a.project_id=g.project_id AND a.id=g.application_id LEFT JOIN runtime_group_policy_evaluations e ON e.group_id=g.id LEFT JOIN runtime_policy_states ps ON ps.organization_id=g.organization_id AND ps.project_id=g.project_id AND ps.application_id=g.application_id WHERE g.occurrence_count>0 ";

    pub const DISCOVERIES_TAIL: &'static str =
        "g.project_id=ANY($2) AND ($3::uuid IS NULL OR g.application_id=$3) AND g.status='open' AND (e.group_id IS NULL OR e.policy_state_version<>COALESCE(ps.state_version,0) OR e.evaluator_version<>$7 OR e.verdict<>'expected') AND NOT EXISTS(SELECT 1 FROM runtime_inventory_group_links gl JOIN runtime_inventory_items i ON i.id=gl.item_id JOIN runtime_policy_suppressions s ON s.organization_id=i.organization_id AND s.project_id=i.project_id AND s.application_id=i.application_id AND s.identity_version=i.identity_version AND s.identity_digest=i.identity_digest WHERE gl.group_id=g.id AND s.cancelled_at IS NULL AND s.expires_at>$5 AND (cardinality(s.cluster_ids)=0 OR g.cluster_id=ANY(s.cluster_ids)) AND (cardinality(s.namespaces)=0 OR g.namespace=ANY(s.namespaces)) AND (cardinality(s.workload_kinds)=0 OR g.workload_kind=ANY(s.workload_kinds)) AND (cardinality(s.workload_names)=0 OR g.workload_name=ANY(s.workload_names))) ORDER BY CASE WHEN e.verdict='policy_conflict' THEN 0 WHEN g.event_kind='container.restart_loop' THEN 1 WHEN g.first_seen_at BETWEEN $4 AND $5 THEN 2 ELSE 3 END,g.occurrence_count DESC,CASE WHEN g.first_seen_at BETWEEN $4 AND $5 THEN g.first_seen_at ELSE g.last_seen_at END DESC,g.id LIMIT $6";

    /// Open runtime groups in the projects, optionally one application, that
    /// still need a reaction: not expected under current policy and not
    /// suppressed at `to`. Policy conflicts come first, then restart loops,
    /// then groups first seen in `[from, to]`, then by occurrences.
    ///
    /// Selects the group, project and application identity, the seen window,
    /// `occurrence_count`, `event_kind`, `semantic_summary`, `user_labels`,
    /// placement, `is_new`, `policy_verdict` and
    /// `policy_evaluation_state`.
    pub fn discoveries(
        organization_id: Uuid,
        project_ids: &[Uuid],
        application_id: Option<Uuid>,
        from: Timestamp,
        to: Timestamp,
        limit: i64,
        evaluator_version: i16,
    ) -> (statement: Statement)
        ensures
            statement@ == StatementView::all(
                tenant::organization_text(
                    Self::DISCOVERIES@,
                    Before::And,
                    "g."@,
                    Layout::Tight,
                    After::And,
                    Self::DISCOVERIES_TAIL@,
                ),
                seq![
                    organization_id.bound(),
                    project_ids.bound(),
                    application_id.bound(),
                    from.bound(),
                    to.bound(),
                    limit.bound(),
                    evaluator_version.bound(),
                ],
            ),
            tenant::filters_by_organization(statement@, organization_id),
    {
        let text = tenant::organization(
            Self::DISCOVERIES,
            Before::And,
            "g.",
            Layout::Tight,
            After::And,
            Self::DISCOVERIES_TAIL,
        );
        Statement::all(text.as_str())
            .bind(organization_id)
            .bind(project_ids)
            .bind(application_id)
            .bind(from)
            .bind(to)
            .bind(limit)
            .bind(evaluator_version)
    }

    pub const NOTIFICATION_PROBLEMS: &'static str =
        "WITH snapshots AS (SELECT p.id project_id,p.name project_name,p.slug project_slug,(SELECT count(*) FROM webhook_destinations w WHERE w.organization_id=p.organization_id AND w.project_id=p.id AND w.enabled) enabled_destination_count,count(d.id) FILTER(WHERE d.status='pending')::bigint pending_count,count(d.id) FILTER(WHERE d.status='pending' AND d.available_at<=$3)::bigint due_count,count(d.id) FILTER(WHERE d.status='pending' AND d.attempt_count>0)::bigint retrying_count,count(d.id) FILTER(WHERE d.status='in_flight')::bigint in_flight_count,count(d.id) FILTER(WHERE d.status='in_flight' AND d.lease_expires_at<=$3)::bigint expired_lease_count,count(d.id) FILTER(WHERE d.status='failed')::bigint failed_count,CASE WHEN count(d.id) FILTER(WHERE d.status='pending' AND d.available_at<=$3)=0 THEN NULL ELSE greatest(extract(epoch from ($3-min(d.available_at) FILTER(WHERE d.status='pending' AND d.available_at<=$3)))::bigint,0) END oldest_due_age_seconds FROM projects p LEFT JOIN notification_deliveries d ON d.organization_id=p.organization_id AND d.project_id=p.id ";

    pub const NOTIFICATION_PROBLEMS_TAIL: &'static str =
        "p.id=ANY($2) GROUP BY p.id,p.name,p.slug,p.organization_id), problems AS (SELECT *,count(*) OVER()::bigint total_problem_count FROM snapshots WHERE ($4 AND enabled_destination_count=0) OR failed_count>0 OR expired_lease_count>0 OR retrying_count>0 OR due_count>0 OR pending_count>0) SELECT * FROM problems ORDER BY CASE WHEN failed_count>0 OR expired_lease_count>0 OR ($4 AND enabled_destination_count=0) THEN 0 ELSE 1 END,greatest(failed_count,due_count,retrying_count,expired_lease_count) DESC,project_id LIMIT $5";

    /// Notification delivery queue snapshots of the projects that have a
    /// problem at `now`, worst first, with the total number of such projects.
    /// With `delivery_enabled`, a project without an enabled destination is a
    /// problem too.
    ///
    /// Selects `project_id`, `project_name`, `project_slug`,
    /// `enabled_destination_count`, the pending, due, retrying, in-flight,
    /// expired-lease and failed counts, `oldest_due_age_seconds` and
    /// `total_problem_count`.
    pub fn notification_problems(
        organization_id: Uuid,
        project_ids: &[Uuid],
        now: Timestamp,
        delivery_enabled: bool,
        limit: i64,
    ) -> (statement: Statement)
        ensures
            statement@ == StatementView::all(
                tenant::organization_text(
                    Self::NOTIFICATION_PROBLEMS@,
                    Before::Where,
                    "p."@,
                    Layout::Tight,
                    After::And,
                    Self::NOTIFICATION_PROBLEMS_TAIL@,
                ),
                seq![
                    organization_id.bound(),
                    project_ids.bound(),
                    now.bound(),
                    delivery_enabled.bound(),
                    limit.bound(),
                ],
            ),
            tenant::filters_by_organization(statement@, organization_id),
    {
        let text = tenant::organization(
            Self::NOTIFICATION_PROBLEMS,
            Before::Where,
            "p.",
            Layout::Tight,
            After::And,
            Self::NOTIFICATION_PROBLEMS_TAIL,
        );
        Statement::all(text.as_str())
            .bind(organization_id)
            .bind(project_ids)
            .bind(now)
            .bind(delivery_enabled)
            .bind(limit)
    }

    pub const NEW_DISCOVERY_SCOPES: &'static str =
        "SELECT g.project_id,p.name project_name,p.slug project_slug,g.application_id,a.name application_name,a.slug application_slug,count(*)::bigint discovery_count FROM runtime_event_groups g JOIN projects p ON p.organization_id=g.organization_id AND p.id=g.project_id JOIN applications a ON a.organization_id=g.organization_id AND a.project_id=g.project_id AND a.id=g.application_id WHERE g.occurrence_count>0 ";

    pub const NEW_DISCOVERY_SCOPES_TAIL: &'static str =
        "g.project_id=ANY($2) AND g.status='open' AND g.first_seen_at BETWEEN $3 AND $4 GROUP BY g.project_id,p.name,p.slug,g.application_id,a.name,a.slug ORDER BY count(*) DESC,g.application_id LIMIT $5";

    /// Applications in the projects with open groups first seen in
    /// `[from, to]`, most first.
    ///
    /// Selects `project_id`, `project_name`, `project_slug`,
    /// `application_id`, `application_name`, `application_slug` and
    /// `discovery_count`.
    pub fn new_discovery_scopes(
        organization_id: Uuid,
        project_ids: &[Uuid],
        from: Timestamp,
        to: Timestamp,
        limit: i64,
    ) -> (statement: Statement)
        ensures
            statement@ == StatementView::all(
                tenant::organization_text(
                    Self::NEW_DISCOVERY_SCOPES@,
                    Before::And,
                    "g."@,
                    Layout::Tight,
                    After::And,
                    Self::NEW_DISCOVERY_SCOPES_TAIL@,
                ),
                seq![
                    organization_id.bound(),
                    project_ids.bound(),
                    from.bound(),
                    to.bound(),
                    limit.bound(),
                ],
            ),
            tenant::filters_by_organization(statement@, organization_id),
    {
        let text = tenant::organization(
            Self::NEW_DISCOVERY_SCOPES,
            Before::And,
            "g.",
            Layout::Tight,
            After::And,
            Self::NEW_DISCOVERY_SCOPES_TAIL,
        );
        Statement::all(text.as_str())
            .bind(organization_id)
            .bind(project_ids)
            .bind(from)
            .bind(to)
            .bind(limit)
    }

    pub const APPLICATION_IDENTITY: &'static str =
        "SELECT p.id,p.name,p.slug,a.name,a.slug FROM projects p JOIN applications a ON a.organization_id=p.organization_id AND a.project_id=p.id ";

    pub const APPLICATION_IDENTITY_TAIL: &'static str = "p.id=$2 AND a.id=$3";

    /// The project's id, name and slug and the application's name and slug.
    pub fn application_identity(
        organization_id: Uuid,
        project_id: Uuid,
        application_id: Uuid,
    ) -> (statement: Statement)
        ensures
            statement@ == StatementView::optional(
                tenant::organization_text(
                    Self::APPLICATION_IDENTITY@,
                    Before::Where,
                    "p."@,
                    Layout::Tight,
                    After::And,
                    Self::APPLICATION_IDENTITY_TAIL@,
                ),
                seq![organization_id.bound(), project_id.bound(), application_id.bound()],
            ),
            tenant::filters_by_organization(statement@, organization_id),
    {
        let text = tenant::organization(
            Self::APPLICATION_IDENTITY,
            Before::Where,
            "p.",
            Layout::Tight,
            After::And,
            Self::APPLICATION_IDENTITY_TAIL,
        );
        Statement::optional(text.as_str())
            .bind(organization_id)
            .bind(project_id)
            .bind(application_id)
    }

    pub const APPLICATION_DISCOVERY_COUNTS: &'static str =
        "SELECT count(*) FILTER(WHERE first_seen_at BETWEEN $3 AND $4)::bigint,count(*) FILTER(WHERE status='open')::bigint,count(*) FILTER(WHERE status='acknowledged')::bigint FROM runtime_event_groups WHERE occurrence_count>0 ";

    pub const APPLICATION_DISCOVERY_COUNTS_TAIL: &'static str = "application_id=$2";

    /// The application's groups first seen in `[from, to]`, open, and
    /// acknowledged.
    pub fn application_discovery_counts(
        organization_id: Uuid,
        application_id: Uuid,
        from: Timestamp,
        to: Timestamp,
    ) -> (statement: Statement)
        ensures
            statement@ == StatementView::one(
                tenant::organization_text(
                    Self::APPLICATION_DISCOVERY_COUNTS@,
                    Before::And,
                    ""@,
                    Layout::Tight,
                    After::And,
                    Self::APPLICATION_DISCOVERY_COUNTS_TAIL@,
                ),
                seq![organization_id.bound(), application_id.bound(), from.bound(), to.bound()],
            ),
            tenant::filters_by_organization(statement@, organization_id),
    {
        let text = tenant::organization(
            Self::APPLICATION_DISCOVERY_COUNTS,
            Before::And,
            "",
            Layout::Tight,
            After::And,
            Self::APPLICATION_DISCOVERY_COUNTS_TAIL,
        );
        Statement::one(text.as_str()).bind(organization_id).bind(application_id).bind(from).bind(to)
    }

    pub const APPLICATION_POLICY_SUMMARY: &'static str =
        "SELECT jsonb_build_object('factual_total',count(*),'actionable_total',count(*) FILTER(WHERE e.group_id IS NULL OR e.policy_state_version<>COALESCE(ps.state_version,0) OR e.evaluator_version<>$3 OR e.verdict<>'expected'),'evaluation_pending',count(*) FILTER(WHERE e.group_id IS NULL OR e.policy_state_version<>COALESCE(ps.state_version,0) OR e.evaluator_version<>$3),'expected',count(*) FILTER(WHERE e.policy_state_version=COALESCE(ps.state_version,0) AND e.evaluator_version=$3 AND e.verdict='expected'),'requires_review',count(*) FILTER(WHERE e.policy_state_version=COALESCE(ps.state_version,0) AND e.evaluator_version=$3 AND e.verdict='requires_review'),'policy_conflict',count(*) FILTER(WHERE e.policy_state_version=COALESCE(ps.state_version,0) AND e.evaluator_version=$3 AND e.verdict='policy_conflict'),'unclassified',count(*) FILTER(WHERE e.policy_state_version=COALESCE(ps.state_version,0) AND e.evaluator_version=$3 AND e.verdict='unclassified')) FROM runtime_event_groups g LEFT JOIN runtime_group_policy_evaluations e ON e.group_id=g.id LEFT JOIN runtime_policy_states ps ON ps.organization_id=g.organization_id AND ps.project_id=g.project_id AND ps.application_id=g.application_id WHERE g.occurrence_count>0 ";

    pub const APPLICATION_POLICY_SUMMARY_TAIL: &'static str = "g.application_id=$2";

    /// Counts of the application's groups by current policy state: in all,
    /// needing a reaction, awaiting evaluation, and per verdict.
    pub fn application_policy_summary(
        organization_id: Uuid,
        application_id: Uuid,
        evaluator_version: i16,
    ) -> (statement: Statement)
        ensures
            statement@ == StatementView::one(
                tenant::organization_text(
                    Self::APPLICATION_POLICY_SUMMARY@,
                    Before::And,
                    "g."@,
                    Layout::Tight,
                    After::And,
                    Self::APPLICATION_POLICY_SUMMARY_TAIL@,
                ),
                seq![organization_id.bound(), application_id.bound(), evaluator_version.bound()],
            ),
            tenant::filters_by_organization(statement@, organization_id),
    {
        let text = tenant::organization(
            Self::APPLICATION_POLICY_SUMMARY,
            Before::And,
            "g.",
            Layout::Tight,
            After::And,
            Self::APPLICATION_POLICY_SUMMARY_TAIL,
        );
        Statement::one(text.as_str())
            .bind(organization_id)
            .bind(application_id)
            .bind(evaluator_version)
    }
}

/// The release comparison is that of the organization at `$1`, with the names of
/// its projects and applications, and nothing stands between the joins and what
/// a statement asks for.
pub proof fn comparison_reads_what_is_asked_for(rest: Seq<char>)
    ensures
        AttentionRepository::changed_text(AttentionRepository::change_text(rest))
            == AttentionRepository::CHANGED_CTE@ + "WHERE organization_id=$1 AND "@
            + AttentionRepository::CHANGED_CTE_TAIL@ + " SELECT "@
            + AttentionRepository::CHANGED_COLUMNS@ + " FROM "@
            + AttentionRepository::CHANGED_PROJECTS@ + "ON p.organization_id=$1 AND "@
            + AttentionRepository::CHANGED_APPLICATIONS@ + "ON app.organization_id=$1 AND "@
            + AttentionRepository::CHANGED_RELEASES@ + rest,
{
    let whole = tenant::organization_filter(""@, Layout::Tight, Start::First);
    let projects = tenant::organization_filter("p."@, Layout::Tight, Start::First);
    let applications = tenant::organization_filter("app."@, Layout::Tight, Start::First);
    let then = After::And.text(Layout::Tight);
    lemma_organization_reads("WHERE "@, ""@, "WHERE organization_id=$1 AND "@);
    lemma_organization_reads("ON "@, "p."@, "ON p.organization_id=$1 AND "@);
    lemma_organization_reads("ON "@, "app."@, "ON app.organization_id=$1 AND "@);
    lemma_filter_grouped(
        AttentionRepository::CHANGED_APPLICATIONS@,
        "ON "@,
        applications,
        then,
        AttentionRepository::CHANGED_RELEASES@ + rest,
    );
    let first = AttentionRepository::CHANGED_APPLICATIONS@ + "ON app.organization_id=$1 AND "@ + (
    AttentionRepository::CHANGED_RELEASES@ + rest);
    lemma_filter_grouped(AttentionRepository::CHANGED_PROJECTS@, "ON "@, projects, then, first);
    let second = AttentionRepository::CHANGED_PROJECTS@ + "ON p.organization_id=$1 AND "@ + first;
    let query = AttentionRepository::change_text(rest);
    assert(query == "SELECT "@ + AttentionRepository::CHANGED_COLUMNS@ + " FROM "@ + second);
    lemma_filter_grouped(
        AttentionRepository::CHANGED_CTE@,
        "WHERE "@,
        whole,
        then,
        AttentionRepository::CHANGED_CTE_TAIL@ + " "@ + query,
    );
    lemma_comparison_grouped(
        AttentionRepository::CHANGED_CTE@,
        "WHERE organization_id=$1 AND "@,
        AttentionRepository::CHANGED_CTE_TAIL@,
        AttentionRepository::CHANGED_COLUMNS@,
        AttentionRepository::CHANGED_PROJECTS@,
        "ON p.organization_id=$1 AND "@,
        AttentionRepository::CHANGED_APPLICATIONS@,
        "ON app.organization_id=$1 AND "@,
        AttentionRepository::CHANGED_RELEASES@,
        rest,
    );
}

/// A filter between its keywords can be read as one text.
proof fn lemma_filter_grouped(
    head: Seq<char>,
    before: Seq<char>,
    filter: Seq<char>,
    after: Seq<char>,
    tail: Seq<char>,
)
    ensures
        head + before + filter + after + tail == head + (before + filter + after) + tail,
{
    assert(head + before + filter + after + tail =~= head + (before + filter + after) + tail);
}

/// The pieces of the comparison can be read one behind the other.
proof fn lemma_comparison_grouped(
    cte: Seq<char>,
    path: Seq<char>,
    tail: Seq<char>,
    columns: Seq<char>,
    projects: Seq<char>,
    of_projects: Seq<char>,
    applications: Seq<char>,
    of_applications: Seq<char>,
    releases: Seq<char>,
    rest: Seq<char>,
)
    ensures
        cte + path + (tail + " "@ + ("SELECT "@ + columns + " FROM "@ + (projects + of_projects + (
        applications + of_applications + (releases + rest))))) == cte + path + tail + " SELECT "@
            + columns + " FROM "@ + projects + of_projects + applications + of_applications
            + releases + rest,
{
    assert(" "@ + "SELECT "@ =~= " SELECT "@) by {
        reveal_strlit("SELECT ");
        reveal_strlit(" SELECT ");
        reveal_strlit(" ");
    }
    let joined = projects + of_projects + (applications + of_applications + (releases + rest));
    let flat = projects + of_projects + applications + of_applications + releases + rest;
    assert(joined =~= flat);
    let head = cte + path + tail;
    let select = head + " SELECT "@ + columns + " FROM "@;
    assert(cte + path + (tail + " "@ + ("SELECT "@ + columns + " FROM "@ + joined)) =~= head + (
    " "@ + "SELECT "@) + columns + " FROM "@ + joined);
    assert(select + flat =~= select + projects + of_projects + applications + of_applications
        + releases + rest);
}

/// The filter by an organization, written out between its keywords.
proof fn lemma_organization_reads(before: Seq<char>, alias: Seq<char>, written: Seq<char>)
    requires
        ({
            ||| before == "WHERE "@ && alias == ""@ && written == "WHERE organization_id=$1 AND "@
            ||| before == "ON "@ && alias == "p."@ && written == "ON p.organization_id=$1 AND "@
            ||| before == "ON "@ && alias == "app."@ && written
                == "ON app.organization_id=$1 AND "@
        }),
    ensures
        before + tenant::organization_filter(alias, Layout::Tight, Start::First)
            + After::And.text(Layout::Tight) == written,
{
    reveal_strlit("WHERE ");
    reveal_strlit("ON ");
    reveal_strlit("");
    reveal_strlit("p.");
    reveal_strlit("app.");
    reveal_strlit("organization_id");
    reveal_strlit("=");
    reveal_strlit("$1");
    reveal_strlit(" AND ");
    reveal_strlit("WHERE organization_id=$1 AND ");
    reveal_strlit("ON p.organization_id=$1 AND ");
    reveal_strlit("ON app.organization_id=$1 AND ");
    assert(before + tenant::organization_filter(alias, Layout::Tight, Start::First)
        + After::And.text(Layout::Tight) =~= written);
}

/// The totals of an organization are read from the same comparison, with each
/// count narrowed to the organization.
pub proof fn totals_read_each_count()
    ensures
        AttentionRepository::changed_text(AttentionRepository::totals_text())
            == AttentionRepository::CHANGED_CTE@ + "WHERE organization_id=$1 AND "@
            + AttentionRepository::CHANGED_CTE_TAIL@ + " "@
            + AttentionRepository::ORGANIZATION_TOTALS@ + "AND organization_id=$1 AND "@
            + AttentionRepository::TOTALS_OPEN@ + "AND organization_id=$1 AND "@
            + AttentionRepository::TOTALS_ACKNOWLEDGED@ + "AND organization_id=$1 AND "@
            + AttentionRepository::TOTALS_FAILED@ + "WHERE organization_id=$1 AND "@
            + AttentionRepository::TOTALS_REGRESSIONS@ + "WHERE organization_id=$1 AND "@
            + AttentionRepository::TOTALS_POLICY@ + "AND g.organization_id=$1 AND "@
            + AttentionRepository::TOTALS_TAIL@,
{
    reveal_strlit("AND ");
    reveal_strlit("WHERE ");
    reveal_strlit("");
    reveal_strlit("g.");
    reveal_strlit("organization_id");
    reveal_strlit("=");
    reveal_strlit("$1");
    reveal_strlit(" AND ");
    reveal_strlit("WHERE organization_id=$1 AND ");
    reveal_strlit("AND organization_id=$1 AND ");
    reveal_strlit("AND g.organization_id=$1 AND ");
    let whole = tenant::organization_filter(""@, Layout::Tight, Start::First);
    let grouped = tenant::organization_filter("g."@, Layout::Tight, Start::First);
    let then = After::And.text(Layout::Tight);
    assert("WHERE "@ + whole + then =~= "WHERE organization_id=$1 AND "@);
    assert("AND "@ + whole + then =~= "AND organization_id=$1 AND "@);
    assert("AND "@ + grouped + then =~= "AND g.organization_id=$1 AND "@);
    let policy = AttentionRepository::TOTALS_POLICY@ + ("AND "@ + grouped + then)
        + AttentionRepository::TOTALS_TAIL@;
    let regressions = AttentionRepository::TOTALS_REGRESSIONS@ + ("WHERE "@ + whole + then)
        + policy;
    let failed = AttentionRepository::TOTALS_FAILED@ + ("WHERE "@ + whole + then) + regressions;
    let acknowledged = AttentionRepository::TOTALS_ACKNOWLEDGED@ + ("AND "@ + whole + then)
        + failed;
    let open = AttentionRepository::TOTALS_OPEN@ + ("AND "@ + whole + then) + acknowledged;
    let totals = AttentionRepository::ORGANIZATION_TOTALS@ + ("AND "@ + whole + then) + open;
    assert(AttentionRepository::totals_text() =~= totals);
    assert(AttentionRepository::changed_text(totals) =~= AttentionRepository::CHANGED_CTE@ + (
    "WHERE "@ + whole + then) + AttentionRepository::CHANGED_CTE_TAIL@ + " "@ + totals);
    assert(AttentionRepository::CHANGED_CTE@ + ("WHERE "@ + whole + then)
        + AttentionRepository::CHANGED_CTE_TAIL@ + " "@ + totals
        =~= AttentionRepository::CHANGED_CTE@ + "WHERE organization_id=$1 AND "@
        + AttentionRepository::CHANGED_CTE_TAIL@ + " "@
        + AttentionRepository::ORGANIZATION_TOTALS@ + "AND organization_id=$1 AND "@
        + AttentionRepository::TOTALS_OPEN@ + "AND organization_id=$1 AND "@
        + AttentionRepository::TOTALS_ACKNOWLEDGED@ + "AND organization_id=$1 AND "@
        + AttentionRepository::TOTALS_FAILED@ + "WHERE organization_id=$1 AND "@
        + AttentionRepository::TOTALS_REGRESSIONS@ + "WHERE organization_id=$1 AND "@
        + AttentionRepository::TOTALS_POLICY@ + "AND g.organization_id=$1 AND "@
        + AttentionRepository::TOTALS_TAIL@);
}

/// The compared applications that are listed are exactly those whose latest
/// release added or dropped anything: one that only dropped is among them.
pub proof fn changed_applications_are_listed(
    comparison: Record,
    new_count: i64,
    disappeared_count: i64,
    values: Seq<Bound>,
    database: Database,
)
    requires
        0 <= new_count,
        0 <= disappeared_count,
        new_count + disappeared_count <= i64::MAX,
        condition::has(comparison, "a.new_count"@, Bound::BigInt(Some(new_count))),
        condition::has(comparison, "a.disappeared_count"@, Bound::BigInt(Some(disappeared_count))),
    ensures
        condition::selects(
            AttentionRepository::added_or_dropped(),
            comparison,
            values,
            database,
        ) <==> new_count > 0 || disappeared_count > 0,
{
    let conditions = AttentionRepository::added_or_dropped();
    assert(condition::selects(conditions, comparison, values, database)
        <==> conditions[0].holds(comparison, values, database));
}

/// The comparison of one application is given whatever its counts: it is that
/// application's, and nothing more is asked.
pub proof fn one_comparison_is_given_whatever_changed(
    comparison: Record,
    organization_id: Uuid,
    project_ids: Vec<Uuid>,
    application_id: Uuid,
    database: Database,
)
    ensures
        condition::selects(
            AttentionRepository::one_application(),
            comparison,
            seq![organization_id.bound(), project_ids.bound(), application_id.bound()],
            database,
        ) <==> condition::has(
            comparison,
            "a.application_id"@,
            Bound::Uuid(Some(application_id)),
        ),
{
    let conditions = AttentionRepository::one_application();
    let values: Seq<Bound> = seq![
        organization_id.bound(),
        project_ids.bound(),
        application_id.bound(),
    ];
    assert(condition::selects(conditions, comparison, values, database)
        <==> conditions[0].holds(comparison, values, database));
}

/// A finding is listed exactly where it is of one of the projects, of the
/// application where one is given, not closed, and opened no earlier than
/// asked.
pub proof fn open_findings_are_listed(
    finding: Record,
    organization_id: Uuid,
    project_ids: &[Uuid],
    application_id: Option<Uuid>,
    from: Timestamp,
    limit: i64,
    database: Database,
)
    ensures
        ({
            let values: Seq<Bound> = seq![
                organization_id.bound(),
                project_ids.bound(),
                application_id.bound(),
                from.bound(),
                limit.bound(),
            ];
            condition::selects(
                AttentionRepository::open_findings(),
                finding,
                values,
                database,
            ) <==> {
                &&& !condition::lacks(finding, "f.project_id"@)
                &&& condition::among(finding["f.project_id"@], project_ids.bound())
                &&& application_id is Some ==> condition::has(
                    finding,
                    "f.application_id"@,
                    application_id.bound(),
                )
                &&& condition::lacks(finding, "f.closed_at"@)
                &&& !condition::lacks(finding, "f.opened_at"@)
                &&& !(database.less)(finding["f.opened_at"@], from.bound())
            }
        }),
{
    let values: Seq<Bound> = seq![
        organization_id.bound(),
        project_ids.bound(),
        application_id.bound(),
        from.bound(),
        limit.bound(),
    ];
    let conditions = AttentionRepository::open_findings();
    assert(condition::selects(conditions, finding, values, database) <==> {
        &&& conditions[0].holds(finding, values, database)
        &&& conditions[1].holds(finding, values, database)
        &&& conditions[2].holds(finding, values, database)
        &&& conditions[3].holds(finding, values, database)
    });
}

} // verus!
