//! Runtime policy persistence: policies and their append-only revisions,
//! suppressions, the per-application policy state version, recomputation
//! requests, and the idempotent command log behind the policy API.
//!
//! Reads returning projections owned by the policy endpoints document the
//! columns they select.

use serde_json::Value;
use uuid::Uuid;
use vstd::prelude::*;

#[allow(unused_imports)]
use crate::statement::Bind;
use crate::condition::{Condition, Conditions, Database, Kind, Record, Test};
use crate::condition;
use crate::insert::{Row, RowView, Style};
use crate::insert;
use crate::statement::{Bound, Fetch, Statement, StatementView, Timestamp};
use crate::tenant::{After, Before, Layout};
use crate::tenant;
use crate::text;
use crate::update::{Change, Changes, Form, Spelling};
use crate::update;
use crate::upsert;
use crate::upsert::{Table, Target, Upsert, UpsertView};

verus! {

broadcast use {tenant::known_aliases_name_tables, condition::known_words_are_plain};

/// Where an inventory item was sighted.
#[derive(Clone, Copy, Debug)]
pub struct Placement<'a> {
    pub item_id: Uuid,
    pub cluster_id: Uuid,
    pub namespace: &'a str,
    pub workload_kind: &'a str,
    pub workload_name: &'a str,
    pub pod_uid: &'a str,
    pub container_name: &'a str,
}

impl<'a> Placement<'a> {
    /// The values that tell placements apart.
    pub open spec fn values(self) -> Seq<Bound> {
        seq![
            self.item_id.bound(),
            self.cluster_id.bound(),
            self.namespace.bound(),
            self.workload_kind.bound(),
            self.workload_name.bound(),
            self.pod_uid.bound(),
            self.container_name.bound(),
        ]
    }
}

/// What a policy evaluation found.
#[derive(Clone, Copy, Debug)]
pub struct Evaluation<'a> {
    pub policy_state_version: i64,
    pub evaluator_version: i16,
    pub verdict: &'a str,
    pub reason_code: &'a str,
    pub winning_revision_id: Option<Uuid>,
    pub explanation: &'a Value,
}

impl<'a> Evaluation<'a> {
    /// The values that an evaluation stores.
    pub open spec fn values(self) -> Seq<Bound> {
        seq![
            self.policy_state_version.bound(),
            self.evaluator_version.bound(),
            self.verdict.bound(),
            self.reason_code.bound(),
            self.winning_revision_id.bound(),
            self.explanation.bound(),
        ]
    }
}

/// Runtime policies, their revisions and suppressions, and the commands that
/// change them.
#[derive(Clone, Copy, Debug)]
pub struct PolicyRepository;

impl PolicyRepository {
    /// The policy projection.
    pub const POLICY_COLUMNS: &'static str =
        "p.id,p.project_id,p.application_id,p.name,p.current_revision_id,r.revision_number,r.enabled,r.inventory_kind,r.identity_version,r.behavior_matcher,r.cluster_ids,r.namespaces,r.workload_kinds,r.workload_names,r.inside_effect,r.outside_effect,p.created_by_user_id,p.created_at,p.updated_at";

    /// The revision projection.
    pub const REVISION_COLUMNS: &'static str =
        "r.id,r.policy_id,r.revision_number,r.prior_revision_id,r.enabled,r.inventory_kind,r.identity_version,r.identity_digest,r.behavior_matcher,r.cluster_ids,r.namespaces,r.workload_kinds,r.workload_names,r.inside_effect,r.outside_effect,r.source_inventory_item_id,r.source_runtime_group_id,r.created_by_user_id,r.created_at";

    pub const STATE_VERSION: &'static str =
        "SELECT state_version FROM runtime_policy_states ";

    /// The application's policy state version, if it has one.
    pub fn state_version(
        organization_id: Uuid,
        project_id: Uuid,
        application_id: Uuid,
    ) -> (statement: Statement)
        ensures
            statement@ == StatementView::optional(
                tenant::application_text(
                    Self::STATE_VERSION@,
                    Before::Where,
                    ""@,
                    Layout::Tight,
                    After::End,
                    ""@,
                ),
                seq![organization_id.bound(), project_id.bound(), application_id.bound()],
            ),
            tenant::filters_by_application(statement@, organization_id, project_id, application_id),
    {
        proof {
            reveal_strlit("");
        }
        let text = tenant::application(
            Self::STATE_VERSION,
            Before::Where,
            "",
            Layout::Tight,
            After::End,
            "",
        );
        Statement::optional(text.as_str())
            .bind(organization_id)
            .bind(project_id)
            .bind(application_id)
    }

    pub const ENABLED_REVISIONS_FOR_IDENTITY: &'static str =
        "SELECT r.id revision_id,r.identity_version,r.identity_digest,r.cluster_ids,r.namespaces,r.workload_kinds,r.workload_names,r.inside_effect,r.outside_effect FROM runtime_policies p JOIN runtime_policy_revisions r ON r.id=p.current_revision_id ";

    /// The conditions on an enabled revision of an identity, besides the path.
    pub open spec fn enabled_for_identity() -> Seq<Condition> {
        seq![
            Condition::Holding("r.enabled"@),
            Condition::Compared("r.identity_version"@, Test::Equal, 4),
            Condition::Compared("r.identity_digest"@, Test::Equal, 5),
        ]
    }

    /// The current, enabled revisions of the application's policies for one
    /// identity.
    ///
    /// Selects `revision_id`, `identity_version`, `identity_digest`, the
    /// placement lists, `inside_effect` and `outside_effect`.
    pub fn enabled_revisions_for_identity(
        organization_id: Uuid,
        project_id: Uuid,
        application_id: Uuid,
        identity_version: i16,
        identity_digest: &[u8],
    ) -> (statement: Statement)
        ensures
            statement@ == StatementView::all(
                tenant::application_text(
                    Self::ENABLED_REVISIONS_FOR_IDENTITY@,
                    Before::Where,
                    "p."@,
                    Layout::Tight,
                    After::And,
                    condition::all_text(Self::enabled_for_identity()),
                ),
                seq![
                    organization_id.bound(),
                    project_id.bound(),
                    application_id.bound(),
                    identity_version.bound(),
                    identity_digest.bound(),
                ],
            ),
            tenant::filters_by_application(statement@, organization_id, project_id, application_id),
    {
        let conditions = Conditions::new()
            .holding("r.enabled")
            .compared("r.identity_version", Test::Equal, 4)
            .compared("r.identity_digest", Test::Equal, 5);
        assert(conditions@ =~= Self::enabled_for_identity());
        let tail = conditions.into_text();
        let text = tenant::application(
            Self::ENABLED_REVISIONS_FOR_IDENTITY,
            Before::Where,
            "p.",
            Layout::Tight,
            After::And,
            tail.as_str(),
        );
        Statement::all(text.as_str())
            .bind(organization_id)
            .bind(project_id)
            .bind(application_id)
            .bind(identity_version)
            .bind(identity_digest)
    }

    pub const STORE_GROUP_EVALUATION: &'static str = ",evaluated_at=now()";

    /// The row that stores a group's policy evaluation.
    pub open spec fn group_evaluation(
        organization_id: Uuid,
        project_id: Uuid,
        application_id: Uuid,
        group_id: Uuid,
        evaluation: Evaluation<'_>,
    ) -> UpsertView {
        upsert::upsert(Style::Tight, Target::Tight, "runtime_group_policy_evaluations"@)
            .kept("organization_id"@, organization_id.bound())
            .kept("project_id"@, project_id.bound())
            .kept("application_id"@, application_id.bound())
            .key("group_id"@, group_id.bound())
            .replaced("policy_state_version"@, evaluation.policy_state_version.bound())
            .replaced("evaluator_version"@, evaluation.evaluator_version.bound())
            .replaced("verdict"@, evaluation.verdict.bound())
            .replaced("reason_code"@, evaluation.reason_code.bound())
            .replaced("winning_revision_id"@, evaluation.winning_revision_id.bound())
            .replaced("explanation"@, evaluation.explanation.bound())
    }

    /// Records, or replaces, a group's policy evaluation.
    pub fn store_group_evaluation(
        organization_id: Uuid,
        project_id: Uuid,
        application_id: Uuid,
        group_id: Uuid,
        policy_state_version: i64,
        evaluator_version: i16,
        verdict: &str,
        reason_code: &str,
        winning_revision_id: Option<Uuid>,
        explanation: &Value,
    ) -> (statement: Statement)
        ensures
            statement@ == Self::group_evaluation(
                organization_id,
                project_id,
                application_id,
                group_id,
                Evaluation {
                    policy_state_version,
                    evaluator_version,
                    verdict,
                    reason_code,
                    winning_revision_id,
                    explanation,
                },
            ).finish(Self::STORE_GROUP_EVALUATION@, Fetch::Affected),
    {
        Upsert::new(Style::Tight, Target::Tight, "runtime_group_policy_evaluations")
            .kept("organization_id", organization_id)
            .kept("project_id", project_id)
            .kept("application_id", application_id)
            .key("group_id", group_id)
            .replaced("policy_state_version", policy_state_version)
            .replaced("evaluator_version", evaluator_version)
            .replaced("verdict", verdict)
            .replaced("reason_code", reason_code)
            .replaced("winning_revision_id", winning_revision_id)
            .replaced("explanation", explanation)
            .finish(Self::STORE_GROUP_EVALUATION, Fetch::Affected)
    }

    pub const STORE_SIGHTING_EVALUATION: &'static str = ",evaluated_at=now()";

    /// The row that stores a sighting's policy evaluation.
    pub open spec fn sighting_evaluation(
        organization_id: Uuid,
        project_id: Uuid,
        application_id: Uuid,
        placement: Placement<'_>,
        evaluation: Evaluation<'_>,
    ) -> UpsertView {
        upsert::upsert(Style::Tight, Target::Tight, "runtime_sighting_policy_evaluations"@)
            .kept("organization_id"@, organization_id.bound())
            .kept("project_id"@, project_id.bound())
            .kept("application_id"@, application_id.bound())
            .key("item_id"@, placement.item_id.bound())
            .key("cluster_id"@, placement.cluster_id.bound())
            .key("namespace"@, placement.namespace.bound())
            .key("workload_kind"@, placement.workload_kind.bound())
            .key("workload_name"@, placement.workload_name.bound())
            .key("pod_uid"@, placement.pod_uid.bound())
            .key("container_name"@, placement.container_name.bound())
            .replaced("policy_state_version"@, evaluation.policy_state_version.bound())
            .replaced("evaluator_version"@, evaluation.evaluator_version.bound())
            .replaced("verdict"@, evaluation.verdict.bound())
            .replaced("reason_code"@, evaluation.reason_code.bound())
            .replaced("winning_revision_id"@, evaluation.winning_revision_id.bound())
            .replaced("explanation"@, evaluation.explanation.bound())
    }

    /// Records, or replaces, a sighting's policy evaluation.
    pub fn store_sighting_evaluation(
        organization_id: Uuid,
        project_id: Uuid,
        application_id: Uuid,
        item_id: Uuid,
        cluster_id: Uuid,
        namespace: &str,
        workload_kind: &str,
        workload_name: &str,
        pod_uid: &str,
        container_name: &str,
        policy_state_version: i64,
        evaluator_version: i16,
        verdict: &str,
        reason_code: &str,
        winning_revision_id: Option<Uuid>,
        explanation: &Value,
    ) -> (statement: Statement)
        ensures
            statement@ == Self::sighting_evaluation(
                organization_id,
                project_id,
                application_id,
                Placement {
                    item_id,
                    cluster_id,
                    namespace,
                    workload_kind,
                    workload_name,
                    pod_uid,
                    container_name,
                },
                Evaluation {
                    policy_state_version,
                    evaluator_version,
                    verdict,
                    reason_code,
                    winning_revision_id,
                    explanation,
                },
            ).finish(Self::STORE_SIGHTING_EVALUATION@, Fetch::Affected),
    {
        Upsert::new(Style::Tight, Target::Tight, "runtime_sighting_policy_evaluations")
            .kept("organization_id", organization_id)
            .kept("project_id", project_id)
            .kept("application_id", application_id)
            .key("item_id", item_id)
            .key("cluster_id", cluster_id)
            .key("namespace", namespace)
            .key("workload_kind", workload_kind)
            .key("workload_name", workload_name)
            .key("pod_uid", pod_uid)
            .key("container_name", container_name)
            .replaced("policy_state_version", policy_state_version)
            .replaced("evaluator_version", evaluator_version)
            .replaced("verdict", verdict)
            .replaced("reason_code", reason_code)
            .replaced("winning_revision_id", winning_revision_id)
            .replaced("explanation", explanation)
            .finish(Self::STORE_SIGHTING_EVALUATION, Fetch::Affected)
    }

    pub const CLAIM_RECOMPUTATION: &'static str =
        "WITH candidate AS (SELECT id FROM runtime_policy_recomputations WHERE ";

    pub const CLAIM_RECOMPUTATION_CHOSEN: &'static str =
        " ORDER BY created_at,id FOR UPDATE SKIP LOCKED LIMIT 1) UPDATE runtime_policy_recomputations o SET ";

    pub const CLAIM_RECOMPUTATION_TAIL: &'static str =
        " FROM candidate c WHERE o.id=c.id RETURNING o.id,o.organization_id,o.project_id,o.application_id,o.identity_version,o.identity_digest";

    /// The condition on a recomputation that a worker can claim.
    pub open spec fn claimable() -> Seq<Condition> {
        seq![
            Condition::WaitingOrExpired(
                "state"@,
                "pending"@,
                "running"@,
                "lease_expires_at"@,
            ),
        ]
    }

    /// What a claim changes in a recomputation.
    pub open spec fn claiming() -> Seq<Change> {
        seq![
            Change::Word("state"@, "running"@),
            Change::Given("lease_owner"@, 1),
            Change::AfterSeconds("lease_expires_at"@, 30),
            Change::Incremented("attempt_count"@),
            Change::NowOnce("started_at"@, Spelling::Upper),
            Change::Now("updated_at"@),
        ]
    }

    /// Leases the oldest pending recomputation, or one whose lease expired,
    /// to `owner`, counting an attempt.
    ///
    /// Selects the recomputation's `id`, tenant path, `identity_version` and
    /// `identity_digest`.
    pub fn claim_recomputation(owner: Uuid) -> (statement: Statement)
        ensures
            statement@ == StatementView::optional(
                Self::CLAIM_RECOMPUTATION@ + condition::all_text(Self::claimable())
                    + Self::CLAIM_RECOMPUTATION_CHOSEN@ + update::all_text(
                    Self::claiming(),
                    Form::Tight,
                ) + Self::CLAIM_RECOMPUTATION_TAIL@,
                seq![owner.bound()],
            ),
    {
        let conditions = Conditions::new().waiting_or_expired(
            "state",
            "pending",
            "running",
            "lease_expires_at",
        );
        let changes = Changes::new(Form::Tight)
            .word("state", "running")
            .given("lease_owner", 1)
            .after_seconds("lease_expires_at", 30)
            .incremented("attempt_count")
            .now_once("started_at", Spelling::Upper)
            .now("updated_at");
        assert(conditions@ =~= Self::claimable());
        assert(changes@ =~= Self::claiming());
        let text = text::join(Self::CLAIM_RECOMPUTATION, conditions.into_text().as_str())
            .concat(Self::CLAIM_RECOMPUTATION_CHOSEN)
            .concat(changes.into_text().as_str())
            .concat(Self::CLAIM_RECOMPUTATION_TAIL);
        Statement::optional(text.as_str()).bind(owner)
    }

    pub const GROUPS_TO_EVALUATE: &'static str =
        "SELECT l.item_id,g.id group_id,g.cluster_id,g.namespace,g.workload_kind,g.workload_name FROM runtime_inventory_group_links l JOIN runtime_inventory_items i ON i.id=l.item_id JOIN runtime_event_groups g ON g.id=l.group_id LEFT JOIN runtime_group_policy_evaluations e ON e.group_id=g.id LEFT JOIN runtime_policy_states s ON s.organization_id=g.organization_id AND s.project_id=g.project_id AND s.application_id=g.application_id ";

    pub const GROUPS_TO_EVALUATE_TAIL: &'static str = " ORDER BY g.id LIMIT $7";

    /// Whether the evaluation of the group is missing, or of an earlier policy state
    /// or another evaluator than the one at `$6`.
    pub const GROUP_IS_STALE: &'static str =
        "(e.group_id IS NULL OR e.policy_state_version<COALESCE(s.state_version,0) OR e.evaluator_version<>$6)";

    /// The conditions on a group to evaluate, besides the path.
    pub open spec fn stale_groups() -> Seq<Condition> {
        seq![
            Condition::Compared("i.identity_version"@, Test::Equal, 4),
            Condition::Compared("i.identity_digest"@, Test::Equal, 5),
            Condition::Asked(Self::GROUP_IS_STALE@),
        ]
    }

    /// Up to `limit` runtime groups of an identity whose evaluation is not
    /// current, with their placement.
    ///
    /// Selects `item_id`, `group_id`, `cluster_id`, `namespace`,
    /// `workload_kind` and `workload_name`.
    pub fn groups_to_evaluate(
        organization_id: Uuid,
        project_id: Uuid,
        application_id: Uuid,
        identity_version: i16,
        identity_digest: &[u8],
        evaluator_version: i16,
        limit: i64,
    ) -> (statement: Statement)
        ensures
            statement@ == StatementView::all(
                tenant::application_text(
                    Self::GROUPS_TO_EVALUATE@,
                    Before::Where,
                    "l."@,
                    Layout::Tight,
                    After::And,
                    condition::all_text(Self::stale_groups()) + Self::GROUPS_TO_EVALUATE_TAIL@,
                ),
                seq![
                    organization_id.bound(),
                    project_id.bound(),
                    application_id.bound(),
                    identity_version.bound(),
                    identity_digest.bound(),
                    evaluator_version.bound(),
                    limit.bound(),
                ],
            ),
            tenant::filters_by_application(statement@, organization_id, project_id, application_id),
    {
        let conditions = Conditions::new()
            .compared("i.identity_version", Test::Equal, 4)
            .compared("i.identity_digest", Test::Equal, 5)
            .asked(Self::GROUP_IS_STALE);
        assert(conditions@ =~= Self::stale_groups());
        let tail = conditions.into_text().concat(Self::GROUPS_TO_EVALUATE_TAIL);
        let text = tenant::application(
            Self::GROUPS_TO_EVALUATE,
            Before::Where,
            "l.",
            Layout::Tight,
            After::And,
            tail.as_str(),
        );
        Statement::all(text.as_str())
            .bind(organization_id)
            .bind(project_id)
            .bind(application_id)
            .bind(identity_version)
            .bind(identity_digest)
            .bind(evaluator_version)
            .bind(limit)
    }

    pub const SIGHTINGS_TO_EVALUATE: &'static str =
        "SELECT s.item_id,s.cluster_id,s.namespace,s.workload_kind,s.workload_name,s.pod_uid,s.container_name FROM runtime_inventory_sightings s JOIN runtime_inventory_items i ON i.id=s.item_id LEFT JOIN runtime_sighting_policy_evaluations e ON e.item_id=s.item_id AND e.cluster_id=s.cluster_id AND e.namespace=s.namespace AND e.workload_kind=s.workload_kind AND e.workload_name=s.workload_name AND e.pod_uid=s.pod_uid AND e.container_name=s.container_name LEFT JOIN runtime_policy_states ps ON ps.organization_id=s.organization_id AND ps.project_id=s.project_id AND ps.application_id=s.application_id ";

    pub const SIGHTINGS_TO_EVALUATE_TAIL: &'static str = " ORDER BY s.item_id,s.cluster_id,s.namespace,s.workload_kind,s.workload_name,s.pod_uid,s.container_name LIMIT $7";

    /// Whether the evaluation of the sighting is missing, or of an earlier policy
    /// state or another evaluator than the one at `$6`.
    pub const SIGHTING_IS_STALE: &'static str =
        "(e.item_id IS NULL OR e.policy_state_version<COALESCE(ps.state_version,0) OR e.evaluator_version<>$6)";

    /// The conditions on a sighting to evaluate, besides the path.
    pub open spec fn stale_sightings() -> Seq<Condition> {
        seq![
            Condition::Compared("i.identity_version"@, Test::Equal, 4),
            Condition::Compared("i.identity_digest"@, Test::Equal, 5),
            Condition::Asked(Self::SIGHTING_IS_STALE@),
        ]
    }

    /// Up to `limit` sightings of an identity whose evaluation is not current.
    ///
    /// Selects `item_id`, `cluster_id`, `namespace`, `workload_kind`,
    /// `workload_name`, `pod_uid` and `container_name`.
    pub fn sightings_to_evaluate(
        organization_id: Uuid,
        project_id: Uuid,
        application_id: Uuid,
        identity_version: i16,
        identity_digest: &[u8],
        evaluator_version: i16,
        limit: i64,
    ) -> (statement: Statement)
        ensures
            statement@ == StatementView::all(
                tenant::application_text(
                    Self::SIGHTINGS_TO_EVALUATE@,
                    Before::Where,
                    "s."@,
                    Layout::Tight,
                    After::And,
                    condition::all_text(Self::stale_sightings())
                        + Self::SIGHTINGS_TO_EVALUATE_TAIL@,
                ),
                seq![
                    organization_id.bound(),
                    project_id.bound(),
                    application_id.bound(),
                    identity_version.bound(),
                    identity_digest.bound(),
                    evaluator_version.bound(),
                    limit.bound(),
                ],
            ),
            tenant::filters_by_application(statement@, organization_id, project_id, application_id),
    {
        let conditions = Conditions::new()
            .compared("i.identity_version", Test::Equal, 4)
            .compared("i.identity_digest", Test::Equal, 5)
            .asked(Self::SIGHTING_IS_STALE);
        assert(conditions@ =~= Self::stale_sightings());
        let tail = conditions.into_text().concat(Self::SIGHTINGS_TO_EVALUATE_TAIL);
        let text = tenant::application(
            Self::SIGHTINGS_TO_EVALUATE,
            Before::Where,
            "s.",
            Layout::Tight,
            After::And,
            tail.as_str(),
        );
        Statement::all(text.as_str())
            .bind(organization_id)
            .bind(project_id)
            .bind(application_id)
            .bind(identity_version)
            .bind(identity_digest)
            .bind(evaluator_version)
            .bind(limit)
    }

    pub const CHANGE_RECOMPUTATION: &'static str = "UPDATE runtime_policy_recomputations SET ";

    /// The conditions on a recomputation that an owner has leased.
    pub open spec fn leased() -> Seq<Condition> {
        seq![
            Condition::Compared("id"@, Test::Equal, 1),
            Condition::Compared("lease_owner"@, Test::Equal, 2),
        ]
    }

    /// The text that changes a recomputation that an owner has leased.
    pub open spec fn changing_leased(changes: Seq<Change>) -> Seq<char> {
        Self::CHANGE_RECOMPUTATION@ + update::all_text(changes, Form::Tight) + " WHERE "@
            + condition::all_text(Self::leased())
    }

    /// Changes a recomputation that an owner has leased.
    fn change_leased(changes: Changes) -> (text: String)
        requires
            changes.laid_out() == Form::Tight,
        ensures
            text@ == Self::changing_leased(changes@),
    {
        let conditions = Conditions::new()
            .compared("id", Test::Equal, 1)
            .compared("lease_owner", Test::Equal, 2);
        assert(conditions@ =~= Self::leased());
        text::join(Self::CHANGE_RECOMPUTATION, changes.into_text().as_str())
            .concat(" WHERE ")
            .concat(conditions.into_text().as_str())
    }

    /// What the completion of a recomputation changes.
    pub open spec fn completion() -> Seq<Change> {
        seq![
            Change::Word("state"@, "completed"@),
            Change::Now("completed_at"@),
            Change::Null("lease_owner"@),
            Change::Null("lease_expires_at"@),
            Change::Now("updated_at"@),
        ]
    }

    /// Completes a recomputation leased to `owner`.
    pub fn complete_recomputation(recomputation_id: Uuid, owner: Uuid) -> (statement: Statement)
        ensures
            statement@ == StatementView::affected(
                Self::changing_leased(Self::completion()),
                seq![recomputation_id.bound(), owner.bound()],
            ),
    {
        let changes = Changes::new(Form::Tight)
            .word("state", "completed")
            .now("completed_at")
            .null("lease_owner")
            .null("lease_expires_at")
            .now("updated_at");
        assert(changes@ =~= Self::completion());
        let text = Self::change_leased(changes);
        Statement::affected(text.as_str()).bind(recomputation_id).bind(owner)
    }

    /// What the release of a recomputation changes.
    pub open spec fn release() -> Seq<Change> {
        seq![
            Change::Word("state"@, "pending"@),
            Change::Null("lease_owner"@),
            Change::Null("lease_expires_at"@),
            Change::Now("updated_at"@),
        ]
    }

    /// Returns a recomputation leased to `owner` to pending, for the next
    /// batch.
    pub fn release_recomputation(recomputation_id: Uuid, owner: Uuid) -> (statement: Statement)
        ensures
            statement@ == StatementView::affected(
                Self::changing_leased(Self::release()),
                seq![recomputation_id.bound(), owner.bound()],
            ),
    {
        let changes = Changes::new(Form::Tight)
            .word("state", "pending")
            .null("lease_owner")
            .null("lease_expires_at")
            .now("updated_at");
        assert(changes@ =~= Self::release());
        let text = Self::change_leased(changes);
        Statement::affected(text.as_str()).bind(recomputation_id).bind(owner)
    }

    pub const BACKFILL_RECOMPUTATIONS: &'static str =
        "INSERT INTO runtime_policy_recomputations(id,organization_id,project_id,application_id,identity_version,identity_digest) SELECT gen_random_uuid(),i.organization_id,i.project_id,i.application_id,i.identity_version,i.identity_digest FROM runtime_inventory_items i ";

    pub const BACKFILL_RECOMPUTATIONS_TAIL: &'static str =
        "($3::uuid IS NULL OR i.application_id=$3) AND NOT EXISTS(SELECT 1 FROM runtime_policy_recomputations o WHERE o.organization_id=i.organization_id AND o.project_id=i.project_id AND o.application_id=i.application_id AND o.identity_version=i.identity_version AND o.identity_digest=i.identity_digest AND o.state IN ('pending','running')) GROUP BY i.organization_id,i.project_id,i.application_id,i.identity_version,i.identity_digest";

    /// Requests a recomputation for every identity of the project, or of one
    /// application.
    pub fn backfill_recomputations(
        organization_id: Uuid,
        project_id: Uuid,
        application_id: Option<Uuid>,
    ) -> (statement: Statement)
        ensures
            statement@ == StatementView::affected(
                tenant::project_text(
                    Self::BACKFILL_RECOMPUTATIONS@,
                    Before::Where,
                    "i."@,
                    Layout::Tight,
                    After::And,
                    Self::BACKFILL_RECOMPUTATIONS_TAIL@,
                ),
                seq![organization_id.bound(), project_id.bound(), application_id.bound()],
            ),
            tenant::filters_by_project(statement@, organization_id, project_id),
    {
        let text = tenant::project(
            Self::BACKFILL_RECOMPUTATIONS,
            Before::Where,
            "i.",
            Layout::Tight,
            After::And,
            Self::BACKFILL_RECOMPUTATIONS_TAIL,
        );
        Statement::affected(text.as_str())
            .bind(organization_id)
            .bind(project_id)
            .bind(application_id)
    }

    pub const RECOMPUTATION: &'static str =
        "SELECT id,state,attempt_count,requested_policy_revision_id,created_at,started_at,completed_at,updated_at FROM runtime_policy_recomputations ";

    pub const RECOMPUTATION_TAIL: &'static str = "id=$4";

    /// One recomputation request of the application.
    ///
    /// Selects `id`, `state`, `attempt_count`, `requested_policy_revision_id`,
    /// `created_at`, `started_at`, `completed_at` and `updated_at`.
    pub fn recomputation(
        organization_id: Uuid,
        project_id: Uuid,
        application_id: Uuid,
        recomputation_id: Uuid,
    ) -> (statement: Statement)
        ensures
            statement@ == StatementView::optional(
                tenant::application_text(
                    Self::RECOMPUTATION@,
                    Before::Where,
                    ""@,
                    Layout::Tight,
                    After::And,
                    Self::RECOMPUTATION_TAIL@,
                ),
                seq![
                    organization_id.bound(),
                    project_id.bound(),
                    application_id.bound(),
                    recomputation_id.bound(),
                ],
            ),
            tenant::filters_by_application(statement@, organization_id, project_id, application_id),
    {
        let text = tenant::application(
            Self::RECOMPUTATION,
            Before::Where,
            "",
            Layout::Tight,
            After::And,
            Self::RECOMPUTATION_TAIL,
        );
        Statement::optional(text.as_str())
            .bind(organization_id)
            .bind(project_id)
            .bind(application_id)
            .bind(recomputation_id)
    }

    pub const PAGE: &'static str =
        "runtime_policies p LEFT JOIN runtime_policy_revisions r ON r.id=p.current_revision_id ";

    pub const PAGE_TAIL: &'static str = " ORDER BY p.id LIMIT $5";

    /// The conditions on a policy of a page, besides the path.
    pub open spec fn page_of_policies() -> Seq<Condition> {
        seq![Condition::ComparedIfGiven("p.id"@, Test::Greater, Kind::Uuid, 4)]
    }

    /// A page of the application's policies by id, after the cursor when one
    /// is given, each with its current revision.
    ///
    /// Selects `id`, `project_id`, `application_id`, `name`,
    /// `current_revision_id`, the current revision's `revision_number`,
    /// `enabled`, `inventory_kind`, `identity_version`, `behavior_matcher`,
    /// `cluster_ids`, `namespaces`, `workload_kinds`, `workload_names`,
    /// `inside_effect` and `outside_effect`, and the policy's
    /// `created_by_user_id`, `created_at` and `updated_at`.
    pub fn page(
        organization_id: Uuid,
        project_id: Uuid,
        application_id: Uuid,
        cursor: Option<Uuid>,
        fetch_limit: i64,
    ) -> (statement: Statement)
        ensures
            statement@ == StatementView::all(
                text::select_text(
                    Self::POLICY_COLUMNS@,
                    tenant::application_text(
                        Self::PAGE@,
                        Before::Where,
                        "p."@,
                        Layout::Tight,
                        After::And,
                        condition::all_text(Self::page_of_policies()) + Self::PAGE_TAIL@,
                    ),
                ),
                seq![
                    organization_id.bound(),
                    project_id.bound(),
                    application_id.bound(),
                    cursor.bound(),
                    fetch_limit.bound(),
                ],
            ),
            tenant::filters_by_application(statement@, organization_id, project_id, application_id),
            text::gives(statement@.text, Self::POLICY_COLUMNS@),
    {
        let conditions = Conditions::new().compared_if_given("p.id", Test::Greater, Kind::Uuid, 4);
        assert(conditions@ =~= Self::page_of_policies());
        let tail = conditions.into_text().concat(Self::PAGE_TAIL);
        let rows = tenant::application(
            Self::PAGE,
            Before::Where,
            "p.",
            Layout::Tight,
            After::And,
            tail.as_str(),
        );
        let text = text::select(Self::POLICY_COLUMNS, rows.as_str());
        Statement::all(text.as_str())
            .bind(organization_id)
            .bind(project_id)
            .bind(application_id)
            .bind(cursor)
            .bind(fetch_limit)
    }

    pub const GET: &'static str =
        "runtime_policies p LEFT JOIN runtime_policy_revisions r ON r.id=p.current_revision_id ";

    pub const GET_TAIL: &'static str = "p.id=$4";

    /// One policy of the application with the columns of [`Self::page`].
    pub fn get(
        organization_id: Uuid,
        project_id: Uuid,
        application_id: Uuid,
        policy_id: Uuid,
    ) -> (statement: Statement)
        ensures
            statement@ == StatementView::optional(
                text::select_text(
                    Self::POLICY_COLUMNS@,
                    tenant::application_text(
                        Self::GET@,
                        Before::Where,
                        "p."@,
                        Layout::Tight,
                        After::And,
                        Self::GET_TAIL@,
                    ),
                ),
                seq![
                    organization_id.bound(),
                    project_id.bound(),
                    application_id.bound(),
                    policy_id.bound(),
                ],
            ),
            tenant::filters_by_application(statement@, organization_id, project_id, application_id),
            text::gives(statement@.text, Self::POLICY_COLUMNS@),
    {
        let rows = tenant::application(
            Self::GET,
            Before::Where,
            "p.",
            Layout::Tight,
            After::And,
            Self::GET_TAIL,
        );
        let text = text::select(Self::POLICY_COLUMNS, rows.as_str());
        Statement::optional(text.as_str())
            .bind(organization_id)
            .bind(project_id)
            .bind(application_id)
            .bind(policy_id)
    }

    pub const REVISION_PAGE: &'static str = "runtime_policy_revisions r ";

    pub const REVISION_PAGE_TAIL: &'static str = " ORDER BY r.id DESC LIMIT $6";

    /// The conditions on a revision of a page, besides the path.
    pub open spec fn page_of_revisions() -> Seq<Condition> {
        seq![
            Condition::Compared("r.policy_id"@, Test::Equal, 4),
            Condition::ComparedIfGiven("r.id"@, Test::Less, Kind::Uuid, 5),
        ]
    }

    /// A page of a policy's revisions, newest first, before the cursor when
    /// one is given.
    ///
    /// Selects every revision column but the tenant path.
    pub fn revision_page(
        organization_id: Uuid,
        project_id: Uuid,
        application_id: Uuid,
        policy_id: Uuid,
        cursor: Option<Uuid>,
        fetch_limit: i64,
    ) -> (statement: Statement)
        ensures
            statement@ == StatementView::all(
                text::select_text(
                    Self::REVISION_COLUMNS@,
                    tenant::application_text(
                        Self::REVISION_PAGE@,
                        Before::Where,
                        "r."@,
                        Layout::Tight,
                        After::And,
                        condition::all_text(Self::page_of_revisions()) + Self::REVISION_PAGE_TAIL@,
                    ),
                ),
                seq![
                    organization_id.bound(),
                    project_id.bound(),
                    application_id.bound(),
                    policy_id.bound(),
                    cursor.bound(),
                    fetch_limit.bound(),
                ],
            ),
            tenant::filters_by_application(statement@, organization_id, project_id, application_id),
            text::gives(statement@.text, Self::REVISION_COLUMNS@),
    {
        let conditions = Conditions::new()
            .compared("r.policy_id", Test::Equal, 4)
            .compared_if_given("r.id", Test::Less, Kind::Uuid, 5);
        assert(conditions@ =~= Self::page_of_revisions());
        let tail = conditions.into_text().concat(Self::REVISION_PAGE_TAIL);
        let rows = tenant::application(
            Self::REVISION_PAGE,
            Before::Where,
            "r.",
            Layout::Tight,
            After::And,
            tail.as_str(),
        );
        let text = text::select(Self::REVISION_COLUMNS, rows.as_str());
        Statement::all(text.as_str())
            .bind(organization_id)
            .bind(project_id)
            .bind(application_id)
            .bind(policy_id)
            .bind(cursor)
            .bind(fetch_limit)
    }

    pub const SUPPRESSION_PAGE: &'static str =
        "SELECT id,inventory_kind,identity_version,identity_digest,behavior_matcher,cluster_ids,namespaces,workload_kinds,workload_names,reason,expires_at,cancelled_at,cancelled_by_user_id,source_inventory_item_id,source_runtime_group_id,created_by_user_id,created_at FROM runtime_policy_suppressions ";

    pub const SUPPRESSION_PAGE_TAIL: &'static str = " ORDER BY id DESC LIMIT $6";

    /// The conditions that a page of suppressions reads by, besides the path.
    pub open spec fn suppression_filters() -> Seq<Condition> {
        seq![
            Condition::ComparedIfGiven("id"@, Test::Less, Kind::Uuid, 4),
            Condition::PendingAsGiven("cancelled_at"@, "expires_at"@, 5),
        ]
    }

    /// All the conditions that a page of suppressions reads by.
    pub open spec fn suppression_conditions() -> Seq<Condition> {
        condition::application_path(""@) + Self::suppression_filters()
    }

    /// The values that a page of suppressions reads by.
    pub open spec fn suppression_values(
        organization_id: Uuid,
        project_id: Uuid,
        application_id: Uuid,
        cursor: Option<Uuid>,
        active: Option<bool>,
        fetch_limit: i64,
    ) -> Seq<Bound> {
        seq![
            organization_id.bound(),
            project_id.bound(),
            application_id.bound(),
            cursor.bound(),
            active.bound(),
            fetch_limit.bound(),
        ]
    }

    /// A page of the application's suppressions, newest first, before the
    /// cursor when one is given; `active` keeps only suppressions that are,
    /// or are not, uncancelled and unexpired.
    ///
    /// Selects every suppression column but the tenant path.
    pub fn suppression_page(
        organization_id: Uuid,
        project_id: Uuid,
        application_id: Uuid,
        cursor: Option<Uuid>,
        active: Option<bool>,
        fetch_limit: i64,
    ) -> (statement: Statement)
        ensures
            statement@ == StatementView::all(
                tenant::application_text(
                    Self::SUPPRESSION_PAGE@,
                    Before::Where,
                    ""@,
                    Layout::Tight,
                    After::And,
                    condition::all_text(Self::suppression_filters())
                        + Self::SUPPRESSION_PAGE_TAIL@,
                ),
                Self::suppression_values(
                    organization_id,
                    project_id,
                    application_id,
                    cursor,
                    active,
                    fetch_limit,
                ),
            ),
            statement@.text == Self::SUPPRESSION_PAGE@ + "WHERE "@ + condition::all_text(
                Self::suppression_conditions(),
            ) + Self::SUPPRESSION_PAGE_TAIL@,
            tenant::filters_by_application(statement@, organization_id, project_id, application_id),
    {
        let filters = Conditions::new()
            .compared_if_given("id", Test::Less, Kind::Uuid, 4)
            .pending_as_given("cancelled_at", "expires_at", 5);
        proof {
            assert(filters@ =~= Self::suppression_filters());
            condition::paths_are_filters(""@);
            condition::lemma_texts_join(
                condition::application_path(""@),
                Self::suppression_filters(),
            );
        }
        let tail = filters.into_text().concat(Self::SUPPRESSION_PAGE_TAIL);
        let text = tenant::application(
            Self::SUPPRESSION_PAGE,
            Before::Where,
            "",
            Layout::Tight,
            After::And,
            tail.as_str(),
        );
        assert(text@ =~= Self::SUPPRESSION_PAGE@ + "WHERE "@ + condition::all_text(
            Self::suppression_conditions(),
        ) + Self::SUPPRESSION_PAGE_TAIL@);
        Statement::all(text.as_str())
            .bind(organization_id)
            .bind(project_id)
            .bind(application_id)
            .bind(cursor)
            .bind(active)
            .bind(fetch_limit)
    }

    pub const LOCK_COMMAND: &'static str = "SELECT pg_advisory_xact_lock(hashtextextended($1,0))";

    /// Takes the transaction-scoped advisory lock for one idempotency key,
    /// given as `"{organization_id}:{key}"`, so a repeated command waits for
    /// the first to commit.
    pub fn lock_command(lock_key: String) -> (statement: Statement)
        ensures
            statement@ == StatementView::affected(Self::LOCK_COMMAND@, seq![lock_key.bound()]),
    {
        Statement::affected(Self::LOCK_COMMAND).bind(lock_key)
    }

    pub const COMMAND: &'static str =
        "SELECT request_digest,result FROM runtime_policy_commands ";

    pub const COMMAND_TAIL: &'static str = "idempotency_key=$2";

    /// The request digest and result recorded for an idempotency key.
    pub fn command(organization_id: Uuid, idempotency_key: Uuid) -> (statement: Statement)
        ensures
            statement@ == StatementView::optional(
                tenant::organization_text(
                    Self::COMMAND@,
                    Before::Where,
                    ""@,
                    Layout::Tight,
                    After::And,
                    Self::COMMAND_TAIL@,
                ),
                seq![organization_id.bound(), idempotency_key.bound()],
            ),
            tenant::filters_by_organization(statement@, organization_id),
    {
        let text = tenant::organization(
            Self::COMMAND,
            Before::Where,
            "",
            Layout::Tight,
            After::And,
            Self::COMMAND_TAIL,
        );
        Statement::optional(text.as_str()).bind(organization_id).bind(idempotency_key)
    }

    /// Records a command's result under its idempotency key.
    pub fn record_command(
        id: Uuid,
        organization_id: Uuid,
        project_id: Uuid,
        application_id: Uuid,
        idempotency_key: Uuid,
        command_kind: &str,
        request_digest: &[u8],
        actor_user_id: Uuid,
        result_resource_id: Uuid,
        result: Value,
    ) -> (statement: Statement)
        ensures
            statement@ == insert::row(Style::Tight, "runtime_policy_commands"@)
                .set("id"@, id.bound())
                .set("organization_id"@, organization_id.bound())
                .set("project_id"@, project_id.bound())
                .set("application_id"@, application_id.bound())
                .set("idempotency_key"@, idempotency_key.bound())
                .set("command_kind"@, command_kind.bound())
                .set("request_digest"@, request_digest.bound())
                .set("actor_user_id"@, actor_user_id.bound())
                .set("result_resource_id"@, result_resource_id.bound())
                .set("result"@, result.bound())
                .finish(""@, Fetch::Affected),
    {
        Row::new(Style::Tight, "runtime_policy_commands")
            .set("id", id)
            .set("organization_id", organization_id)
            .set("project_id", project_id)
            .set("application_id", application_id)
            .set("idempotency_key", idempotency_key)
            .set("command_kind", command_kind)
            .set("request_digest", request_digest)
            .set("actor_user_id", actor_user_id)
            .set("result_resource_id", result_resource_id)
            .set("result", result)
            .finish("", Fetch::Affected)
    }

    /// The application's policy state version, one greater.
    pub open spec fn next_state_version(
        organization_id: Uuid,
        project_id: Uuid,
        application_id: Uuid,
    ) -> UpsertView {
        upsert::upsert(Style::Tight, Target::Tight, "runtime_policy_states"@)
            .key("organization_id"@, organization_id.bound())
            .key("project_id"@, project_id.bound())
            .key("application_id"@, application_id.bound())
            .counted("state_version"@)
    }

    /// Increments the application's policy state version, starting it at 1,
    /// and returns the new version.
    pub fn bump_state_version(
        organization_id: Uuid,
        project_id: Uuid,
        application_id: Uuid,
    ) -> (statement: Statement)
        ensures
            statement@ == Self::next_state_version(
                organization_id,
                project_id,
                application_id,
            ).finish(",updated_at=now() RETURNING state_version"@, Fetch::One),
    {
        Upsert::new(Style::Tight, Target::Tight, "runtime_policy_states")
            .key("organization_id", organization_id)
            .key("project_id", project_id)
            .key("application_id", application_id)
            .counted("state_version")
            .finish(",updated_at=now() RETURNING state_version", Fetch::One)
    }

    pub const CURRENT_STATE_VERSION: &'static str =
        " ON CONFLICT(organization_id,project_id,application_id) DO UPDATE SET updated_at=runtime_policy_states.updated_at RETURNING state_version";

    /// The application's policy state version, creating it when absent.
    pub fn current_state_version(
        organization_id: Uuid,
        project_id: Uuid,
        application_id: Uuid,
    ) -> (statement: Statement)
        ensures
            statement@ == insert::row(Style::Tight, "runtime_policy_states"@)
                .set("organization_id"@, organization_id.bound())
                .set("project_id"@, project_id.bound())
                .set("application_id"@, application_id.bound())
                .finish(Self::CURRENT_STATE_VERSION@, Fetch::One),
    {
        Row::new(Style::Tight, "runtime_policy_states")
            .set("organization_id", organization_id)
            .set("project_id", project_id)
            .set("application_id", application_id)
            .finish(Self::CURRENT_STATE_VERSION, Fetch::One)
    }

    /// Inserts a policy with no revision yet.
    pub fn insert(
        policy_id: Uuid,
        organization_id: Uuid,
        project_id: Uuid,
        application_id: Uuid,
        name: &str,
        created_by_user_id: Uuid,
    ) -> (statement: Statement)
        ensures
            statement@ == insert::row(Style::Tight, "runtime_policies"@)
                .set("id"@, policy_id.bound())
                .set("organization_id"@, organization_id.bound())
                .set("project_id"@, project_id.bound())
                .set("application_id"@, application_id.bound())
                .set("name"@, name.bound())
                .set("created_by_user_id"@, created_by_user_id.bound())
                .finish(""@, Fetch::Affected),
    {
        Row::new(Style::Tight, "runtime_policies")
            .set("id", policy_id)
            .set("organization_id", organization_id)
            .set("project_id", project_id)
            .set("application_id", application_id)
            .set("name", name)
            .set("created_by_user_id", created_by_user_id)
            .finish("", Fetch::Affected)
    }

    /// Appends a revision to a policy.
    pub fn insert_revision(
        revision_id: Uuid,
        policy_id: Uuid,
        organization_id: Uuid,
        project_id: Uuid,
        application_id: Uuid,
        revision_number: i64,
        prior_revision_id: Option<Uuid>,
        enabled: bool,
        inventory_kind: &str,
        identity_version: i16,
        identity_digest: &[u8],
        behavior_matcher: Value,
        cluster_ids: Vec<Uuid>,
        namespaces: Vec<String>,
        workload_kinds: Vec<String>,
        workload_names: Vec<String>,
        inside_effect: &str,
        outside_effect: Option<&str>,
        source_inventory_item_id: Uuid,
        source_runtime_group_id: Option<Uuid>,
        created_by_user_id: Uuid,
    ) -> (statement: Statement)
        ensures
            statement@ == insert::row(Style::Tight, "runtime_policy_revisions"@)
                .set("id"@, revision_id.bound())
                .set("policy_id"@, policy_id.bound())
                .set("organization_id"@, organization_id.bound())
                .set("project_id"@, project_id.bound())
                .set("application_id"@, application_id.bound())
                .set("revision_number"@, revision_number.bound())
                .set("prior_revision_id"@, prior_revision_id.bound())
                .set("enabled"@, enabled.bound())
                .set("inventory_kind"@, inventory_kind.bound())
                .set("identity_version"@, identity_version.bound())
                .set("identity_digest"@, identity_digest.bound())
                .set("behavior_matcher"@, behavior_matcher.bound())
                .set("cluster_ids"@, cluster_ids.bound())
                .set("namespaces"@, namespaces.bound())
                .set("workload_kinds"@, workload_kinds.bound())
                .set("workload_names"@, workload_names.bound())
                .set("inside_effect"@, inside_effect.bound())
                .set("outside_effect"@, outside_effect.bound())
                .set("source_inventory_item_id"@, source_inventory_item_id.bound())
                .set("source_runtime_group_id"@, source_runtime_group_id.bound())
                .set("created_by_user_id"@, created_by_user_id.bound())
                .finish(""@, Fetch::Affected),
    {
        Row::new(Style::Tight, "runtime_policy_revisions")
            .set("id", revision_id)
            .set("policy_id", policy_id)
            .set("organization_id", organization_id)
            .set("project_id", project_id)
            .set("application_id", application_id)
            .set("revision_number", revision_number)
            .set("prior_revision_id", prior_revision_id)
            .set("enabled", enabled)
            .set("inventory_kind", inventory_kind)
            .set("identity_version", identity_version)
            .set("identity_digest", identity_digest)
            .set("behavior_matcher", behavior_matcher)
            .set("cluster_ids", cluster_ids)
            .set("namespaces", namespaces)
            .set("workload_kinds", workload_kinds)
            .set("workload_names", workload_names)
            .set("inside_effect", inside_effect)
            .set("outside_effect", outside_effect)
            .set("source_inventory_item_id", source_inventory_item_id)
            .set("source_runtime_group_id", source_runtime_group_id)
            .set("created_by_user_id", created_by_user_id)
            .finish("", Fetch::Affected)
    }

    /// What a new current revision changes in a policy.
    pub open spec fn revising() -> Seq<Change> {
        seq![
            Change::Given("current_revision_id"@, 4),
            Change::Now("updated_at"@),
        ]
    }

    /// The conditions on the policy that is revised, besides the path.
    pub open spec fn revised_policy() -> Seq<Condition> {
        seq![Condition::Compared("id"@, Test::Equal, 5)]
    }

    /// Points a policy at its new current revision.
    pub fn set_current_revision(
        organization_id: Uuid,
        project_id: Uuid,
        application_id: Uuid,
        revision_id: Uuid,
        policy_id: Uuid,
    ) -> (statement: Statement)
        ensures
            statement@ == StatementView::affected(
                tenant::application_text(
                    "UPDATE runtime_policies SET "@ + update::all_text(Self::revising(), Form::Tight) + " "@,
                    Before::Where,
                    ""@,
                    Layout::Tight,
                    After::And,
                    condition::all_text(Self::revised_policy()),
                ),
                seq![
                    organization_id.bound(),
                    project_id.bound(),
                    application_id.bound(),
                    revision_id.bound(),
                    policy_id.bound(),
                ],
            ),
            tenant::filters_by_application(statement@, organization_id, project_id, application_id),
    {
        let changes = Changes::new(Form::Tight)
            .given("current_revision_id", 4)
            .now("updated_at");
        let conditions = Conditions::new().compared("id", Test::Equal, 5);
        assert(changes@ =~= Self::revising());
        assert(conditions@ =~= Self::revised_policy());
        let head = text::join(
            "UPDATE runtime_policies SET ",
            changes.into_text().as_str(),
        ).concat(" ");
        let tail = conditions.into_text();
        let text = tenant::application(
            head.as_str(),
            Before::Where,
            "",
            Layout::Tight,
            After::And,
            tail.as_str(),
        );
        Statement::affected(text.as_str())
            .bind(organization_id)
            .bind(project_id)
            .bind(application_id)
            .bind(revision_id)
            .bind(policy_id)
    }

    /// Requests recomputation of the evaluations for one inventory identity
    /// after a revision.
    pub fn request_recomputation(
        id: Uuid,
        organization_id: Uuid,
        project_id: Uuid,
        application_id: Uuid,
        identity_version: i16,
        identity_digest: &[u8],
        requested_policy_revision_id: Uuid,
    ) -> (statement: Statement)
        ensures
            statement@ == insert::row(Style::Tight, "runtime_policy_recomputations"@)
                .set("id"@, id.bound())
                .set("organization_id"@, organization_id.bound())
                .set("project_id"@, project_id.bound())
                .set("application_id"@, application_id.bound())
                .set("identity_version"@, identity_version.bound())
                .set("identity_digest"@, identity_digest.bound())
                .set("requested_policy_revision_id"@, requested_policy_revision_id.bound())
                .finish(""@, Fetch::Affected),
    {
        Row::new(Style::Tight, "runtime_policy_recomputations")
            .set("id", id)
            .set("organization_id", organization_id)
            .set("project_id", project_id)
            .set("application_id", application_id)
            .set("identity_version", identity_version)
            .set("identity_digest", identity_digest)
            .set("requested_policy_revision_id", requested_policy_revision_id)
            .finish("", Fetch::Affected)
    }

    pub const PREVIEW_COUNTS: &'static str =
        "SELECT count(*)::bigint,count(DISTINCT cluster_id)::bigint,count(DISTINCT (cluster_id,namespace))::bigint,count(DISTINCT (cluster_id,namespace,workload_kind,workload_name))::bigint,count(*) FILTER(WHERE (cardinality($2::uuid[])=0 OR cluster_id=ANY($2)) AND (cardinality($3::text[])=0 OR namespace=ANY($3)) AND (cardinality($4::text[])=0 OR workload_kind=ANY($4)) AND (cardinality($5::text[])=0 OR workload_name=ANY($5)))::bigint FROM runtime_inventory_sightings WHERE item_id=$1";

    /// Counts an inventory item's sightings for a placement preview: all
    /// sightings, their distinct clusters, namespaces and workloads, and the
    /// sightings inside the placement. An empty placement list matches
    /// everything.
    pub fn preview_counts(
        item_id: Uuid,
        cluster_ids: &[Uuid],
        namespaces: &[String],
        workload_kinds: &[String],
        workload_names: &[String],
    ) -> (statement: Statement)
        ensures
            statement@ == StatementView::one(
                Self::PREVIEW_COUNTS@,
                seq![
                    item_id.bound(),
                    cluster_ids.bound(),
                    namespaces.bound(),
                    workload_kinds.bound(),
                    workload_names.bound(),
                ],
            ),
    {
        Statement::one(Self::PREVIEW_COUNTS)
            .bind(item_id)
            .bind(cluster_ids)
            .bind(namespaces)
            .bind(workload_kinds)
            .bind(workload_names)
    }

    pub const PREVIEW_GROUP_IDS: &'static str =
        "SELECT g.id FROM runtime_inventory_group_links l JOIN runtime_event_groups g ON g.organization_id=l.organization_id AND g.project_id=l.project_id AND g.application_id=l.application_id AND g.id=l.group_id WHERE l.item_id=$1 AND ((cardinality($2::uuid[])=0 OR g.cluster_id=ANY($2)) AND (cardinality($3::text[])=0 OR g.namespace=ANY($3)) AND (cardinality($4::text[])=0 OR g.workload_kind=ANY($4)) AND (cardinality($5::text[])=0 OR g.workload_name=ANY($5)) OR $6::boolean) ORDER BY g.id LIMIT 20";

    /// Up to 20 runtime groups linked to the item, by id, inside the
    /// placement or, with `include_outside`, anywhere.
    pub fn preview_group_ids(
        item_id: Uuid,
        cluster_ids: &[Uuid],
        namespaces: &[String],
        workload_kinds: &[String],
        workload_names: &[String],
        include_outside: bool,
    ) -> (statement: Statement)
        ensures
            statement@ == StatementView::all(
                Self::PREVIEW_GROUP_IDS@,
                seq![
                    item_id.bound(),
                    cluster_ids.bound(),
                    namespaces.bound(),
                    workload_kinds.bound(),
                    workload_names.bound(),
                    include_outside.bound(),
                ],
            ),
    {
        Statement::all(Self::PREVIEW_GROUP_IDS)
            .bind(item_id)
            .bind(cluster_ids)
            .bind(namespaces)
            .bind(workload_kinds)
            .bind(workload_names)
            .bind(include_outside)
    }

    pub const PREVIEW_SIGHTINGS: &'static str =
        "SELECT cluster_id,namespace,workload_kind,workload_name,pod_uid,container_name FROM runtime_inventory_sightings WHERE item_id=$1 AND ((cardinality($2::uuid[])=0 OR cluster_id=ANY($2)) AND (cardinality($3::text[])=0 OR namespace=ANY($3)) AND (cardinality($4::text[])=0 OR workload_kind=ANY($4)) AND (cardinality($5::text[])=0 OR workload_name=ANY($5)) OR $6::boolean) ORDER BY last_seen_at DESC,cluster_id,namespace,workload_kind,workload_name,pod_uid,container_name LIMIT 20";

    /// Up to 20 of the item's sightings, most recent first, inside the
    /// placement or, with `include_outside`, anywhere.
    ///
    /// Selects `cluster_id`, `namespace`, `workload_kind`, `workload_name`,
    /// `pod_uid` and `container_name`.
    pub fn preview_sightings(
        item_id: Uuid,
        cluster_ids: &[Uuid],
        namespaces: &[String],
        workload_kinds: &[String],
        workload_names: &[String],
        include_outside: bool,
    ) -> (statement: Statement)
        ensures
            statement@ == StatementView::all(
                Self::PREVIEW_SIGHTINGS@,
                seq![
                    item_id.bound(),
                    cluster_ids.bound(),
                    namespaces.bound(),
                    workload_kinds.bound(),
                    workload_names.bound(),
                    include_outside.bound(),
                ],
            ),
    {
        Statement::all(Self::PREVIEW_SIGHTINGS)
            .bind(item_id)
            .bind(cluster_ids)
            .bind(namespaces)
            .bind(workload_kinds)
            .bind(workload_names)
            .bind(include_outside)
    }

    pub const CURRENT_REVISION_FOR_UPDATE: &'static str =
        "SELECT current_revision_id,r.revision_number FROM runtime_policies p JOIN runtime_policy_revisions r ON r.id=p.current_revision_id ";

    pub const CURRENT_REVISION_FOR_UPDATE_TAIL: &'static str = "p.id=$4 FOR UPDATE OF p";

    /// Locks a policy of the application and returns its current revision's
    /// id and number.
    pub fn current_revision_for_update(
        organization_id: Uuid,
        project_id: Uuid,
        application_id: Uuid,
        policy_id: Uuid,
    ) -> (statement: Statement)
        ensures
            statement@ == StatementView::optional(
                tenant::application_text(
                    Self::CURRENT_REVISION_FOR_UPDATE@,
                    Before::Where,
                    "p."@,
                    Layout::Tight,
                    After::And,
                    Self::CURRENT_REVISION_FOR_UPDATE_TAIL@,
                ),
                seq![
                    organization_id.bound(),
                    project_id.bound(),
                    application_id.bound(),
                    policy_id.bound(),
                ],
            ),
            tenant::filters_by_application(statement@, organization_id, project_id, application_id),
    {
        let text = tenant::application(
            Self::CURRENT_REVISION_FOR_UPDATE,
            Before::Where,
            "p.",
            Layout::Tight,
            After::And,
            Self::CURRENT_REVISION_FOR_UPDATE_TAIL,
        );
        Statement::optional(text.as_str())
            .bind(organization_id)
            .bind(project_id)
            .bind(application_id)
            .bind(policy_id)
    }

    pub const CURRENT_REVISION_DETAIL_FOR_UPDATE: &'static str =
        "runtime_policies p JOIN runtime_policy_revisions r ON r.id=p.current_revision_id ";

    pub const CURRENT_REVISION_DETAIL_FOR_UPDATE_TAIL: &'static str = "p.id=$4 FOR UPDATE OF p";

    /// Locks a policy of the application and returns its current revision
    /// with the columns of [`Self::revision_page`].
    pub fn current_revision_detail_for_update(
        organization_id: Uuid,
        project_id: Uuid,
        application_id: Uuid,
        policy_id: Uuid,
    ) -> (statement: Statement)
        ensures
            statement@ == StatementView::optional(
                text::select_text(
                    Self::REVISION_COLUMNS@,
                    tenant::application_text(
                        Self::CURRENT_REVISION_DETAIL_FOR_UPDATE@,
                        Before::Where,
                        "p."@,
                        Layout::Tight,
                        After::And,
                        Self::CURRENT_REVISION_DETAIL_FOR_UPDATE_TAIL@,
                    ),
                ),
                seq![
                    organization_id.bound(),
                    project_id.bound(),
                    application_id.bound(),
                    policy_id.bound(),
                ],
            ),
            tenant::filters_by_application(statement@, organization_id, project_id, application_id),
            text::gives(statement@.text, Self::REVISION_COLUMNS@),
    {
        let rows = tenant::application(
            Self::CURRENT_REVISION_DETAIL_FOR_UPDATE,
            Before::Where,
            "p.",
            Layout::Tight,
            After::And,
            Self::CURRENT_REVISION_DETAIL_FOR_UPDATE_TAIL,
        );
        let text = text::select(Self::REVISION_COLUMNS, rows.as_str());
        Statement::optional(text.as_str())
            .bind(organization_id)
            .bind(project_id)
            .bind(application_id)
            .bind(policy_id)
    }

    /// What a new name changes in a policy.
    pub open spec fn renaming() -> Seq<Change> {
        seq![Change::Given("name"@, 1)]
    }

    /// The conditions on the policy of an id.
    pub open spec fn policy_by_id() -> Seq<Condition> {
        seq![Condition::Compared("id"@, Test::Equal, 2)]
    }

    /// Renames a policy.
    pub fn rename(name: &str, policy_id: Uuid) -> (statement: Statement)
        ensures
            statement@ == StatementView::affected(
                "UPDATE runtime_policies SET "@ + update::all_text(Self::renaming(), Form::Tight)
                    + " WHERE "@ + condition::all_text(Self::policy_by_id()),
                seq![name.bound(), policy_id.bound()],
            ),
    {
        let changes = Changes::new(Form::Tight)
            .given("name", 1);
        let conditions = Conditions::new().compared("id", Test::Equal, 2);
        assert(changes@ =~= Self::renaming());
        assert(conditions@ =~= Self::policy_by_id());
        let text = text::join("UPDATE runtime_policies SET ", changes.into_text().as_str())
            .concat(" WHERE ")
            .concat(conditions.into_text().as_str());
        Statement::affected(text.as_str()).bind(name).bind(policy_id)
    }

    /// The row that stores a suppression.
    pub open spec fn suppression(
        id: Uuid,
        organization_id: Uuid,
        project_id: Uuid,
        application_id: Uuid,
        inventory_kind: &str,
        identity_version: i16,
        identity_digest: &[u8],
        behavior_matcher: Value,
        cluster_ids: Vec<Uuid>,
        namespaces: Vec<String>,
        workload_kinds: Vec<String>,
        workload_names: Vec<String>,
        reason: &str,
        expires_at: Timestamp,
        source_inventory_item_id: Uuid,
        source_runtime_group_id: Option<Uuid>,
        created_by_user_id: Uuid,
        created_at: Timestamp,
    ) -> RowView {
        insert::row(Style::Tight, "runtime_policy_suppressions"@)
            .set("id"@, id.bound())
            .set("organization_id"@, organization_id.bound())
            .set("project_id"@, project_id.bound())
            .set("application_id"@, application_id.bound())
            .set("inventory_kind"@, inventory_kind.bound())
            .set("identity_version"@, identity_version.bound())
            .set("identity_digest"@, identity_digest.bound())
            .set("behavior_matcher"@, behavior_matcher.bound())
            .set("cluster_ids"@, cluster_ids.bound())
            .set("namespaces"@, namespaces.bound())
            .set("workload_kinds"@, workload_kinds.bound())
            .set("workload_names"@, workload_names.bound())
            .set("reason"@, reason.bound())
            .set("expires_at"@, expires_at.bound())
            .set("source_inventory_item_id"@, source_inventory_item_id.bound())
            .set("source_runtime_group_id"@, source_runtime_group_id.bound())
            .set("created_by_user_id"@, created_by_user_id.bound())
            .set("created_at"@, created_at.bound())
    }

    /// Inserts a suppression of one inventory identity within a placement
    /// until it expires.
    pub fn insert_suppression(
        id: Uuid,
        organization_id: Uuid,
        project_id: Uuid,
        application_id: Uuid,
        inventory_kind: &str,
        identity_version: i16,
        identity_digest: &[u8],
        behavior_matcher: Value,
        cluster_ids: Vec<Uuid>,
        namespaces: Vec<String>,
        workload_kinds: Vec<String>,
        workload_names: Vec<String>,
        reason: &str,
        expires_at: Timestamp,
        source_inventory_item_id: Uuid,
        source_runtime_group_id: Option<Uuid>,
        created_by_user_id: Uuid,
        created_at: Timestamp,
    ) -> (statement: Statement)
        ensures
            statement@ == Self::suppression(
                id,
                organization_id,
                project_id,
                application_id,
                inventory_kind,
                identity_version,
                identity_digest,
                behavior_matcher,
                cluster_ids,
                namespaces,
                workload_kinds,
                workload_names,
                reason,
                expires_at,
                source_inventory_item_id,
                source_runtime_group_id,
                created_by_user_id,
                created_at,
            ).finish(""@, Fetch::Affected),
    {
        Row::new(Style::Tight, "runtime_policy_suppressions")
            .set("id", id)
            .set("organization_id", organization_id)
            .set("project_id", project_id)
            .set("application_id", application_id)
            .set("inventory_kind", inventory_kind)
            .set("identity_version", identity_version)
            .set("identity_digest", identity_digest)
            .set("behavior_matcher", behavior_matcher)
            .set("cluster_ids", cluster_ids)
            .set("namespaces", namespaces)
            .set("workload_kinds", workload_kinds)
            .set("workload_names", workload_names)
            .set("reason", reason)
            .set("expires_at", expires_at)
            .set("source_inventory_item_id", source_inventory_item_id)
            .set("source_runtime_group_id", source_runtime_group_id)
            .set("created_by_user_id", created_by_user_id)
            .set("created_at", created_at)
            .finish("", Fetch::Affected)
    }

    pub const CANCEL_SUPPRESSION: &'static str = "UPDATE runtime_policy_suppressions SET ";

    pub const CANCEL_SUPPRESSION_TAIL: &'static str = "id=$4";

    /// What a cancellation changes.
    pub open spec fn cancellation() -> Seq<Change> {
        seq![
            Change::NowOnce("cancelled_at"@, Spelling::Upper),
            Change::GivenOnce("cancelled_by_user_id"@, 5),
        ]
    }

    /// Cancels a suppression of the application, keeping an earlier
    /// cancellation. Affects no row when there is no such suppression.
    pub fn cancel_suppression(
        organization_id: Uuid,
        project_id: Uuid,
        application_id: Uuid,
        suppression_id: Uuid,
        cancelled_by_user_id: Uuid,
    ) -> (statement: Statement)
        ensures
            statement@ == StatementView::affected(
                tenant::application_text(
                    Self::CANCEL_SUPPRESSION@ + update::all_text(
                        Self::cancellation(),
                        Form::Tight,
                    ) + " "@,
                    Before::Where,
                    ""@,
                    Layout::Tight,
                    After::And,
                    Self::CANCEL_SUPPRESSION_TAIL@,
                ),
                seq![
                    organization_id.bound(),
                    project_id.bound(),
                    application_id.bound(),
                    suppression_id.bound(),
                    cancelled_by_user_id.bound(),
                ],
            ),
            tenant::filters_by_application(statement@, organization_id, project_id, application_id),
    {
        let changes = Changes::new(Form::Tight)
            .now_once("cancelled_at", Spelling::Upper)
            .given_once("cancelled_by_user_id", 5);
        assert(changes@ =~= Self::cancellation());
        let head = text::join(Self::CANCEL_SUPPRESSION, changes.into_text().as_str()).concat(" ");
        let text = tenant::application(
            head.as_str(),
            Before::Where,
            "",
            Layout::Tight,
            After::And,
            Self::CANCEL_SUPPRESSION_TAIL,
        );
        Statement::affected(text.as_str())
            .bind(organization_id)
            .bind(project_id)
            .bind(application_id)
            .bind(suppression_id)
            .bind(cancelled_by_user_id)
    }
}

/// One evaluation per placement remains, and it is this one. Whether the
/// placement was evaluated before or not, the row of its key holds the new
/// values, every other row is as it was, and storing them again changes nothing.
pub proof fn one_evaluation_remains(
    table: Table,
    organization_id: Uuid,
    project_id: Uuid,
    application_id: Uuid,
    placement: Placement<'_>,
    evaluation: Evaluation<'_>,
    less: spec_fn(Bound, Bound) -> bool,
)
    ensures
        ({
            let written = PolicyRepository::sighting_evaluation(
                organization_id,
                project_id,
                application_id,
                placement,
                evaluation,
            );
            let after = written.applied(table, less);
            &&& written.key == placement.values()
            &&& after.contains_key(placement.values())
            &&& after[placement.values()].subrange(10, 16) == evaluation.values()
            &&& after.remove(placement.values()) == table.remove(placement.values())
            &&& written.applied(after, less) == after
        }),
{
    let written = PolicyRepository::sighting_evaluation(
        organization_id,
        project_id,
        application_id,
        placement,
        evaluation,
    );
    let after = written.applied(table, less);
    assert(written.key =~= placement.values());
    assert(after[written.key].subrange(10, 16) =~= evaluation.values());
    assert(after.remove(written.key) =~= table.remove(written.key));
    upsert::replacing_again_changes_nothing(written, table, less);
}

/// One evaluation per group remains, and it is this one: whether the group was
/// evaluated before or not, its row holds the new values, every other row is as
/// it was, and storing them again changes nothing.
pub proof fn one_group_evaluation_remains(
    table: Table,
    organization_id: Uuid,
    project_id: Uuid,
    application_id: Uuid,
    group_id: Uuid,
    evaluation: Evaluation<'_>,
    less: spec_fn(Bound, Bound) -> bool,
)
    ensures
        ({
            let key: Seq<Bound> = seq![group_id.bound()];
            let written = PolicyRepository::group_evaluation(
                organization_id,
                project_id,
                application_id,
                group_id,
                evaluation,
            );
            let after = written.applied(table, less);
            &&& after.contains_key(key)
            &&& after[key].subrange(4, 10) == evaluation.values()
            &&& after.remove(key) == table.remove(key)
            &&& written.applied(after, less) == after
        }),
{
    let key: Seq<Bound> = seq![group_id.bound()];
    let written = PolicyRepository::group_evaluation(
        organization_id,
        project_id,
        application_id,
        group_id,
        evaluation,
    );
    let after = written.applied(table, less);
    assert(written.key =~= key);
    assert(after[key].subrange(4, 10) =~= evaluation.values());
    assert(after.remove(key) =~= table.remove(key));
    upsert::replacing_again_changes_nothing(written, table, less);
}

/// No column of a new suppression says when it was cancelled.
proof fn lemma_suppression_starts_uncancelled(row: RowView)
    requires
        row.cells.len() == 18,
        row.cells[0].column == "id"@,
        row.cells[1].column == "organization_id"@,
        row.cells[2].column == "project_id"@,
        row.cells[3].column == "application_id"@,
        row.cells[4].column == "inventory_kind"@,
        row.cells[5].column == "identity_version"@,
        row.cells[6].column == "identity_digest"@,
        row.cells[7].column == "behavior_matcher"@,
        row.cells[8].column == "cluster_ids"@,
        row.cells[9].column == "namespaces"@,
        row.cells[10].column == "workload_kinds"@,
        row.cells[11].column == "workload_names"@,
        row.cells[12].column == "reason"@,
        row.cells[13].column == "expires_at"@,
        row.cells[14].column == "source_inventory_item_id"@,
        row.cells[15].column == "source_runtime_group_id"@,
        row.cells[16].column == "created_by_user_id"@,
        row.cells[17].column == "created_at"@,
    ensures
        forall|i: int|
            0 <= i < row.cells.len() ==> (#[trigger] row.cells[i]).column != "cancelled_at"@,
{
    reveal_strlit("cancelled_at");
    reveal_strlit("id");
    reveal_strlit("organization_id");
    reveal_strlit("project_id");
    reveal_strlit("application_id");
    reveal_strlit("inventory_kind");
    reveal_strlit("identity_version");
    reveal_strlit("identity_digest");
    reveal_strlit("behavior_matcher");
    reveal_strlit("cluster_ids");
    reveal_strlit("namespaces");
    reveal_strlit("workload_kinds");
    reveal_strlit("workload_names");
    reveal_strlit("reason");
    reveal_strlit("expires_at");
    reveal_strlit("source_inventory_item_id");
    reveal_strlit("source_runtime_group_id");
    reveal_strlit("created_by_user_id");
    reveal_strlit("created_at");
    let length: nat = "cancelled_at"@.len();
    assert(row.cells[0].column.len() != length);
    assert(row.cells[1].column.len() != length);
    assert(row.cells[2].column.len() != length);
    assert(row.cells[3].column.len() != length);
    assert(row.cells[4].column.len() != length);
    assert(row.cells[5].column.len() != length);
    assert(row.cells[6].column.len() != length);
    assert(row.cells[7].column.len() != length);
    assert(row.cells[8].column.len() != length);
    assert(row.cells[9].column.len() != length);
    assert(row.cells[10].column.len() != length);
    assert(row.cells[11].column.len() != length);
    assert(row.cells[12].column.len() != length);
    assert(row.cells[13].column.len() != length);
    assert(row.cells[14].column.len() != length);
    assert(row.cells[15].column.len() != length);
    assert(row.cells[16].column.len() != length);
    assert(row.cells[17].column.len() != length);
    assert forall|i: int| 0 <= i < row.cells.len() implies (#[trigger] row.cells[i]).column
        != "cancelled_at"@ by {
        assert(row.cells[i].column.len() != length);
    }
}

/// A suppression is listed as active exactly until it expires. Once its row is
/// written, its application's first page of active suppressions selects it while
/// it has time left, the page of those that are not selects it from then on, and
/// the page of both always does. Once it is cancelled, only the page of those
/// that are not active selects it. The page of another application never does.
pub proof fn suppression_is_active_until_it_expires(
        id: Uuid,
        organization_id: Uuid,
        project_id: Uuid,
        application_id: Uuid,
        inventory_kind: &str,
        identity_version: i16,
        identity_digest: &[u8],
        behavior_matcher: Value,
        cluster_ids: Vec<Uuid>,
        namespaces: Vec<String>,
        workload_kinds: Vec<String>,
        workload_names: Vec<String>,
        reason: &str,
        expires_at: Timestamp,
        source_inventory_item_id: Uuid,
        source_runtime_group_id: Option<Uuid>,
        created_by_user_id: Uuid,
        created_at: Timestamp,
    record: Record,
    database: Database,
    cancelled_at: Timestamp,
    other_application_id: Uuid,
    active: Option<bool>,
    fetch_limit: i64,
)
    requires
        condition::is_written(
            PolicyRepository::suppression(
                id,
                organization_id,
                project_id,
                application_id,
                inventory_kind,
                identity_version,
                identity_digest,
                behavior_matcher,
                cluster_ids,
                namespaces,
                workload_kinds,
                workload_names,
                reason,
                expires_at,
                source_inventory_item_id,
                source_runtime_group_id,
                created_by_user_id,
                created_at,
            ),
            record,
        ),
        other_application_id != application_id,
    ensures
        ({
            let conditions = PolicyRepository::suppression_conditions();
            let page = |application: Uuid, wanted: Option<bool>|
                PolicyRepository::suppression_values(
                    organization_id,
                    project_id,
                    application,
                    None,
                    wanted,
                    fetch_limit,
                );
            let pending = (database.less)(database.now, expires_at.bound());
            let cancelled = record.insert("cancelled_at"@, cancelled_at.bound());
            let active_page = page(application_id, Some(true));
            let other_page = page(application_id, Some(false));
            let whole_page = page(application_id, None);
            &&& condition::selects(conditions, record, active_page, database) == pending
            &&& condition::selects(conditions, record, other_page, database) == !pending
            &&& condition::selects(conditions, record, whole_page, database)
            &&& !condition::selects(conditions, cancelled, active_page, database)
            &&& condition::selects(conditions, cancelled, other_page, database)
            &&& !condition::selects(
                conditions,
                record,
                page(other_application_id, active),
                database,
            )
        }),
{
    reveal_strlit("");
    let row = PolicyRepository::suppression(
        id,
        organization_id,
        project_id,
        application_id,
        inventory_kind,
        identity_version,
        identity_digest,
        behavior_matcher,
        cluster_ids,
        namespaces,
        workload_kinds,
        workload_names,
        reason,
        expires_at,
        source_inventory_item_id,
        source_runtime_group_id,
        created_by_user_id,
        created_at,
    );
    assert(row.cells.len() == 18);
    assert(row.cells[0].column == "id"@);
    assert(row.cells[1].column == "organization_id"@);
    assert(row.cells[2].column == "project_id"@);
    assert(row.cells[3].column == "application_id"@);
    assert(row.cells[4].column == "inventory_kind"@);
    assert(row.cells[5].column == "identity_version"@);
    assert(row.cells[6].column == "identity_digest"@);
    assert(row.cells[7].column == "behavior_matcher"@);
    assert(row.cells[8].column == "cluster_ids"@);
    assert(row.cells[9].column == "namespaces"@);
    assert(row.cells[10].column == "workload_kinds"@);
    assert(row.cells[11].column == "workload_names"@);
    assert(row.cells[12].column == "reason"@);
    assert(row.cells[13].column == "expires_at"@);
    assert(row.cells[14].column == "source_inventory_item_id"@);
    assert(row.cells[15].column == "source_runtime_group_id"@);
    assert(row.cells[16].column == "created_by_user_id"@);
    assert(row.cells[17].column == "created_at"@);
    lemma_suppression_starts_uncancelled(row);
    assert(!record.contains_key("cancelled_at"@));
    assert(""@ + "organization_id"@ =~= "organization_id"@);
    assert(""@ + "project_id"@ =~= "project_id"@);
    assert(""@ + "application_id"@ =~= "application_id"@);
    let conditions = PolicyRepository::suppression_conditions();
    assert(conditions.len() == 5);
    assert(conditions[0] == Condition::Compared("organization_id"@, Test::Equal, 1));
    assert(conditions[1] == Condition::Compared("project_id"@, Test::Equal, 2));
    assert(conditions[2] == Condition::Compared("application_id"@, Test::Equal, 3));
    assert(conditions[3] == PolicyRepository::suppression_filters()[0]);
    assert(conditions[4] == PolicyRepository::suppression_filters()[1]);
}

/// The state version starts at 1 and each change makes it one greater. The
/// version of every other application is as it was.
pub proof fn state_version_counts_up(
    table: Table,
    organization_id: Uuid,
    project_id: Uuid,
    application_id: Uuid,
    version: i64,
    less: spec_fn(Bound, Bound) -> bool,
)
    requires
        ({
            let key: Seq<Bound> = seq![
                organization_id.bound(),
                project_id.bound(),
                application_id.bound(),
            ];
            if table.contains_key(key) {
                table[key] == key.push(version.bound())
            } else {
                version == 0
            }
        }),
        version < i64::MAX,
    ensures
        ({
            let key: Seq<Bound> = seq![
                organization_id.bound(),
                project_id.bound(),
                application_id.bound(),
            ];
            PolicyRepository::next_state_version(
                organization_id,
                project_id,
                application_id,
            ).applied(table, less) == table.insert(
                key,
                key.push(Bound::BigInt(Some((version + 1) as i64))),
            )
        }),
{
    let next = PolicyRepository::next_state_version(organization_id, project_id, application_id);
    let key: Seq<Bound> = seq![organization_id.bound(), project_id.bound(), application_id.bound()];
    let row = key.push(Bound::BigInt(Some((version + 1) as i64)));
    assert(next.key =~= key);
    if table.contains_key(key) {
        assert(next.over(table[key], less) =~= row);
    } else {
        assert(next.values =~= row);
    }
}

/// The first cancellation of a suppression stays: one that is cancelled already,
/// by someone, is left as it is, and another is cancelled now, by the user.
pub proof fn first_cancellation_stays(
    suppression: Record,
    organization_id: Uuid,
    project_id: Uuid,
    application_id: Uuid,
    suppression_id: Uuid,
    cancelled_by_user_id: Uuid,
    database: Database,
)
    requires
        condition::lacks(suppression, "cancelled_at"@) <==> condition::lacks(
            suppression,
            "cancelled_by_user_id"@,
        ),
    ensures
        ({
            let after = update::changed(
                PolicyRepository::cancellation(),
                suppression,
                seq![
                    organization_id.bound(),
                    project_id.bound(),
                    application_id.bound(),
                    suppression_id.bound(),
                    cancelled_by_user_id.bound(),
                ],
                database,
            );
            if condition::lacks(suppression, "cancelled_at"@) {
                after == suppression.insert("cancelled_at"@, database.now).insert(
                    "cancelled_by_user_id"@,
                    cancelled_by_user_id.bound(),
                )
            } else {
                after == suppression
            }
        }),
{
    let changes = PolicyRepository::cancellation();
    let values: Seq<Bound> = seq![
        organization_id.bound(),
        project_id.bound(),
        application_id.bound(),
        suppression_id.bound(),
        cancelled_by_user_id.bound(),
    ];
    assert(changes.drop_last() =~= seq![changes[0]]);
    assert(changes.drop_last().drop_last() =~= Seq::<Change>::empty());
    reveal_with_fuel(update::changed, 3);
    let after = update::changed(changes, suppression, values, database);
    if !condition::lacks(suppression, "cancelled_at"@) {
        assert(after =~= suppression);
    }
}

/// A recomputation is completed or released only by the owner that has leased
/// it, who no longer has it then.
pub proof fn recomputation_is_its_owners(
    recomputation: Record,
    recomputation_id: Uuid,
    owner: Uuid,
    other: Uuid,
    database: Database,
)
    ensures
        ({
            let conditions = PolicyRepository::leased();
            let values: Seq<Bound> = seq![recomputation_id.bound(), owner.bound()];
            let others: Seq<Bound> = seq![recomputation_id.bound(), other.bound()];
            let completed = update::changed(
                PolicyRepository::completion(),
                recomputation,
                values,
                database,
            );
            let released = update::changed(
                PolicyRepository::release(),
                recomputation,
                values,
                database,
            );
            &&& condition::selects(conditions, recomputation, values, database) <==> {
                &&& condition::has(recomputation, "id"@, recomputation_id.bound())
                &&& condition::has(recomputation, "lease_owner"@, owner.bound())
            }
            &&& !condition::selects(conditions, completed, others, database)
            &&& !condition::selects(conditions, released, others, database)
        }),
{
    reveal_strlit("state");
    reveal_strlit("completed_at");
    reveal_strlit("lease_owner");
    reveal_strlit("lease_expires_at");
    reveal_strlit("updated_at");
    let conditions = PolicyRepository::leased();
    let values: Seq<Bound> = seq![recomputation_id.bound(), owner.bound()];
    let others: Seq<Bound> = seq![recomputation_id.bound(), other.bound()];
    let completion = PolicyRepository::completion();
    let release = PolicyRepository::release();
    assert(completion[2].column().len() == 11);
    assert(completion[3].column().len() == 16 && completion[4].column().len() == 10);
    assert(release[1].column().len() == 11);
    assert(release[2].column().len() == 16 && release[3].column().len() == 10);
    update::changed_column(completion, recomputation, values, database, 2);
    update::changed_column(release, recomputation, values, database, 1);
    let completed = update::changed(completion, recomputation, values, database);
    let released = update::changed(release, recomputation, values, database);
    assert(!conditions[1].holds(completed, others, database));
    assert(!conditions[1].holds(released, others, database));
    assert(condition::selects(conditions, recomputation, values, database) <==> {
        &&& conditions[0].holds(recomputation, values, database)
        &&& conditions[1].holds(recomputation, values, database)
    });
}

/// A recomputation that its owner releases can be claimed again: it is pending,
/// and nobody has leased it. Nothing else of it changes but when it did.
pub proof fn released_recomputation_can_be_claimed(
    recomputation: Record,
    recomputation_id: Uuid,
    owner: Uuid,
    database: Database,
)
    ensures
        update::changed(
            PolicyRepository::release(),
            recomputation,
            seq![recomputation_id.bound(), owner.bound()],
            database,
        ) == recomputation.insert("state"@, Bound::Text(Some("pending"@)))
            .remove("lease_owner"@)
            .remove("lease_expires_at"@)
            .insert("updated_at"@, database.now),
{
    broadcast use update::first_changes;

    let changes = PolicyRepository::release();
    assert(changes =~= changes.take(changes.len() as int));
}

/// A recomputation that its owner completes is completed now, and nobody has
/// leased it. Nothing else of it changes but when it did.
pub proof fn completed_recomputation_is_done(
    recomputation: Record,
    recomputation_id: Uuid,
    owner: Uuid,
    database: Database,
)
    ensures
        update::changed(
            PolicyRepository::completion(),
            recomputation,
            seq![recomputation_id.bound(), owner.bound()],
            database,
        ) == recomputation.insert("state"@, Bound::Text(Some("completed"@)))
            .insert("completed_at"@, database.now)
            .remove("lease_owner"@)
            .remove("lease_expires_at"@)
            .insert("updated_at"@, database.now),
{
    broadcast use update::first_changes;

    let changes = PolicyRepository::completion();
    assert(changes =~= changes.take(changes.len() as int));
}

/// A leased recomputation is changed by its id and its owner, and by nothing
/// else.
pub proof fn leased_recomputation_is_changed_by_its_owner(changes: Seq<Change>)
    ensures
        PolicyRepository::changing_leased(changes)
            == "UPDATE runtime_policy_recomputations SET "@ + update::all_text(
            changes,
            Form::Tight,
        ) + " WHERE "@ + condition::all_text(
            seq![
                Condition::Compared("id"@, Test::Equal, 1),
                Condition::Compared("lease_owner"@, Test::Equal, 2),
            ],
        ),
{
    assert(PolicyRepository::leased() =~= seq![
        Condition::Compared("id"@, Test::Equal, 1),
        Condition::Compared("lease_owner"@, Test::Equal, 2),
    ]);
}

/// The policy of the id has the name, and nothing else of it changes.
pub proof fn renamed_policy_has_the_name(
    policy: Record,
    name: &str,
    policy_id: Uuid,
    database: Database,
)
    ensures
        ({
            let values: Seq<Bound> = seq![
                name.bound(),
                policy_id.bound(),
            ];
            &&& condition::selects(
                PolicyRepository::policy_by_id(),
                policy,
                values,
                database,
            ) <==> {
                &&& condition::has(policy, "id"@, policy_id.bound())
            }
            &&& update::changed(PolicyRepository::renaming(), policy, values, database) == policy
                .insert("name"@, name.bound())
        }),
{
    broadcast use update::first_changes;

    let values: Seq<Bound> = seq![
        name.bound(),
        policy_id.bound(),
    ];
    let changes = PolicyRepository::renaming();
    assert(changes =~= changes.take(changes.len() as int));
    let conditions = PolicyRepository::policy_by_id();
    assert(condition::selects(conditions, policy, values, database) <==> {
        &&& conditions[0].holds(policy, values, database)
    });
}

/// The application's policy of the id has the revision as its current one, and
/// nothing else of it changes but when it did.
pub proof fn revised_policy_has_the_revision(
    policy: Record,
    organization_id: Uuid,
    project_id: Uuid,
    application_id: Uuid,
    revision_id: Uuid,
    policy_id: Uuid,
    database: Database,
)
    ensures
        ({
            let values: Seq<Bound> = seq![
                organization_id.bound(),
                project_id.bound(),
                application_id.bound(),
                revision_id.bound(),
                policy_id.bound(),
            ];
            &&& condition::selects(
                PolicyRepository::revised_policy(),
                policy,
                values,
                database,
            ) <==> {
                &&& condition::has(policy, "id"@, policy_id.bound())
            }
            &&& update::changed(PolicyRepository::revising(), policy, values, database) == policy
                .insert("current_revision_id"@, revision_id.bound())
                .insert("updated_at"@, database.now)
        }),
{
    broadcast use update::first_changes;

    let values: Seq<Bound> = seq![
        organization_id.bound(),
        project_id.bound(),
        application_id.bound(),
        revision_id.bound(),
        policy_id.bound(),
    ];
    let changes = PolicyRepository::revising();
    assert(changes =~= changes.take(changes.len() as int));
    let conditions = PolicyRepository::revised_policy();
    assert(condition::selects(conditions, policy, values, database) <==> {
        &&& conditions[0].holds(policy, values, database)
    });
}

/// A recomputation can be claimed exactly where it is pending, or it is running
/// under a lease that has run out.
pub proof fn recomputation_is_claimed_when_it_waits(
    recomputation: Record,
    owner: Uuid,
    database: Database,
)
    ensures
        condition::selects(
            PolicyRepository::claimable(),
            recomputation,
            seq![owner.bound()],
            database,
        ) <==> {
            ||| condition::has(recomputation, "state"@, Bound::Text(Some("pending"@)))
            ||| {
                &&& condition::has(recomputation, "state"@, Bound::Text(Some("running"@)))
                &&& !condition::lacks(recomputation, "lease_expires_at"@)
                &&& (database.less)(recomputation["lease_expires_at"@], database.now)
            }
        },
{
    let conditions = PolicyRepository::claimable();
    let values: Seq<Bound> = seq![owner.bound()];
    assert(condition::selects(conditions, recomputation, values, database)
        <==> conditions[0].holds(recomputation, values, database));
}

/// A claimed recomputation is running, leased to the owner for half a minute,
/// with one attempt more, and started now where it never was. Nothing else of it
/// changes but when it did.
pub proof fn claimed_recomputation_is_leased(
    recomputation: Record,
    owner: Uuid,
    database: Database,
)
    requires
        !condition::lacks(recomputation, "attempt_count"@),
    ensures
        ({
            let started = if condition::lacks(recomputation, "started_at"@) {
                database.now
            } else {
                recomputation["started_at"@]
            };
            update::changed(
                PolicyRepository::claiming(),
                recomputation,
                seq![owner.bound()],
                database,
            ) == recomputation.insert("state"@, Bound::Text(Some("running"@)))
                .insert("lease_owner"@, owner.bound())
                .insert("lease_expires_at"@, (database.later)(Bound::BigInt(Some(30))))
                .insert("attempt_count"@, update::one_more(recomputation["attempt_count"@]))
                .insert("started_at"@, started)
                .insert("updated_at"@, database.now)
        }),
{
    broadcast use update::first_changes;

    let changes = PolicyRepository::claiming();
    assert(changes =~= changes.take(changes.len() as int));
}

/// A recomputation that its owner releases is one that any worker can claim,
/// and one that its owner completes is not.
pub proof fn released_recomputation_is_claimed_again(
    recomputation: Record,
    recomputation_id: Uuid,
    owner: Uuid,
    next: Uuid,
    database: Database,
)
    ensures
        ({
            let values: Seq<Bound> = seq![recomputation_id.bound(), owner.bound()];
            &&& condition::selects(
                PolicyRepository::claimable(),
                update::changed(PolicyRepository::release(), recomputation, values, database),
                seq![next.bound()],
                database,
            )
            &&& !condition::selects(
                PolicyRepository::claimable(),
                update::changed(PolicyRepository::completion(), recomputation, values, database),
                seq![next.bound()],
                database,
            )
        }),
{
    reveal_strlit("state");
    reveal_strlit("updated_at");
    reveal_strlit("completed_at");
    reveal_strlit("lease_owner");
    reveal_strlit("lease_expires_at");
    reveal_strlit("pending");
    reveal_strlit("running");
    reveal_strlit("completed");
    released_recomputation_can_be_claimed(recomputation, recomputation_id, owner, database);
    completed_recomputation_is_done(recomputation, recomputation_id, owner, database);
    let values: Seq<Bound> = seq![recomputation_id.bound(), owner.bound()];
    let released = update::changed(PolicyRepository::release(), recomputation, values, database);
    let done = update::changed(PolicyRepository::completion(), recomputation, values, database);
    recomputation_is_claimed_when_it_waits(released, next, database);
    recomputation_is_claimed_when_it_waits(done, next, database);
    assert("state"@.len() == 5 && "updated_at"@.len() == 10 && "completed_at"@.len() == 12);
    assert("lease_owner"@.len() == 11 && "lease_expires_at"@.len() == 16);
    assert(released["state"@] == Bound::Text(Some("pending"@)));
    assert(done["state"@] == Bound::Text(Some("completed"@)));
    assert("completed"@.len() == 9 && "pending"@.len() == 7 && "running"@.len() == 7);
}

/// A suppression is on the page exactly where it is one of the application,
/// comes after the cursor where one is given, and is active or not as asked
/// where that is asked: it is active where nobody cancelled it and it has not
/// expired.
pub proof fn page_holds_the_suppressions_asked_for(
    suppression: Record,
    organization_id: Uuid,
    project_id: Uuid,
    application_id: Uuid,
    cursor: Option<Uuid>,
    active: Option<bool>,
    fetch_limit: i64,
    database: Database,
)
    requires
        !condition::lacks(suppression, "expires_at"@),
    ensures
        ({
            let is_active = condition::lacks(suppression, "cancelled_at"@) && (database.less)(
                database.now,
                suppression["expires_at"@],
            );
            condition::selects(
                PolicyRepository::suppression_conditions(),
                suppression,
                PolicyRepository::suppression_values(
                    organization_id,
                    project_id,
                    application_id,
                    cursor,
                    active,
                    fetch_limit,
                ),
                database,
            ) <==> {
                &&& condition::has(suppression, "organization_id"@, organization_id.bound())
                &&& condition::has(suppression, "project_id"@, project_id.bound())
                &&& condition::has(suppression, "application_id"@, application_id.bound())
                &&& cursor is Some ==> {
                    &&& !condition::lacks(suppression, "id"@)
                    &&& (database.less)(suppression["id"@], cursor.bound())
                }
                &&& active is Some ==> active == Some(is_active)
            }
        }),
{
    reveal_strlit("");
    assert(""@ + "organization_id"@ =~= "organization_id"@);
    assert(""@ + "project_id"@ =~= "project_id"@);
    assert(""@ + "application_id"@ =~= "application_id"@);
    let conditions = PolicyRepository::suppression_conditions();
    let values = PolicyRepository::suppression_values(
        organization_id,
        project_id,
        application_id,
        cursor,
        active,
        fetch_limit,
    );
    assert(condition::selects(conditions, suppression, values, database) <==> {
        &&& conditions[0].holds(suppression, values, database)
        &&& conditions[1].holds(suppression, values, database)
        &&& conditions[2].holds(suppression, values, database)
        &&& conditions[3].holds(suppression, values, database)
        &&& conditions[4].holds(suppression, values, database)
    });
}

/// A policy is on the page exactly where it comes behind the cursor, or no
/// cursor is given.
pub proof fn page_holds_the_policies_behind_the_cursor(
    policy: Record,
    organization_id: Uuid,
    project_id: Uuid,
    application_id: Uuid,
    cursor: Option<Uuid>,
    fetch_limit: i64,
    database: Database,
)
    ensures
        ({
            let values: Seq<Bound> = seq![
                organization_id.bound(),
                project_id.bound(),
                application_id.bound(),
                cursor.bound(),
                fetch_limit.bound(),
            ];
            condition::selects(
                PolicyRepository::page_of_policies(),
                policy,
                values,
                database,
            ) <==> {
                &&& cursor is Some ==> {
                    &&& !condition::lacks(policy, "p.id"@)
                    &&& (database.less)(cursor.bound(), policy["p.id"@])
                }
            }
        }),
{
    let values: Seq<Bound> = seq![
        organization_id.bound(),
        project_id.bound(),
        application_id.bound(),
        cursor.bound(),
        fetch_limit.bound(),
    ];
    let conditions = PolicyRepository::page_of_policies();
    assert(condition::selects(conditions, policy, values, database) <==> {
        &&& conditions[0].holds(policy, values, database)
    });
}

/// A revision is on the page exactly where it is one of the policy and comes
/// behind the cursor, or no cursor is given.
pub proof fn page_holds_the_revisions_behind_the_cursor(
    revision: Record,
    organization_id: Uuid,
    project_id: Uuid,
    application_id: Uuid,
    policy_id: Uuid,
    cursor: Option<Uuid>,
    fetch_limit: i64,
    database: Database,
)
    ensures
        ({
            let values: Seq<Bound> = seq![
                organization_id.bound(),
                project_id.bound(),
                application_id.bound(),
                policy_id.bound(),
                cursor.bound(),
                fetch_limit.bound(),
            ];
            condition::selects(
                PolicyRepository::page_of_revisions(),
                revision,
                values,
                database,
            ) <==> {
                &&& condition::has(revision, "r.policy_id"@, policy_id.bound())
                &&& cursor is Some ==> {
                    &&& !condition::lacks(revision, "r.id"@)
                    &&& (database.less)(revision["r.id"@], cursor.bound())
                }
            }
        }),
{
    let values: Seq<Bound> = seq![
        organization_id.bound(),
        project_id.bound(),
        application_id.bound(),
        policy_id.bound(),
        cursor.bound(),
        fetch_limit.bound(),
    ];
    let conditions = PolicyRepository::page_of_revisions();
    assert(condition::selects(conditions, revision, values, database) <==> {
        &&& conditions[0].holds(revision, values, database)
        &&& conditions[1].holds(revision, values, database)
    });
}

/// A revision is given exactly where it is enabled and of the identity's
/// version and digest.
pub proof fn enabled_revisions_are_of_the_identity(
    revision: Record,
    organization_id: Uuid,
    project_id: Uuid,
    application_id: Uuid,
    identity_version: i16,
    identity_digest: &[u8],
    database: Database,
)
    ensures
        ({
            let values: Seq<Bound> = seq![
                organization_id.bound(),
                project_id.bound(),
                application_id.bound(),
                identity_version.bound(),
                identity_digest.bound(),
            ];
            condition::selects(
                PolicyRepository::enabled_for_identity(),
                revision,
                values,
                database,
            ) <==> {
                &&& condition::has(revision, "r.enabled"@, Bound::Boolean(Some(true)))
                &&& condition::has(revision, "r.identity_version"@, identity_version.bound())
                &&& condition::has(revision, "r.identity_digest"@, identity_digest.bound())
            }
        }),
{
    let values: Seq<Bound> = seq![
        organization_id.bound(),
        project_id.bound(),
        application_id.bound(),
        identity_version.bound(),
        identity_digest.bound(),
    ];
    let conditions = PolicyRepository::enabled_for_identity();
    assert(condition::selects(conditions, revision, values, database) <==> {
        &&& conditions[0].holds(revision, values, database)
        &&& conditions[1].holds(revision, values, database)
        &&& conditions[2].holds(revision, values, database)
    });
}

/// A group is given exactly where its item is of the identity, and its
/// evaluation is not current.
pub proof fn groups_to_evaluate_are_stale(
    group: Record,
    organization_id: Uuid,
    project_id: Uuid,
    application_id: Uuid,
    identity_version: i16,
    identity_digest: &[u8],
    evaluator_version: i16,
    limit: i64,
    database: Database,
)
    ensures
        ({
            let values: Seq<Bound> = seq![
                organization_id.bound(),
                project_id.bound(),
                application_id.bound(),
                identity_version.bound(),
                identity_digest.bound(),
                evaluator_version.bound(),
                limit.bound(),
            ];
            condition::selects(
                PolicyRepository::stale_groups(),
                group,
                values,
                database,
            ) <==> {
                &&& condition::has(group, "i.identity_version"@, identity_version.bound())
                &&& condition::has(group, "i.identity_digest"@, identity_digest.bound())
                &&& (database.answers)(PolicyRepository::GROUP_IS_STALE@, group, values)
            }
        }),
{
    let values: Seq<Bound> = seq![
        organization_id.bound(),
        project_id.bound(),
        application_id.bound(),
        identity_version.bound(),
        identity_digest.bound(),
        evaluator_version.bound(),
        limit.bound(),
    ];
    let conditions = PolicyRepository::stale_groups();
    assert(condition::selects(conditions, group, values, database) <==> {
        &&& conditions[0].holds(group, values, database)
        &&& conditions[1].holds(group, values, database)
        &&& conditions[2].holds(group, values, database)
    });
}

/// A sighting is given exactly where its item is of the identity, and its
/// evaluation is not current.
pub proof fn sightings_to_evaluate_are_stale(
    sighting: Record,
    organization_id: Uuid,
    project_id: Uuid,
    application_id: Uuid,
    identity_version: i16,
    identity_digest: &[u8],
    evaluator_version: i16,
    limit: i64,
    database: Database,
)
    ensures
        ({
            let values: Seq<Bound> = seq![
                organization_id.bound(),
                project_id.bound(),
                application_id.bound(),
                identity_version.bound(),
                identity_digest.bound(),
                evaluator_version.bound(),
                limit.bound(),
            ];
            condition::selects(
                PolicyRepository::stale_sightings(),
                sighting,
                values,
                database,
            ) <==> {
                &&& condition::has(sighting, "i.identity_version"@, identity_version.bound())
                &&& condition::has(sighting, "i.identity_digest"@, identity_digest.bound())
                &&& (database.answers)(PolicyRepository::SIGHTING_IS_STALE@, sighting, values)
            }
        }),
{
    let values: Seq<Bound> = seq![
        organization_id.bound(),
        project_id.bound(),
        application_id.bound(),
        identity_version.bound(),
        identity_digest.bound(),
        evaluator_version.bound(),
        limit.bound(),
    ];
    let conditions = PolicyRepository::stale_sightings();
    assert(condition::selects(conditions, sighting, values, database) <==> {
        &&& conditions[0].holds(sighting, values, database)
        &&& conditions[1].holds(sighting, values, database)
        &&& conditions[2].holds(sighting, values, database)
    });
}

} // verus!
