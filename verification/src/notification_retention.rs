//! Notification retention: the organization and project settings for how
//! long delivery history is kept, and the statements of the job that deletes
//! expired history.

use uuid::Uuid;
use vstd::prelude::*;

#[allow(unused_imports)]
use crate::statement::Bind;
use crate::condition::{Condition, Conditions, Database, Record, Test};
use crate::condition;
use crate::statement::{Bound, Statement, StatementView};
use crate::tenant::{After, Before, Layout};
use crate::tenant;
use crate::text;
use crate::update::{Change, Changes, Form};
use crate::update;

verus! {

broadcast use {tenant::known_aliases_name_tables, condition::known_words_are_plain};

/// Notification retention settings and expiry.
#[derive(Clone, Copy, Debug)]
pub struct NotificationRetentionRepository;

impl NotificationRetentionRepository {
    pub const INITIALIZE_ORGANIZATIONS: &'static str = "UPDATE organizations SET ";

    /// What initializing an organization's retention changes.
    pub open spec fn initialization() -> Seq<Change> {
        seq![
            Change::Given("notification_retention_enabled"@, 1),
            Change::Given("notification_retention_days"@, 2),
            Change::True("notification_retention_initialized"@),
            Change::Now("notification_retention_updated_at"@),
        ]
    }

    /// The conditions that an organization's retention is initialized by.
    pub open spec fn uninitialized() -> Seq<Condition> {
        seq![Condition::False("notification_retention_initialized"@)]
    }

    /// Gives every organization whose retention was never initialized this
    /// policy, leaving initialized ones untouched.
    pub fn initialize_organizations(enabled: bool, history_days: i32) -> (statement: Statement)
        ensures
            statement@ == StatementView::affected(
                Self::INITIALIZE_ORGANIZATIONS@ + update::all_text(
                    Self::initialization(),
                    Form::Tight,
                ) + " WHERE "@ + condition::all_text(Self::uninitialized()),
                seq![enabled.bound(), history_days.bound()],
            ),
    {
        let changes = Changes::new(Form::Tight)
            .given("notification_retention_enabled", 1)
            .given("notification_retention_days", 2)
            .is_true("notification_retention_initialized")
            .now("notification_retention_updated_at");
        let conditions = Conditions::new().is_false("notification_retention_initialized");
        assert(changes@ =~= Self::initialization());
        assert(conditions@ =~= Self::uninitialized());
        let text = text::join(Self::INITIALIZE_ORGANIZATIONS, changes.into_text().as_str())
            .concat(" WHERE ")
            .concat(conditions.into_text().as_str());
        Statement::affected(text.as_str()).bind(enabled).bind(history_days)
    }

    pub const ORGANIZATION_POLICY: &'static str =
        "SELECT notification_retention_enabled enabled,notification_retention_days history_days FROM organizations WHERE ";

    /// The conditions on the organization whose policy is read.
    pub open spec fn initialized_organization() -> Seq<Condition> {
        seq![
            Condition::Compared("id"@, Test::Equal, 1),
            Condition::Holding("notification_retention_initialized"@),
        ]
    }

    /// The organization's retention policy, once initialized.
    ///
    /// Selects `enabled` and `history_days`.
    pub fn organization_policy(organization_id: Uuid) -> (statement: Statement)
        ensures
            statement@ == StatementView::optional(
                Self::ORGANIZATION_POLICY@ + condition::all_text(Self::initialized_organization()),
                seq![organization_id.bound()],
            ),
    {
        let conditions = Conditions::new()
            .compared("id", Test::Equal, 1)
            .holding("notification_retention_initialized");
        assert(conditions@ =~= Self::initialized_organization());
        let text = text::join(Self::ORGANIZATION_POLICY, conditions.into_text().as_str());
        Statement::optional(text.as_str()).bind(organization_id)
    }

    pub const PROJECT_POLICY: &'static str =
        "SELECT p.notification_retention_enabled override_enabled,p.notification_retention_days override_days,e.enabled,e.history_days,o.notification_retention_enabled inherited_enabled,o.notification_retention_days inherited_days FROM projects p JOIN organizations o ON o.id=p.organization_id JOIN effective_notification_retention e ON e.project_id=p.id ";

    pub const PROJECT_POLICY_TAIL: &'static str = "p.id=$2";

    /// The project's retention override, its effective policy and the
    /// organization's policy it inherits otherwise.
    ///
    /// Selects `override_enabled`, `override_days`, `enabled`,
    /// `history_days`, `inherited_enabled` and `inherited_days`.
    pub fn project_policy(organization_id: Uuid, project_id: Uuid) -> (statement: Statement)
        ensures
            statement@ == StatementView::optional(
                tenant::organization_text(
                    Self::PROJECT_POLICY@,
                    Before::Where,
                    "p."@,
                    Layout::Tight,
                    After::And,
                    Self::PROJECT_POLICY_TAIL@,
                ),
                seq![organization_id.bound(), project_id.bound()],
            ),
            tenant::filters_by_organization(statement@, organization_id),
    {
        let text = tenant::organization(
            Self::PROJECT_POLICY,
            Before::Where,
            "p.",
            Layout::Tight,
            After::And,
            Self::PROJECT_POLICY_TAIL,
        );
        Statement::optional(text.as_str()).bind(organization_id).bind(project_id)
    }

    /// What setting its policy changes in an organization.
    pub open spec fn organization_setting() -> Seq<Change> {
        seq![
            Change::Given("notification_retention_enabled"@, 2),
            Change::Given("notification_retention_days"@, 3),
            Change::True("notification_retention_initialized"@),
            Change::Now("notification_retention_updated_at"@),
            Change::Given("notification_retention_updated_by"@, 4),
        ]
    }

    /// The conditions on the organization of an id.
    pub open spec fn organization_by_id() -> Seq<Condition> {
        seq![Condition::Compared("id"@, Test::Equal, 1)]
    }

    /// Sets and initializes the organization's retention policy.
    pub fn set_organization_policy(
        organization_id: Uuid,
        enabled: bool,
        history_days: i32,
        updated_by: Uuid,
    ) -> (statement: Statement)
        ensures
            statement@ == StatementView::affected(
                "UPDATE organizations SET "@ + update::all_text(Self::organization_setting(), Form::Tight)
                    + " WHERE "@ + condition::all_text(Self::organization_by_id()),
                seq![
                    organization_id.bound(),
                    enabled.bound(),
                    history_days.bound(),
                    updated_by.bound(),
                ],
            ),
    {
        let changes = Changes::new(Form::Tight)
            .given("notification_retention_enabled", 2)
            .given("notification_retention_days", 3)
            .is_true("notification_retention_initialized")
            .now("notification_retention_updated_at")
            .given("notification_retention_updated_by", 4);
        let conditions = Conditions::new().compared("id", Test::Equal, 1);
        assert(changes@ =~= Self::organization_setting());
        assert(conditions@ =~= Self::organization_by_id());
        let text = text::join("UPDATE organizations SET ", changes.into_text().as_str())
            .concat(" WHERE ")
            .concat(conditions.into_text().as_str());
        Statement::affected(text.as_str())
            .bind(organization_id)
            .bind(enabled)
            .bind(history_days)
            .bind(updated_by)
    }

    /// What setting its override changes in a project.
    pub open spec fn project_setting() -> Seq<Change> {
        seq![
            Change::Given("notification_retention_enabled"@, 3),
            Change::Given("notification_retention_days"@, 4),
            Change::Now("notification_retention_updated_at"@),
            Change::Given("notification_retention_updated_by"@, 5),
        ]
    }

    /// The conditions on the project, besides its organization.
    pub open spec fn overridden_project() -> Seq<Condition> {
        seq![Condition::Compared("id"@, Test::Equal, 2)]
    }

    /// Sets the project's retention override, or clears it with `None`s.
    pub fn set_project_override(
        organization_id: Uuid,
        project_id: Uuid,
        enabled: Option<bool>,
        history_days: Option<i32>,
        updated_by: Uuid,
    ) -> (statement: Statement)
        ensures
            statement@ == StatementView::affected(
                tenant::organization_text(
                    "UPDATE projects SET "@ + update::all_text(Self::project_setting(), Form::Tight) + " "@,
                    Before::Where,
                    ""@,
                    Layout::Tight,
                    After::And,
                    condition::all_text(Self::overridden_project()),
                ),
                seq![
                    organization_id.bound(),
                    project_id.bound(),
                    enabled.bound(),
                    history_days.bound(),
                    updated_by.bound(),
                ],
            ),
            tenant::filters_by_organization(statement@, organization_id),
    {
        let changes = Changes::new(Form::Tight)
            .given("notification_retention_enabled", 3)
            .given("notification_retention_days", 4)
            .now("notification_retention_updated_at")
            .given("notification_retention_updated_by", 5);
        let conditions = Conditions::new().compared("id", Test::Equal, 2);
        assert(changes@ =~= Self::project_setting());
        assert(conditions@ =~= Self::overridden_project());
        let head = text::join("UPDATE projects SET ", changes.into_text().as_str()).concat(" ");
        let tail = conditions.into_text();
        let text = tenant::organization(
            head.as_str(),
            Before::Where,
            "",
            Layout::Tight,
            After::And,
            tail.as_str(),
        );
        Statement::affected(text.as_str())
            .bind(organization_id)
            .bind(project_id)
            .bind(enabled)
            .bind(history_days)
            .bind(updated_by)
    }

    pub const TRY_LOCK: &'static str = "SELECT pg_try_advisory_xact_lock(220022)";

    /// Tries to take the transaction-scoped advisory lock that lets one
    /// retention pass run at a time; `false` when another pass holds it.
    pub fn try_lock() -> (statement: Statement)
        ensures
            statement@ == StatementView::one(Self::TRY_LOCK@, seq![]),
    {
        Statement::one(Self::TRY_LOCK)
    }

    pub const EXPIRED_DELIVERY_IDS: &'static str =
        "SELECT d.id FROM notification_deliveries d JOIN effective_notification_retention e ON e.organization_id=d.organization_id AND e.project_id=d.project_id WHERE ";

    pub const EXPIRED_DELIVERY_IDS_TAIL: &'static str = " ORDER BY d.terminal_at,d.id LIMIT $1 FOR UPDATE OF d SKIP LOCKED";

    /// Whether the delivery has ended.
    pub const HAS_ENDED: &'static str =
        "d.status IN ('succeeded','failed','suppressed','cancelled')";

    /// Whether the delivery ended before the history that its project keeps.
    pub const IS_OUT_OF_HISTORY: &'static str =
        "d.terminal_at < now()-make_interval(days=>e.history_days)";

    /// The conditions on a delivery that expires.
    pub open spec fn expired_deliveries() -> Seq<Condition> {
        seq![
            Condition::Holding("e.enabled"@),
            Condition::Asked(Self::HAS_ENDED@),
            Condition::Asked(Self::IS_OUT_OF_HISTORY@),
        ]
    }

    /// Locks up to `limit` terminal deliveries older than their project's
    /// effective history window, oldest first, skipping locked rows.
    pub fn expired_delivery_ids(limit: i64) -> (statement: Statement)
        ensures
            statement@ == StatementView::all(
                Self::EXPIRED_DELIVERY_IDS@ + condition::all_text(Self::expired_deliveries())
                    + Self::EXPIRED_DELIVERY_IDS_TAIL@,
                seq![limit.bound()],
            ),
    {
        let conditions = Conditions::new()
            .holding("e.enabled")
            .asked(Self::HAS_ENDED)
            .asked(Self::IS_OUT_OF_HISTORY);
        assert(conditions@ =~= Self::expired_deliveries());
        let text = text::join(Self::EXPIRED_DELIVERY_IDS, conditions.into_text().as_str()).concat(
            Self::EXPIRED_DELIVERY_IDS_TAIL,
        );
        Statement::all(text.as_str()).bind(limit)
    }

    pub const OPERATIONS_OF_DELIVERIES: &'static str =
        "SELECT DISTINCT operation_id FROM notification_recovery_operation_deliveries WHERE ";

    /// The conditions on a link to one of the deliveries.
    pub open spec fn on_deliveries() -> Seq<Condition> {
        seq![Condition::Among("delivery_id"@, 1)]
    }

    /// The recovery operations that touched any of the deliveries.
    pub fn operations_of_deliveries(delivery_ids: &[Uuid]) -> (statement: Statement)
        ensures
            statement@ == StatementView::all(
                Self::OPERATIONS_OF_DELIVERIES@ + condition::all_text(Self::on_deliveries()),
                seq![delivery_ids.bound()],
            ),
    {
        let conditions = Conditions::new().among("delivery_id", 1);
        assert(conditions@ =~= Self::on_deliveries());
        let text = text::join(Self::OPERATIONS_OF_DELIVERIES, conditions.into_text().as_str());
        Statement::all(text.as_str()).bind(delivery_ids)
    }

    pub const DELETE_OPERATIONS_TARGETING: &'static str =
        "DELETE FROM notification_recovery_operations WHERE ";

    /// The conditions on an operation that targets one of the deliveries.
    pub open spec fn targeting() -> Seq<Condition> {
        seq![Condition::Among("target_delivery_id"@, 1)]
    }

    /// Deletes the single-delivery recovery operations that target any of
    /// the deliveries.
    pub fn delete_operations_targeting(delivery_ids: &[Uuid]) -> (statement: Statement)
        ensures
            statement@ == StatementView::affected(
                Self::DELETE_OPERATIONS_TARGETING@ + condition::all_text(Self::targeting()),
                seq![delivery_ids.bound()],
            ),
    {
        let conditions = Conditions::new().among("target_delivery_id", 1);
        assert(conditions@ =~= Self::targeting());
        let text = text::join(Self::DELETE_OPERATIONS_TARGETING, conditions.into_text().as_str());
        Statement::affected(text.as_str()).bind(delivery_ids)
    }

    pub const DELETE_DELIVERIES: &'static str =
        "DELETE FROM notification_deliveries WHERE ";

    /// The conditions on a delivery that is deleted.
    pub open spec fn named_deliveries() -> Seq<Condition> {
        seq![Condition::Among("id"@, 1)]
    }

    /// Deletes the deliveries, with their attempts and operation links.
    pub fn delete_deliveries(delivery_ids: &[Uuid]) -> (statement: Statement)
        ensures
            statement@ == StatementView::affected(
                Self::DELETE_DELIVERIES@ + condition::all_text(Self::named_deliveries()),
                seq![delivery_ids.bound()],
            ),
    {
        let conditions = Conditions::new().among("id", 1);
        assert(conditions@ =~= Self::named_deliveries());
        let text = text::join(Self::DELETE_DELIVERIES, conditions.into_text().as_str());
        Statement::affected(text.as_str()).bind(delivery_ids)
    }

    pub const DELETE_UNLINKED_BULK_OPERATIONS: &'static str =
        "DELETE FROM notification_recovery_operations o WHERE ";

    /// Whether the operation is linked to no delivery.
    pub const IS_UNLINKED: &'static str =
        "NOT EXISTS (SELECT 1 FROM notification_recovery_operation_deliveries l WHERE l.operation_id=o.id)";

    /// The conditions on a bulk operation that is deleted.
    pub open spec fn unlinked_operations() -> Seq<Condition> {
        seq![
            Condition::Among("o.id"@, 1),
            Condition::Null("o.target_delivery_id"@),
            Condition::Asked(Self::IS_UNLINKED@),
        ]
    }

    /// Deletes those of the bulk operations that no longer touch any
    /// delivery.
    pub fn delete_unlinked_bulk_operations(operation_ids: &[Uuid]) -> (statement: Statement)
        ensures
            statement@ == StatementView::affected(
                Self::DELETE_UNLINKED_BULK_OPERATIONS@
                    + condition::all_text(Self::unlinked_operations()),
                seq![operation_ids.bound()],
            ),
    {
        let conditions = Conditions::new()
            .among("o.id", 1)
            .is_null("o.target_delivery_id")
            .asked(Self::IS_UNLINKED);
        assert(conditions@ =~= Self::unlinked_operations());
        let text = text::join(
            Self::DELETE_UNLINKED_BULK_OPERATIONS,
            conditions.into_text().as_str(),
        );
        Statement::affected(text.as_str()).bind(operation_ids)
    }

    pub const DELETE_EXPIRED_EMPTY_OPERATIONS: &'static str =
        "WITH candidates AS (SELECT o.id FROM notification_recovery_operations o JOIN effective_notification_retention e ON e.organization_id=o.organization_id AND e.project_id=o.project_id WHERE e.enabled AND o.target_delivery_id IS NULL AND o.completed_at < now()-make_interval(days=>e.history_days) AND NOT EXISTS (SELECT 1 FROM notification_recovery_operation_deliveries l WHERE l.operation_id=o.id) ORDER BY o.completed_at,o.id LIMIT $1 FOR UPDATE OF o SKIP LOCKED) DELETE FROM notification_recovery_operations o USING candidates c WHERE o.id=c.id";

    /// Deletes up to `limit` bulk operations that touch no delivery and
    /// completed before their project's history window, oldest first,
    /// skipping locked rows.
    pub fn delete_expired_empty_operations(limit: i64) -> (statement: Statement)
        ensures
            statement@ == StatementView::affected(
                Self::DELETE_EXPIRED_EMPTY_OPERATIONS@,
                seq![limit.bound()],
            ),
    {
        Statement::affected(Self::DELETE_EXPIRED_EMPTY_OPERATIONS).bind(limit)
    }
}

/// Retention is initialized once: an organization whose retention is not gets
/// the policy, and one whose retention is, by this or otherwise, is left as it
/// is.
pub proof fn retention_is_initialized_once(
    organization: Record,
    enabled: bool,
    history_days: i32,
    parameters: Seq<Bound>,
    database: Database,
)
    ensures
        ({
            let conditions = NotificationRetentionRepository::uninitialized();
            let values: Seq<Bound> = seq![enabled.bound(), history_days.bound()];
            let after = update::changed(
                NotificationRetentionRepository::initialization(),
                organization,
                values,
                database,
            );
            &&& condition::selects(conditions, organization, values, database)
                <==> condition::has(
                organization,
                "notification_retention_initialized"@,
                Bound::Boolean(Some(false)),
            )
            &&& condition::has(after, "notification_retention_enabled"@, enabled.bound())
            &&& condition::has(after, "notification_retention_days"@, history_days.bound())
            &&& !condition::selects(conditions, after, parameters, database)
        }),
{
    reveal_strlit("notification_retention_enabled");
    reveal_strlit("notification_retention_days");
    reveal_strlit("notification_retention_initialized");
    reveal_strlit("notification_retention_updated_at");
    let changes = NotificationRetentionRepository::initialization();
    let conditions = NotificationRetentionRepository::uninitialized();
    let values: Seq<Bound> = seq![enabled.bound(), history_days.bound()];
    assert(changes[0].column().len() == 30 && changes[1].column().len() == 27);
    assert(changes[2].column().len() == 34 && changes[3].column().len() == 33);
    update::changed_column(changes, organization, values, database, 0);
    update::changed_column(changes, organization, values, database, 1);
    update::changed_column(changes, organization, values, database, 2);
    let after = update::changed(changes, organization, values, database);
    assert(!conditions[0].holds(after, parameters, database));
    assert(condition::selects(conditions, organization, values, database)
        <==> conditions[0].holds(organization, values, database));
}

/// An organization whose retention is initialized has the given policy from now
/// on. Nothing else of it changes.
pub proof fn initialized_retention_is_the_given_one(
    organization: Record,
    enabled: bool,
    history_days: i32,
    database: Database,
)
    ensures
        update::changed(
            NotificationRetentionRepository::initialization(),
            organization,
            seq![enabled.bound(), history_days.bound()],
            database,
        ) == organization.insert(
            "notification_retention_enabled"@,
            Bound::Boolean(Some(enabled)),
        )
            .insert("notification_retention_days"@, Bound::Integer(Some(history_days)))
            .insert("notification_retention_initialized"@, Bound::Boolean(Some(true)))
            .insert("notification_retention_updated_at"@, database.now),
{
    broadcast use update::first_changes;

    let changes = NotificationRetentionRepository::initialization();
    assert(changes =~= changes.take(changes.len() as int));
}

/// The organization of the id has the policy from now on, set by the user and
/// initialized, and nothing else of it changes.
pub proof fn set_policy_is_the_given_one(
    organization: Record,
    organization_id: Uuid,
    enabled: bool,
    history_days: i32,
    updated_by: Uuid,
    database: Database,
)
    ensures
        ({
            let values: Seq<Bound> = seq![
                organization_id.bound(),
                enabled.bound(),
                history_days.bound(),
                updated_by.bound(),
            ];
            &&& condition::selects(
                NotificationRetentionRepository::organization_by_id(),
                organization,
                values,
                database,
            ) <==> {
                &&& condition::has(organization, "id"@, organization_id.bound())
            }
            &&& update::changed(
                NotificationRetentionRepository::organization_setting(),
                organization,
                values,
                database,
            ) == organization
                .insert("notification_retention_enabled"@, enabled.bound())
                .insert("notification_retention_days"@, history_days.bound())
                .insert("notification_retention_initialized"@, Bound::Boolean(Some(true)))
                .insert("notification_retention_updated_at"@, database.now)
                .insert("notification_retention_updated_by"@, updated_by.bound())
        }),
{
    broadcast use update::first_changes;

    let values: Seq<Bound> = seq![
        organization_id.bound(),
        enabled.bound(),
        history_days.bound(),
        updated_by.bound(),
    ];
    let changes = NotificationRetentionRepository::organization_setting();
    assert(changes =~= changes.take(changes.len() as int));
    let conditions = NotificationRetentionRepository::organization_by_id();
    assert(condition::selects(conditions, organization, values, database) <==> {
        &&& conditions[0].holds(organization, values, database)
    });
}

/// The organization's project of the id has the override from now on, or none
/// where none is given, set by the user, and nothing else of it changes.
pub proof fn set_override_is_the_given_one(
    project: Record,
    organization_id: Uuid,
    project_id: Uuid,
    enabled: Option<bool>,
    history_days: Option<i32>,
    updated_by: Uuid,
    database: Database,
)
    ensures
        ({
            let values: Seq<Bound> = seq![
                organization_id.bound(),
                project_id.bound(),
                enabled.bound(),
                history_days.bound(),
                updated_by.bound(),
            ];
            &&& condition::selects(
                NotificationRetentionRepository::overridden_project(),
                project,
                values,
                database,
            ) <==> {
                &&& condition::has(project, "id"@, project_id.bound())
            }
            &&& update::changed(
                NotificationRetentionRepository::project_setting(),
                project,
                values,
                database,
            ) == project
                .insert("notification_retention_enabled"@, enabled.bound())
                .insert("notification_retention_days"@, history_days.bound())
                .insert("notification_retention_updated_at"@, database.now)
                .insert("notification_retention_updated_by"@, updated_by.bound())
        }),
{
    broadcast use update::first_changes;

    let values: Seq<Bound> = seq![
        organization_id.bound(),
        project_id.bound(),
        enabled.bound(),
        history_days.bound(),
        updated_by.bound(),
    ];
    let changes = NotificationRetentionRepository::project_setting();
    assert(changes =~= changes.take(changes.len() as int));
    let conditions = NotificationRetentionRepository::overridden_project();
    assert(condition::selects(conditions, project, values, database) <==> {
        &&& conditions[0].holds(project, values, database)
    });
}

/// The policy is that of the organization of the id, where it is initialized.
pub proof fn policy_is_read_once_initialized(
    organization: Record,
    organization_id: Uuid,
    database: Database,
)
    ensures
        ({
            let values: Seq<Bound> = seq![organization_id.bound()];
            condition::selects(
                NotificationRetentionRepository::initialized_organization(),
                organization,
                values,
                database,
            ) <==> {
                &&& condition::has(organization, "id"@, organization_id.bound())
                &&& condition::has(
                    organization,
                    "notification_retention_initialized"@,
                    Bound::Boolean(Some(true)),
                )
            }
        }),
{
    let values: Seq<Bound> = seq![organization_id.bound()];
    let conditions = NotificationRetentionRepository::initialized_organization();
    assert(condition::selects(conditions, organization, values, database) <==> {
        &&& conditions[0].holds(organization, values, database)
        &&& conditions[1].holds(organization, values, database)
    });
}

/// An operation is given exactly where it is linked to one of the deliveries.
pub proof fn operations_on_the_deliveries_are_given(
    link: Record,
    delivery_ids: &[Uuid],
    database: Database,
)
    ensures
        ({
            let values: Seq<Bound> = seq![delivery_ids.bound()];
            condition::selects(
                NotificationRetentionRepository::on_deliveries(),
                link,
                values,
                database,
            ) <==> {
                &&& !condition::lacks(link, "delivery_id"@)
                &&& condition::among(link["delivery_id"@], delivery_ids.bound())
            }
        }),
{
    let values: Seq<Bound> = seq![delivery_ids.bound()];
    let conditions = NotificationRetentionRepository::on_deliveries();
    assert(condition::selects(conditions, link, values, database) <==> {
        &&& conditions[0].holds(link, values, database)
    });
}

/// An operation is deleted exactly where it targets one of the deliveries.
pub proof fn operations_on_a_deleted_delivery_are_deleted(
    operation: Record,
    delivery_ids: &[Uuid],
    database: Database,
)
    ensures
        ({
            let values: Seq<Bound> = seq![delivery_ids.bound()];
            condition::selects(
                NotificationRetentionRepository::targeting(),
                operation,
                values,
                database,
            ) <==> {
                &&& !condition::lacks(operation, "target_delivery_id"@)
                &&& condition::among(operation["target_delivery_id"@], delivery_ids.bound())
            }
        }),
{
    let values: Seq<Bound> = seq![delivery_ids.bound()];
    let conditions = NotificationRetentionRepository::targeting();
    assert(condition::selects(conditions, operation, values, database) <==> {
        &&& conditions[0].holds(operation, values, database)
    });
}

/// A delivery is deleted exactly where it is one of those named.
pub proof fn only_the_named_deliveries_are_deleted(
    delivery: Record,
    delivery_ids: &[Uuid],
    database: Database,
)
    ensures
        ({
            let values: Seq<Bound> = seq![delivery_ids.bound()];
            condition::selects(
                NotificationRetentionRepository::named_deliveries(),
                delivery,
                values,
                database,
            ) <==> {
                &&& !condition::lacks(delivery, "id"@)
                &&& condition::among(delivery["id"@], delivery_ids.bound())
            }
        }),
{
    let values: Seq<Bound> = seq![delivery_ids.bound()];
    let conditions = NotificationRetentionRepository::named_deliveries();
    assert(condition::selects(conditions, delivery, values, database) <==> {
        &&& conditions[0].holds(delivery, values, database)
    });
}

/// An operation is deleted exactly where it is one of those named, targets no
/// delivery of its own, and is linked to none any more.
pub proof fn only_unlinked_bulk_operations_are_deleted(
    operation: Record,
    operation_ids: &[Uuid],
    database: Database,
)
    ensures
        ({
            let values: Seq<Bound> = seq![operation_ids.bound()];
            condition::selects(
                NotificationRetentionRepository::unlinked_operations(),
                operation,
                values,
                database,
            ) <==> {
                &&& !condition::lacks(operation, "o.id"@)
                &&& condition::among(operation["o.id"@], operation_ids.bound())
                &&& condition::lacks(operation, "o.target_delivery_id"@)
                &&& (database.answers)(
                    NotificationRetentionRepository::IS_UNLINKED@,
                    operation,
                    values,
                )
            }
        }),
{
    let values: Seq<Bound> = seq![operation_ids.bound()];
    let conditions = NotificationRetentionRepository::unlinked_operations();
    assert(condition::selects(conditions, operation, values, database) <==> {
        &&& conditions[0].holds(operation, values, database)
        &&& conditions[1].holds(operation, values, database)
        &&& conditions[2].holds(operation, values, database)
    });
}

/// A delivery expires exactly where its project keeps a history, it has ended,
/// and it ended before the history begins.
pub proof fn only_ended_deliveries_expire(
    delivery: Record,
    limit: i64,
    database: Database,
)
    ensures
        ({
            let values: Seq<Bound> = seq![limit.bound()];
            condition::selects(
                NotificationRetentionRepository::expired_deliveries(),
                delivery,
                values,
                database,
            ) <==> {
                &&& condition::has(delivery, "e.enabled"@, Bound::Boolean(Some(true)))
                &&& (database.answers)(
                    NotificationRetentionRepository::HAS_ENDED@,
                    delivery,
                    values,
                )
                &&& (database.answers)(
                    NotificationRetentionRepository::IS_OUT_OF_HISTORY@,
                    delivery,
                    values,
                )
            }
        }),
{
    let values: Seq<Bound> = seq![limit.bound()];
    let conditions = NotificationRetentionRepository::expired_deliveries();
    assert(condition::selects(conditions, delivery, values, database) <==> {
        &&& conditions[0].holds(delivery, values, database)
        &&& conditions[1].holds(delivery, values, database)
        &&& conditions[2].holds(delivery, values, database)
    });
}

} // verus!
