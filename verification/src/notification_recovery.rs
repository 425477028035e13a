//! Notification recovery operations: user-initiated retries and cancellations
//! of deliveries, recorded idempotently with the deliveries each one touched.

use serde_json::Value;
use uuid::Uuid;
use vstd::prelude::*;

#[allow(unused_imports)]
use crate::statement::Bind;
use crate::condition::{Condition, Conditions, Database, Kind, Record, Test};
use crate::condition;
use crate::insert::{Row, Style};
use crate::insert;
use crate::statement::{Bound, Fetch, Statement, StatementView, Timestamp};
use crate::tenant::{After, Before, Layout};
use crate::tenant;
use crate::text;

verus! {

broadcast use tenant::known_aliases_name_tables;

/// Notification recovery operations.
#[derive(Clone, Copy, Debug)]
pub struct NotificationRecoveryRepository;

impl NotificationRecoveryRepository {
    /// The operation projection.
    pub const OPERATION_COLUMNS: &'static str =
        "id,project_id,command_type,target_delivery_id,actor_kind,actor_id,request_id,outcome,selected_count,retried_count,cancelled_count,skipped_count,remaining_count,created_at,completed_at";

    pub const CURSOR: &'static str =
        "SELECT created_at,id FROM notification_recovery_operations ";

    pub const CURSOR_TAIL: &'static str = "id=$3";

    /// Resolves an operation id used as a list cursor into its
    /// `(created_at, id)` ordering key.
    pub fn cursor(
        organization_id: Uuid,
        project_id: Uuid,
        operation_id: Uuid,
    ) -> (statement: Statement)
        ensures
            statement@ == StatementView::optional(
                tenant::project_text(
                    Self::CURSOR@,
                    Before::Where,
                    ""@,
                    Layout::Tight,
                    After::And,
                    Self::CURSOR_TAIL@,
                ),
                seq![organization_id.bound(), project_id.bound(), operation_id.bound()],
            ),
            tenant::filters_by_project(statement@, organization_id, project_id),
    {
        let text = tenant::project(
            Self::CURSOR,
            Before::Where,
            "",
            Layout::Tight,
            After::And,
            Self::CURSOR_TAIL,
        );
        Statement::optional(text.as_str()).bind(organization_id).bind(project_id).bind(operation_id)
    }

    pub const PAGE: &'static str = "notification_recovery_operations ";

    pub const PAGE_TAIL: &'static str = " ORDER BY created_at DESC,id DESC LIMIT $6";

    /// The conditions on an operation of a page, besides the path.
    pub open spec fn page_filters() -> Seq<Condition> {
        seq![
            Condition::ComparedIfGiven("command_type"@, Test::Equal, Kind::Text, 3),
            Condition::PairIfGiven(
                "created_at"@,
                "id"@,
                Test::Less,
                Kind::Timestamp,
                4,
                5,
            ),
        ]
    }

    /// A page of the project's recovery operations, newest first, after the
    /// cursor when one is given, optionally of one command type.
    ///
    /// Selects the operation's id, command, actor, request, outcome and
    /// counts, and when it was created and completed.
    pub fn page(
        organization_id: Uuid,
        project_id: Uuid,
        command_type: Option<&str>,
        cursor_created_at: Option<Timestamp>,
        cursor_id: Option<Uuid>,
        fetch_limit: i64,
    ) -> (statement: Statement)
        ensures
            statement@ == StatementView::all(
                text::select_text(
                    Self::OPERATION_COLUMNS@,
                    tenant::project_text(
                        Self::PAGE@,
                        Before::Where,
                        ""@,
                        Layout::Tight,
                        After::And,
                        condition::all_text(Self::page_filters()) + Self::PAGE_TAIL@,
                    ),
                ),
                seq![
                    organization_id.bound(),
                    project_id.bound(),
                    command_type.bound(),
                    cursor_created_at.bound(),
                    cursor_id.bound(),
                    fetch_limit.bound(),
                ],
            ),
            tenant::filters_by_project(statement@, organization_id, project_id),
            text::gives(statement@.text, Self::OPERATION_COLUMNS@),
    {
        let conditions = Conditions::new()
            .compared_if_given("command_type", Test::Equal, Kind::Text, 3)
            .pair_if_given("created_at", "id", Test::Less, Kind::Timestamp, 4, 5);
        assert(conditions@ =~= Self::page_filters());
        let tail = conditions.into_text().concat(Self::PAGE_TAIL);
        let rows = tenant::project(
            Self::PAGE,
            Before::Where,
            "",
            Layout::Tight,
            After::And,
            tail.as_str(),
        );
        let text = text::select(Self::OPERATION_COLUMNS, rows.as_str());
        Statement::all(text.as_str())
            .bind(organization_id)
            .bind(project_id)
            .bind(command_type)
            .bind(cursor_created_at)
            .bind(cursor_id)
            .bind(fetch_limit)
    }

    pub const GET: &'static str = "notification_recovery_operations ";

    pub const GET_TAIL: &'static str = "id=$3";

    /// One recovery operation of the project with the columns of
    /// [`Self::page`].
    pub fn get(
        organization_id: Uuid,
        project_id: Uuid,
        operation_id: Uuid,
    ) -> (statement: Statement)
        ensures
            statement@ == StatementView::optional(
                text::select_text(
                    Self::OPERATION_COLUMNS@,
                    tenant::project_text(
                        Self::GET@,
                        Before::Where,
                        ""@,
                        Layout::Tight,
                        After::And,
                        Self::GET_TAIL@,
                    ),
                ),
                seq![organization_id.bound(), project_id.bound(), operation_id.bound()],
            ),
            tenant::filters_by_project(statement@, organization_id, project_id),
            text::gives(statement@.text, Self::OPERATION_COLUMNS@),
    {
        let rows = tenant::project(
            Self::GET,
            Before::Where,
            "",
            Layout::Tight,
            After::And,
            Self::GET_TAIL,
        );
        let text = text::select(Self::OPERATION_COLUMNS, rows.as_str());
        Statement::optional(text.as_str()).bind(organization_id).bind(project_id).bind(operation_id)
    }

    pub const DELIVERIES: &'static str =
        "SELECT delivery_id,recovery_generation,action,created_at FROM notification_recovery_operation_deliveries ";

    pub const DELIVERIES_TAIL: &'static str =
        "operation_id=$3 ORDER BY created_at,delivery_id LIMIT 200";

    /// The deliveries an operation touched.
    ///
    /// Selects `delivery_id`, `recovery_generation`, `action` and
    /// `created_at`.
    pub fn deliveries(
        organization_id: Uuid,
        project_id: Uuid,
        operation_id: Uuid,
    ) -> (statement: Statement)
        ensures
            statement@ == StatementView::all(
                tenant::project_text(
                    Self::DELIVERIES@,
                    Before::Where,
                    ""@,
                    Layout::Tight,
                    After::And,
                    Self::DELIVERIES_TAIL@,
                ),
                seq![organization_id.bound(), project_id.bound(), operation_id.bound()],
            ),
            tenant::filters_by_project(statement@, organization_id, project_id),
    {
        let text = tenant::project(
            Self::DELIVERIES,
            Before::Where,
            "",
            Layout::Tight,
            After::And,
            Self::DELIVERIES_TAIL,
        );
        Statement::all(text.as_str()).bind(organization_id).bind(project_id).bind(operation_id)
    }

    pub const BY_IDEMPOTENCY_KEY_FOR_UPDATE: &'static str =
        "SELECT request_fingerprint,result FROM notification_recovery_operations ";

    pub const BY_IDEMPOTENCY_KEY_FOR_UPDATE_TAIL: &'static str =
        "idempotency_key_hash=$3 FOR UPDATE";

    /// Locks the operation recorded under an idempotency key hash.
    ///
    /// Selects `request_fingerprint` and `result`.
    pub fn by_idempotency_key_for_update(
        organization_id: Uuid,
        project_id: Uuid,
        idempotency_key_hash: &[u8],
    ) -> (statement: Statement)
        ensures
            statement@ == StatementView::optional(
                tenant::project_text(
                    Self::BY_IDEMPOTENCY_KEY_FOR_UPDATE@,
                    Before::Where,
                    ""@,
                    Layout::Tight,
                    After::And,
                    Self::BY_IDEMPOTENCY_KEY_FOR_UPDATE_TAIL@,
                ),
                seq![organization_id.bound(), project_id.bound(), idempotency_key_hash.bound()],
            ),
            tenant::filters_by_project(statement@, organization_id, project_id),
    {
        let text = tenant::project(
            Self::BY_IDEMPOTENCY_KEY_FOR_UPDATE,
            Before::Where,
            "",
            Layout::Tight,
            After::And,
            Self::BY_IDEMPOTENCY_KEY_FOR_UPDATE_TAIL,
        );
        Statement::optional(text.as_str())
            .bind(organization_id)
            .bind(project_id)
            .bind(idempotency_key_hash)
    }

    /// Records a completed recovery operation under its idempotency key.
    pub fn insert(
        id: Uuid,
        organization_id: Uuid,
        project_id: Uuid,
        command_type: &str,
        target_delivery_id: Option<Uuid>,
        actor_id: Uuid,
        request_id: &str,
        idempotency_key_hash: &[u8],
        request_fingerprint: &[u8],
        safe_filters: Value,
        selected_count: i32,
        retried_count: i32,
        cancelled_count: i32,
        skipped_count: i32,
        remaining_count: i32,
        result: Value,
        completed_at: Timestamp,
    ) -> (statement: Statement)
        ensures
            statement@ == insert::row(Style::Open, "notification_recovery_operations"@)
                .set("id"@, id.bound())
                .set("organization_id"@, organization_id.bound())
                .set("project_id"@, project_id.bound())
                .set("command_type"@, command_type.bound())
                .set("target_delivery_id"@, target_delivery_id.bound())
                .computed("actor_kind"@, "'user'"@)
                .set("actor_id"@, actor_id.bound())
                .set("request_id"@, request_id.bound())
                .set("idempotency_key_hash"@, idempotency_key_hash.bound())
                .set("request_fingerprint"@, request_fingerprint.bound())
                .set("safe_filters"@, safe_filters.bound())
                .computed("outcome"@, "'completed'"@)
                .set("selected_count"@, selected_count.bound())
                .set("retried_count"@, retried_count.bound())
                .set("cancelled_count"@, cancelled_count.bound())
                .set("skipped_count"@, skipped_count.bound())
                .set("remaining_count"@, remaining_count.bound())
                .set("result"@, result.bound())
                .set("completed_at"@, completed_at.bound())
                .finish(""@, Fetch::Affected),
    {
        Row::new(Style::Open, "notification_recovery_operations")
            .set("id", id)
            .set("organization_id", organization_id)
            .set("project_id", project_id)
            .set("command_type", command_type)
            .set("target_delivery_id", target_delivery_id)
            .computed("actor_kind", "'user'")
            .set("actor_id", actor_id)
            .set("request_id", request_id)
            .set("idempotency_key_hash", idempotency_key_hash)
            .set("request_fingerprint", request_fingerprint)
            .set("safe_filters", safe_filters)
            .computed("outcome", "'completed'")
            .set("selected_count", selected_count)
            .set("retried_count", retried_count)
            .set("cancelled_count", cancelled_count)
            .set("skipped_count", skipped_count)
            .set("remaining_count", remaining_count)
            .set("result", result)
            .set("completed_at", completed_at)
            .finish("", Fetch::Affected)
    }

    /// Records what an operation did to one delivery.
    pub fn link_delivery(
        operation_id: Uuid,
        organization_id: Uuid,
        project_id: Uuid,
        delivery_id: Uuid,
        recovery_generation: i32,
        action: &str,
    ) -> (statement: Statement)
        ensures
            statement@ == insert::row(Style::Open, "notification_recovery_operation_deliveries"@)
                .set("operation_id"@, operation_id.bound())
                .set("organization_id"@, organization_id.bound())
                .set("project_id"@, project_id.bound())
                .set("delivery_id"@, delivery_id.bound())
                .set("recovery_generation"@, recovery_generation.bound())
                .set("action"@, action.bound())
                .finish(""@, Fetch::Affected),
    {
        Row::new(Style::Open, "notification_recovery_operation_deliveries")
            .set("operation_id", operation_id)
            .set("organization_id", organization_id)
            .set("project_id", project_id)
            .set("delivery_id", delivery_id)
            .set("recovery_generation", recovery_generation)
            .set("action", action)
            .finish("", Fetch::Affected)
    }
}

/// An operation is on the page exactly where it is of the command where one is
/// given, and comes behind the cursor, or no cursor is given.
pub proof fn page_holds_the_operations_asked_for(
    operation: Record,
    organization_id: Uuid,
    project_id: Uuid,
    command_type: Option<&str>,
    cursor_created_at: Option<Timestamp>,
    cursor_id: Option<Uuid>,
    fetch_limit: i64,
    database: Database,
)
    ensures
        ({
            let values: Seq<Bound> = seq![
                organization_id.bound(),
                project_id.bound(),
                command_type.bound(),
                cursor_created_at.bound(),
                cursor_id.bound(),
                fetch_limit.bound(),
            ];
            condition::selects(
                NotificationRecoveryRepository::page_filters(),
                operation,
                values,
                database,
            ) <==> {
                &&& command_type is Some ==> condition::has(
                    operation,
                    "command_type"@,
                    command_type.bound(),
                )
                &&& cursor_created_at is Some ==> {
                    &&& !condition::lacks(operation, "created_at"@)
                    &&& {
                        ||| {
                            &&& operation["created_at"@] != cursor_created_at.bound()
                            &&& (database.less)(operation["created_at"@], cursor_created_at.bound())
                        }
                        ||| {
                            &&& operation["created_at"@] == cursor_created_at.bound()
                            &&& cursor_id is Some
                            &&& !condition::lacks(operation, "id"@)
                            &&& (database.less)(operation["id"@], cursor_id.bound())
                        }
                    }
                }
            }
        }),
{
    let values: Seq<Bound> = seq![
        organization_id.bound(),
        project_id.bound(),
        command_type.bound(),
        cursor_created_at.bound(),
        cursor_id.bound(),
        fetch_limit.bound(),
    ];
    let conditions = NotificationRecoveryRepository::page_filters();
    assert(condition::selects(conditions, operation, values, database) <==> {
        &&& conditions[0].holds(operation, values, database)
        &&& conditions[1].holds(operation, values, database)
    });
}

} // verus!
