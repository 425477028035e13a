//! Notification deliveries: one per destination and outbox message (or test),
//! leased to a worker, attempted until they succeed, fail for good, or are
//! cancelled, with a record of every attempt.
//!
//! Reads returning projections owned by the notification endpoints document
//! the columns they select.

use serde_json::Value;
use uuid::Uuid;
use vstd::prelude::*;

#[allow(unused_imports)]
use crate::statement::Bind;
use crate::condition::{Condition, Conditions, Database, Kind, Record, Test};
use crate::condition;
use crate::insert::{Row, Style};
use crate::insert;
use crate::statement::{Bound, Fetch, Statement, StatementView, Timestamp};
use crate::tenant::{After, Before, Layout, Start};
use crate::tenant;
use crate::text;
use crate::update::{Change, Changes, Form};
use crate::update;

verus! {

broadcast use {tenant::known_aliases_name_tables, condition::known_words_are_plain};

/// Notification deliveries and their attempts.
#[derive(Clone, Copy, Debug)]
pub struct NotificationDeliveryRepository;

impl NotificationDeliveryRepository {
    /// The delivery projection.
    pub const DELIVERY_COLUMNS: &'static str =
        "d.id,d.project_id,d.destination_id,d.outbox_message_id,d.origin,d.source,d.event_name,d.payload,w.name destination_name,w.enabled destination_enabled,d.status,d.available_at,d.recovery_generation,d.attempt_count,(SELECT count(*) FROM notification_delivery_attempts a WHERE a.delivery_id=d.id) total_attempt_count,d.max_attempts,d.last_error_class,d.created_at,d.updated_at,d.terminal_at,d.last_recovery_operation_id";

    /// Counts, among the webhook destinations, those that what follows asks for.
    pub const DESTINATION_COUNT: &'static str =
        "SELECT (SELECT count(*) FROM webhook_destinations ";

    /// The queue projection: the enabled destinations, the deliveries by status, and
    /// how long the oldest due one has waited.
    pub const QUEUE_SNAPSHOT: &'static str =
        "enabled=true) enabled_destination_count, count(*) FILTER (WHERE status='pending') pending_count, count(*) FILTER (WHERE status='pending' AND available_at<=now()) due_count, count(*) FILTER (WHERE status='pending' AND attempt_count>0) retrying_count, count(*) FILTER (WHERE status='in_flight') in_flight_count, count(*) FILTER (WHERE status='in_flight' AND lease_expires_at<=now()) expired_lease_count, count(*) FILTER (WHERE status='failed') failed_count, CASE WHEN count(*) FILTER (WHERE status='pending' AND available_at<=now())=0 THEN NULL ELSE GREATEST(EXTRACT(EPOCH FROM (now()-min(available_at) FILTER (WHERE status='pending' AND available_at<=now())))::bigint,0) END oldest_due_age_seconds FROM notification_deliveries";

    /// The text that counts one project's queue.
    pub open spec fn project_queue_text() -> Seq<char> {
        tenant::project_text(
            Self::DESTINATION_COUNT@,
            Before::Where,
            ""@,
            Layout::Tight,
            After::And,
            tenant::project_text(
                Self::QUEUE_SNAPSHOT@ + " "@,
                Before::Where,
                ""@,
                Layout::Tight,
                After::End,
                ""@,
            ),
        )
    }

    /// The project's delivery queue: enabled destinations, pending, due,
    /// retrying, in-flight, lease-expired and failed deliveries, and how long
    /// the oldest due delivery has waited.
    ///
    /// Selects `enabled_destination_count`, `pending_count`, `due_count`,
    /// `retrying_count`, `in_flight_count`, `expired_lease_count`,
    /// `failed_count` and `oldest_due_age_seconds`.
    pub fn project_queue_snapshot(organization_id: Uuid, project_id: Uuid) -> (statement: Statement)
        ensures
            statement@ == StatementView::one(
                Self::project_queue_text(),
                seq![organization_id.bound(), project_id.bound()],
            ),
            tenant::filters_by_project(statement@, organization_id, project_id),
    {
        proof {
            reveal_strlit("");
        }
        let queue = tenant::project(
            text::join(Self::QUEUE_SNAPSHOT, " ").as_str(),
            Before::Where,
            "",
            Layout::Tight,
            After::End,
            "",
        );
        let text = tenant::project(
            Self::DESTINATION_COUNT,
            Before::Where,
            "",
            Layout::Tight,
            After::And,
            queue.as_str(),
        );
        Statement::one(text.as_str()).bind(organization_id).bind(project_id)
    }

    /// The delivery queue across all projects, with the columns of
    /// [`Self::project_queue_snapshot`].
    pub fn queue_snapshot() -> (statement: Statement)
        ensures
            statement@ == StatementView::one(
                Self::DESTINATION_COUNT@ + "WHERE "@ + Self::QUEUE_SNAPSHOT@,
                seq![],
            ),
    {
        let text = text::join(Self::DESTINATION_COUNT, "WHERE ").concat(Self::QUEUE_SNAPSHOT);
        Statement::one(text.as_str())
    }

    pub const REQUEUE_FAILED: &'static str = "UPDATE notification_deliveries SET ";

    /// What requeueing a delivery changes.
    pub open spec fn requeueing() -> Seq<Change> {
        seq![
            Change::Word("status"@, "pending"@),
            Change::Given("recovery_generation"@, 4),
            Change::Zero("attempt_count"@),
            Change::Now("available_at"@),
            Change::Null("lease_owner"@),
            Change::Null("lease_expires_at"@),
            Change::Null("terminal_at"@),
            Change::Null("last_error_class"@),
            Change::Null("last_error"@),
            Change::Given("last_recovery_operation_id"@, 5),
            Change::Now("updated_at"@),
        ]
    }

    /// The conditions that a delivery is requeued by, besides the project.
    pub open spec fn is_failed() -> Seq<Condition> {
        seq![Condition::Compared("id"@, Test::Equal, 3), Condition::Word("status"@, "failed"@)]
    }

    /// Returns a failed delivery to pending under a new recovery generation,
    /// clearing its attempts, lease and error. Affects no row unless it is
    /// failed.
    pub fn requeue_failed(
        organization_id: Uuid,
        project_id: Uuid,
        delivery_id: Uuid,
        recovery_generation: i32,
        operation_id: Uuid,
    ) -> (statement: Statement)
        ensures
            statement@ == StatementView::affected(
                tenant::project_text(
                    Self::REQUEUE_FAILED@ + update::all_text(Self::requeueing(), Form::Tight)
                        + " "@,
                    Before::Where,
                    ""@,
                    Layout::Tight,
                    After::And,
                    condition::all_text(Self::is_failed()),
                ),
                seq![
                    organization_id.bound(),
                    project_id.bound(),
                    delivery_id.bound(),
                    recovery_generation.bound(),
                    operation_id.bound(),
                ],
            ),
            tenant::filters_by_project(statement@, organization_id, project_id),
    {
        let changes = Changes::new(Form::Tight)
            .word("status", "pending")
            .given("recovery_generation", 4)
            .zero("attempt_count")
            .now("available_at")
            .null("lease_owner")
            .null("lease_expires_at")
            .null("terminal_at")
            .null("last_error_class")
            .null("last_error")
            .given("last_recovery_operation_id", 5)
            .now("updated_at");
        let conditions = Conditions::new().compared("id", Test::Equal, 3).word("status", "failed");
        assert(changes@ =~= Self::requeueing());
        assert(conditions@ =~= Self::is_failed());
        let head = text::join(Self::REQUEUE_FAILED, changes.into_text().as_str()).concat(" ");
        let tail = conditions.into_text();
        let text = tenant::project(
            head.as_str(),
            Before::Where,
            "",
            Layout::Tight,
            After::And,
            tail.as_str(),
        );
        Statement::affected(text.as_str())
            .bind(organization_id)
            .bind(project_id)
            .bind(delivery_id)
            .bind(recovery_generation)
            .bind(operation_id)
    }

    pub const CANCEL_PENDING: &'static str = "UPDATE notification_deliveries SET ";

    /// What cancelling a delivery changes.
    pub open spec fn cancellation() -> Seq<Change> {
        seq![
            Change::Word("status"@, "cancelled"@),
            Change::Now("terminal_at"@),
            Change::Word("last_error_class"@, "user_cancelled"@),
            Change::Word("last_error"@, "delivery cancelled by authenticated project user"@),
            Change::Given("last_recovery_operation_id"@, 4),
            Change::Now("updated_at"@),
        ]
    }

    /// The conditions that a delivery is cancelled by, besides the project.
    pub open spec fn is_waiting() -> Seq<Condition> {
        seq![
            Condition::Compared("id"@, Test::Equal, 3),
            Condition::Word("status"@, "pending"@),
            Condition::Null("lease_owner"@),
            Condition::Null("lease_expires_at"@),
        ]
    }

    /// Cancels a pending delivery on a user's request. Affects no row unless
    /// it is pending.
    pub fn cancel_pending(
        organization_id: Uuid,
        project_id: Uuid,
        delivery_id: Uuid,
        operation_id: Uuid,
    ) -> (statement: Statement)
        ensures
            statement@ == StatementView::affected(
                tenant::project_text(
                    Self::CANCEL_PENDING@ + update::all_text(Self::cancellation(), Form::Tight)
                        + " "@,
                    Before::Where,
                    ""@,
                    Layout::Tight,
                    After::And,
                    condition::all_text(Self::is_waiting()),
                ),
                seq![
                    organization_id.bound(),
                    project_id.bound(),
                    delivery_id.bound(),
                    operation_id.bound(),
                ],
            ),
            tenant::filters_by_project(statement@, organization_id, project_id),
    {
        let changes = Changes::new(Form::Tight)
            .word("status", "cancelled")
            .now("terminal_at")
            .word("last_error_class", "user_cancelled")
            .word("last_error", "delivery cancelled by authenticated project user")
            .given("last_recovery_operation_id", 4)
            .now("updated_at");
        let conditions = Conditions::new()
            .compared("id", Test::Equal, 3)
            .word("status", "pending")
            .is_null("lease_owner")
            .is_null("lease_expires_at");
        assert(changes@ =~= Self::cancellation());
        assert(conditions@ =~= Self::is_waiting());
        let head = text::join(Self::CANCEL_PENDING, changes.into_text().as_str()).concat(" ");
        let tail = conditions.into_text();
        let text = tenant::project(
            head.as_str(),
            Before::Where,
            "",
            Layout::Tight,
            After::And,
            tail.as_str(),
        );
        Statement::affected(text.as_str())
            .bind(organization_id)
            .bind(project_id)
            .bind(delivery_id)
            .bind(operation_id)
    }

    pub const FAILED: &'static str =
        "notification_deliveries d JOIN webhook_destinations w ON w.organization_id=d.organization_id AND w.project_id=d.project_id AND w.id=d.destination_id ";

    pub const RETRY_COLUMNS: &'static str = "d.id,d.recovery_generation";

    /// Oldest failure first, locked, skipping those another worker holds, at most
    /// `$7`.
    pub const RETRY_ORDER: &'static str =
        " ORDER BY d.terminal_at,d.created_at,d.id FOR UPDATE OF d SKIP LOCKED LIMIT $7";

    /// The failed deliveries of a project to enabled destinations, narrowed by
    /// the optional filters at `$3` to `$6`.
    pub open spec fn failed_text() -> Seq<char> {
        tenant::project_text(
            Self::FAILED@,
            Before::Where,
            "d."@,
            Layout::Tight,
            After::And,
            condition::all_text(Self::failed_filters()),
        )
    }

    /// The conditions that select the failed deliveries, besides the path.
    pub open spec fn failed_filters() -> Seq<Condition> {
        seq![
            Condition::Word("d.status"@, "failed"@),
            Condition::True("w.enabled"@),
            Condition::ComparedIfGiven("d.destination_id"@, Test::Equal, Kind::Uuid, 3),
            Condition::ComparedIfGiven("d.terminal_at"@, Test::Less, Kind::Timestamp, 4),
            Condition::ComparedIfGiven("d.terminal_at"@, Test::AtLeast, Kind::Timestamp, 5),
            Condition::ComparedIfGiven("d.last_error_class"@, Test::Equal, Kind::Text, 6),
        ]
    }

    /// All the conditions that select the failed deliveries.
    pub open spec fn failed_conditions() -> Seq<Condition> {
        condition::project_path("d."@) + Self::failed_filters()
    }

    /// The conditions that select the failed deliveries, besides the path.
    fn failed_condition() -> (text: String)
        ensures
            text@ == condition::all_text(Self::failed_filters()),
            Self::failed_text() == Self::FAILED@ + "WHERE "@ + condition::all_text(
                Self::failed_conditions(),
            ),
    {
        let filters = Conditions::new()
            .word("d.status", "failed")
            .is_true("w.enabled")
            .compared_if_given("d.destination_id", Test::Equal, Kind::Uuid, 3)
            .compared_if_given("d.terminal_at", Test::Less, Kind::Timestamp, 4)
            .compared_if_given("d.terminal_at", Test::AtLeast, Kind::Timestamp, 5)
            .compared_if_given("d.last_error_class", Test::Equal, Kind::Text, 6);
        proof {
            assert(filters@ =~= Self::failed_filters());
            condition::paths_are_filters("d."@);
            condition::lemma_texts_join(condition::project_path("d."@), Self::failed_filters());
            assert(Self::failed_text() =~= Self::FAILED@ + "WHERE "@ + condition::all_text(
                Self::failed_conditions(),
            ));
        }
        filters.into_text()
    }

    /// The values that select a project's failed deliveries.
    pub open spec fn failed_values(
        organization_id: Uuid,
        project_id: Uuid,
        destination_id: Option<Uuid>,
        failed_before: Option<Timestamp>,
        failed_after: Option<Timestamp>,
        error_class: Option<&str>,
    ) -> Seq<Bound> {
        seq![
            organization_id.bound(),
            project_id.bound(),
            destination_id.bound(),
            failed_before.bound(),
            failed_after.bound(),
            error_class.bound(),
        ]
    }

    /// The statement that selects and locks the failed deliveries to retry.
    pub open spec fn selecting_failed(
        organization_id: Uuid,
        project_id: Uuid,
        destination_id: Option<Uuid>,
        failed_before: Option<Timestamp>,
        failed_after: Option<Timestamp>,
        error_class: Option<&str>,
        limit: i64,
    ) -> StatementView {
        StatementView::all(
            text::select_text(Self::RETRY_COLUMNS@, Self::failed_text()) + Self::RETRY_ORDER@,
            Self::failed_values(
                organization_id,
                project_id,
                destination_id,
                failed_before,
                failed_after,
                error_class,
            ).push(limit.bound()),
        )
    }

    /// Locks up to `limit` of the project's failed deliveries to enabled
    /// destinations matching the filter, with their recovery generation.
    pub fn failed_for_retry(
        organization_id: Uuid,
        project_id: Uuid,
        destination_id: Option<Uuid>,
        failed_before: Option<Timestamp>,
        failed_after: Option<Timestamp>,
        error_class: Option<&str>,
        limit: i64,
    ) -> (statement: Statement)
        ensures
            statement@ == Self::selecting_failed(
                organization_id,
                project_id,
                destination_id,
                failed_before,
                failed_after,
                error_class,
                limit,
            ),
            statement@.text == text::select_text(
                Self::RETRY_COLUMNS@,
                Self::FAILED@ + "WHERE "@ + condition::all_text(Self::failed_conditions()),
            ) + Self::RETRY_ORDER@,
            tenant::filters_by_project(statement@, organization_id, project_id),
    {
        let failed = tenant::project(
            Self::FAILED,
            Before::Where,
            "d.",
            Layout::Tight,
            After::And,
            Self::failed_condition().concat(Self::RETRY_ORDER).as_str(),
        );
        let text = text::select(Self::RETRY_COLUMNS, failed.as_str());
        assert(text@ =~= text::select_text(Self::RETRY_COLUMNS@, Self::failed_text())
            + Self::RETRY_ORDER@);
        Statement::all(text.as_str())
            .bind(organization_id)
            .bind(project_id)
            .bind(destination_id)
            .bind(failed_before)
            .bind(failed_after)
            .bind(error_class)
            .bind(limit)
    }

    /// The statement that counts the failed deliveries that could be retried.
    pub open spec fn counting_failed(
        organization_id: Uuid,
        project_id: Uuid,
        destination_id: Option<Uuid>,
        failed_before: Option<Timestamp>,
        failed_after: Option<Timestamp>,
        error_class: Option<&str>,
    ) -> StatementView {
        StatementView::one(
            text::select_text("count(*)"@, Self::failed_text()),
            Self::failed_values(
                organization_id,
                project_id,
                destination_id,
                failed_before,
                failed_after,
                error_class,
            ),
        )
    }

    /// How many deliveries [`Self::failed_for_retry`] would select without a
    /// limit.
    pub fn count_failed_for_retry(
        organization_id: Uuid,
        project_id: Uuid,
        destination_id: Option<Uuid>,
        failed_before: Option<Timestamp>,
        failed_after: Option<Timestamp>,
        error_class: Option<&str>,
    ) -> (statement: Statement)
        ensures
            statement@ == Self::counting_failed(
                organization_id,
                project_id,
                destination_id,
                failed_before,
                failed_after,
                error_class,
            ),
            statement@.text == text::select_text(
                "count(*)"@,
                Self::FAILED@ + "WHERE "@ + condition::all_text(Self::failed_conditions()),
            ),
            tenant::filters_by_project(statement@, organization_id, project_id),
    {
        let failed = tenant::project(
            Self::FAILED,
            Before::Where,
            "d.",
            Layout::Tight,
            After::And,
            Self::failed_condition().as_str(),
        );
        let text = text::select("count(*)", failed.as_str());
        Statement::one(text.as_str())
            .bind(organization_id)
            .bind(project_id)
            .bind(destination_id)
            .bind(failed_before)
            .bind(failed_after)
            .bind(error_class)
    }

    pub const LOCK_FOR_RECOVERY: &'static str =
        "SELECT d.status,w.enabled destination_enabled,d.lease_expires_at,d.recovery_generation,d.attempt_count,(SELECT count(*) FROM notification_delivery_attempts a WHERE a.delivery_id=d.id) total_attempt_count FROM notification_deliveries d JOIN webhook_destinations w ON w.organization_id=d.organization_id AND w.project_id=d.project_id AND w.id=d.destination_id ";

    pub const LOCK_FOR_RECOVERY_TAIL: &'static str = "d.id=$3 FOR UPDATE OF d";

    /// Locks a delivery of the project for a recovery command and returns
    /// what the command decides on.
    ///
    /// Selects `status`, `destination_enabled`, `lease_expires_at`,
    /// `recovery_generation`, `attempt_count` and `total_attempt_count`.
    pub fn lock_for_recovery(
        organization_id: Uuid,
        project_id: Uuid,
        delivery_id: Uuid,
    ) -> (statement: Statement)
        ensures
            statement@ == StatementView::optional(
                tenant::project_text(
                    Self::LOCK_FOR_RECOVERY@,
                    Before::Where,
                    "d."@,
                    Layout::Tight,
                    After::And,
                    Self::LOCK_FOR_RECOVERY_TAIL@,
                ),
                seq![organization_id.bound(), project_id.bound(), delivery_id.bound()],
            ),
            tenant::filters_by_project(statement@, organization_id, project_id),
    {
        let text = tenant::project(
            Self::LOCK_FOR_RECOVERY,
            Before::Where,
            "d.",
            Layout::Tight,
            After::And,
            Self::LOCK_FOR_RECOVERY_TAIL,
        );
        Statement::optional(text.as_str()).bind(organization_id).bind(project_id).bind(delivery_id)
    }

    pub const INSERT_FOR_OUTBOX: &'static str =
        " ON CONFLICT (outbox_message_id,destination_id) WHERE outbox_message_id IS NOT NULL DO NOTHING";

    /// Creates the delivery of a first-seen message to one destination, once
    /// per message and destination: a repeat affects no row. A suppressed
    /// backfill is created already terminal.
    pub fn insert_for_outbox(
        id: Uuid,
        organization_id: Uuid,
        project_id: Uuid,
        destination_id: Uuid,
        outbox_message_id: Uuid,
        source: &str,
        payload: Value,
        status: &str,
        max_attempts: i32,
        terminal_at: Option<Timestamp>,
        last_error_class: Option<&str>,
        last_error: Option<&str>,
    ) -> (statement: Statement)
        ensures
            statement@ == insert::row(Style::Open, "notification_deliveries"@)
                .set("id"@, id.bound())
                .set("organization_id"@, organization_id.bound())
                .set("project_id"@, project_id.bound())
                .set("destination_id"@, destination_id.bound())
                .set("outbox_message_id"@, outbox_message_id.bound())
                .computed("origin"@, "'outbox'"@)
                .set("source"@, source.bound())
                .computed("event_name"@, "'runtime_group.first_seen'"@)
                .set("payload"@, payload.bound())
                .set("status"@, status.bound())
                .set("max_attempts"@, max_attempts.bound())
                .set("terminal_at"@, terminal_at.bound())
                .set("last_error_class"@, last_error_class.bound())
                .set("last_error"@, last_error.bound())
                .finish(Self::INSERT_FOR_OUTBOX@, Fetch::Affected),
    {
        Row::new(Style::Open, "notification_deliveries")
            .set("id", id)
            .set("organization_id", organization_id)
            .set("project_id", project_id)
            .set("destination_id", destination_id)
            .set("outbox_message_id", outbox_message_id)
            .computed("origin", "'outbox'")
            .set("source", source)
            .computed("event_name", "'runtime_group.first_seen'")
            .set("payload", payload)
            .set("status", status)
            .set("max_attempts", max_attempts)
            .set("terminal_at", terminal_at)
            .set("last_error_class", last_error_class)
            .set("last_error", last_error)
            .finish(Self::INSERT_FOR_OUTBOX, Fetch::Affected)
    }

    pub const CLAIM_DUE: &'static str =
        "WITH candidates AS (SELECT id FROM notification_deliveries WHERE ";

    pub const CLAIM_DUE_CHOSEN: &'static str =
        " ORDER BY available_at,created_at FOR UPDATE SKIP LOCKED LIMIT $1), claimed AS (UPDATE notification_deliveries d SET ";

    pub const CLAIM_DUE_TAIL: &'static str =
        " FROM candidates c WHERE d.id=c.id RETURNING d.*) SELECT c.id,c.organization_id,c.project_id,c.destination_id,c.outbox_message_id,c.source,c.event_name,c.payload,c.recovery_generation,c.attempt_count,c.max_attempts,c.lease_owner,w.url,w.encrypted_secret,w.secret_nonce FROM claimed c JOIN webhook_destinations w ON w.id=c.destination_id AND w.organization_id=c.organization_id AND w.project_id=c.project_id WHERE w.enabled=true";

    /// The condition on a delivery that a worker can claim.
    pub open spec fn claimable() -> Seq<Condition> {
        seq![
            Condition::DueOrExpired(
                "status"@,
                "pending"@,
                "available_at"@,
                "in_flight"@,
                "lease_expires_at"@,
            ),
        ]
    }

    /// What a claim changes in a delivery.
    pub open spec fn claiming() -> Seq<Change> {
        seq![
            Change::Word("status"@, "in_flight"@),
            Change::Given("lease_owner"@, 2),
            Change::After("lease_expires_at"@, 3),
            Change::Now("updated_at"@),
        ]
    }

    /// Leases up to `limit` due deliveries to `lease_owner` for
    /// `lease_seconds`: pending ones whose time has come and in-flight ones
    /// whose lease expired, skipping rows another worker holds. Only
    /// deliveries to enabled destinations are returned.
    ///
    /// Selects the delivery's `id`, tenant path, `destination_id`,
    /// `outbox_message_id`, `source`, `event_name`, `payload`,
    /// `recovery_generation`, `attempt_count`, `max_attempts` and
    /// `lease_owner`, and the destination's `url`, `encrypted_secret` and
    /// `secret_nonce`.
    pub fn claim_due(limit: i64, lease_owner: Uuid, lease_seconds: i64) -> (statement: Statement)
        ensures
            statement@ == StatementView::all(
                Self::CLAIM_DUE@ + condition::all_text(Self::claimable()) + Self::CLAIM_DUE_CHOSEN@
                    + update::all_text(Self::claiming(), Form::Tight) + Self::CLAIM_DUE_TAIL@,
                seq![limit.bound(), lease_owner.bound(), lease_seconds.bound()],
            ),
    {
        let conditions = Conditions::new().due_or_expired(
            "status",
            "pending",
            "available_at",
            "in_flight",
            "lease_expires_at",
        );
        let changes = Changes::new(Form::Tight)
            .word("status", "in_flight")
            .given("lease_owner", 2)
            .after("lease_expires_at", 3)
            .now("updated_at");
        assert(conditions@ =~= Self::claimable());
        assert(changes@ =~= Self::claiming());
        let text = text::join(Self::CLAIM_DUE, conditions.into_text().as_str())
            .concat(Self::CLAIM_DUE_CHOSEN)
            .concat(changes.into_text().as_str())
            .concat(Self::CLAIM_DUE_TAIL);
        Statement::all(text.as_str()).bind(limit).bind(lease_owner).bind(lease_seconds)
    }

    /// Creates a single-attempt test delivery already leased to
    /// `lease_owner`.
    pub fn insert_test(
        id: Uuid,
        organization_id: Uuid,
        project_id: Uuid,
        destination_id: Uuid,
        payload: &Value,
        lease_owner: Uuid,
        lease_seconds: i64,
    ) -> (statement: Statement)
        ensures
            statement@ == insert::row(Style::Open, "notification_deliveries"@)
                .set("id"@, id.bound())
                .set("organization_id"@, organization_id.bound())
                .set("project_id"@, project_id.bound())
                .set("destination_id"@, destination_id.bound())
                .computed("origin"@, "'test'"@)
                .computed("source"@, "'test'"@)
                .computed("event_name"@, "'okoscope.test'"@)
                .set("payload"@, payload.bound())
                .computed("status"@, "'in_flight'"@)
                .set("lease_owner"@, lease_owner.bound())
                .computed_from(
                    "lease_expires_at"@,
                    "now()+make_interval(secs=>"@,
                    lease_seconds.bound(),
                    ")"@,
                )
                .computed("max_attempts"@, "1"@)
                .finish(""@, Fetch::Affected),
    {
        Row::new(Style::Open, "notification_deliveries")
            .set("id", id)
            .set("organization_id", organization_id)
            .set("project_id", project_id)
            .set("destination_id", destination_id)
            .computed("origin", "'test'")
            .computed("source", "'test'")
            .computed("event_name", "'okoscope.test'")
            .set("payload", payload)
            .computed("status", "'in_flight'")
            .set("lease_owner", lease_owner)
            .computed_from("lease_expires_at", "now()+make_interval(secs=>", lease_seconds, ")")
            .computed("max_attempts", "1")
            .finish("", Fetch::Affected)
    }

    pub const CURSOR: &'static str = "SELECT created_at,id FROM notification_deliveries ";

    pub const CURSOR_TAIL: &'static str = "id=$3";

    /// Resolves a delivery id used as a list cursor into its
    /// `(created_at, id)` ordering key.
    pub fn cursor(
        organization_id: Uuid,
        project_id: Uuid,
        delivery_id: Uuid,
    ) -> (statement: Statement)
        ensures
            statement@ == StatementView::optional(
                tenant::project_text(
                    Self::CURSOR@,
                    Before::Where,
                    ""@,
                    Layout::Tight,
                    After::And,
                    Self::CURSOR_TAIL@,
                ),
                seq![organization_id.bound(), project_id.bound(), delivery_id.bound()],
            ),
            tenant::filters_by_project(statement@, organization_id, project_id),
    {
        let text = tenant::project(
            Self::CURSOR,
            Before::Where,
            "",
            Layout::Tight,
            After::And,
            Self::CURSOR_TAIL,
        );
        Statement::optional(text.as_str()).bind(organization_id).bind(project_id).bind(delivery_id)
    }

    pub const PAGE: &'static str =
        "notification_deliveries d JOIN webhook_destinations w ON w.organization_id=d.organization_id AND w.project_id=d.project_id AND w.id=d.destination_id ";

    pub const PAGE_TAIL: &'static str = " ORDER BY d.created_at DESC,d.id DESC LIMIT $10";

    /// The conditions on a delivery of a page, besides the path.
    pub open spec fn page_filters() -> Seq<Condition> {
        seq![
            Condition::ComparedIfGiven("d.destination_id"@, Test::Equal, Kind::Uuid, 3),
            Condition::ComparedIfGiven("d.status"@, Test::Equal, Kind::Text, 4),
            Condition::ComparedIfGiven("d.source"@, Test::Equal, Kind::Text, 5),
            Condition::ComparedIfGiven("d.origin"@, Test::Equal, Kind::Text, 6),
            Condition::ComparedIfGiven("d.created_at"@, Test::From, Kind::Timestamp, 7),
            Condition::PairIfGiven(
                "d.created_at"@,
                "d.id"@,
                Test::Less,
                Kind::Timestamp,
                8,
                9,
            ),
        ]
    }

    /// A page of the project's deliveries, newest first, after the cursor
    /// when one is given, filtered by destination, status, source, origin and
    /// creation time.
    ///
    /// Selects the delivery with its destination's `destination_name` and
    /// `destination_enabled`; see [`Self::get`].
    pub fn page(
        organization_id: Uuid,
        project_id: Uuid,
        destination_id: Option<Uuid>,
        status: Option<&str>,
        source: Option<&str>,
        origin: Option<&str>,
        since: Option<Timestamp>,
        cursor_created_at: Option<Timestamp>,
        cursor_id: Option<Uuid>,
        fetch_limit: i64,
    ) -> (statement: Statement)
        ensures
            statement@ == StatementView::all(
                text::select_text(
                    Self::DELIVERY_COLUMNS@,
                    tenant::project_text(
                        Self::PAGE@,
                        Before::Where,
                        "d."@,
                        Layout::Tight,
                        After::And,
                        condition::all_text(Self::page_filters()) + Self::PAGE_TAIL@,
                    ),
                ),
                seq![
                    organization_id.bound(),
                    project_id.bound(),
                    destination_id.bound(),
                    status.bound(),
                    source.bound(),
                    origin.bound(),
                    since.bound(),
                    cursor_created_at.bound(),
                    cursor_id.bound(),
                    fetch_limit.bound(),
                ],
            ),
            tenant::filters_by_project(statement@, organization_id, project_id),
            text::gives(statement@.text, Self::DELIVERY_COLUMNS@),
    {
        let conditions = Conditions::new()
            .compared_if_given("d.destination_id", Test::Equal, Kind::Uuid, 3)
            .compared_if_given("d.status", Test::Equal, Kind::Text, 4)
            .compared_if_given("d.source", Test::Equal, Kind::Text, 5)
            .compared_if_given("d.origin", Test::Equal, Kind::Text, 6)
            .compared_if_given("d.created_at", Test::From, Kind::Timestamp, 7)
            .pair_if_given("d.created_at", "d.id", Test::Less, Kind::Timestamp, 8, 9);
        assert(conditions@ =~= Self::page_filters());
        let tail = conditions.into_text().concat(Self::PAGE_TAIL);
        let rows = tenant::project(
            Self::PAGE,
            Before::Where,
            "d.",
            Layout::Tight,
            After::And,
            tail.as_str(),
        );
        let text = text::select(Self::DELIVERY_COLUMNS, rows.as_str());
        Statement::all(text.as_str())
            .bind(organization_id)
            .bind(project_id)
            .bind(destination_id)
            .bind(status)
            .bind(source)
            .bind(origin)
            .bind(since)
            .bind(cursor_created_at)
            .bind(cursor_id)
            .bind(fetch_limit)
    }

    pub const ATTEMPTS: &'static str =
        "SELECT id,recovery_generation,attempt_number,started_at,finished_at,duration_ms,outcome,http_status,error_class,response_excerpt FROM notification_delivery_attempts ";

    pub const ATTEMPTS_TAIL: &'static str =
        "delivery_id=$3 ORDER BY recovery_generation DESC,attempt_number DESC LIMIT 100";

    /// A delivery's attempts in order.
    ///
    /// Selects `id`, `recovery_generation`, `attempt_number`, `started_at`,
    /// `finished_at`, `duration_ms`, `outcome`, `http_status`, `error_class`
    /// and `response_excerpt`.
    pub fn attempts(
        organization_id: Uuid,
        project_id: Uuid,
        delivery_id: Uuid,
    ) -> (statement: Statement)
        ensures
            statement@ == StatementView::all(
                tenant::project_text(
                    Self::ATTEMPTS@,
                    Before::Where,
                    ""@,
                    Layout::Tight,
                    After::And,
                    Self::ATTEMPTS_TAIL@,
                ),
                seq![organization_id.bound(), project_id.bound(), delivery_id.bound()],
            ),
            tenant::filters_by_project(statement@, organization_id, project_id),
    {
        let text = tenant::project(
            Self::ATTEMPTS,
            Before::Where,
            "",
            Layout::Tight,
            After::And,
            Self::ATTEMPTS_TAIL,
        );
        Statement::all(text.as_str()).bind(organization_id).bind(project_id).bind(delivery_id)
    }

    pub const GET: &'static str =
        "notification_deliveries d JOIN webhook_destinations w ON w.organization_id=d.organization_id AND w.project_id=d.project_id AND w.id=d.destination_id ";

    pub const GET_TAIL: &'static str = "d.id=$3";

    /// One delivery of the project with the columns of [`Self::page`].
    pub fn get(organization_id: Uuid, project_id: Uuid, delivery_id: Uuid) -> (statement: Statement)
        ensures
            statement@ == StatementView::optional(
                text::select_text(
                    Self::DELIVERY_COLUMNS@,
                    tenant::project_text(
                        Self::GET@,
                        Before::Where,
                        "d."@,
                        Layout::Tight,
                        After::And,
                        Self::GET_TAIL@,
                    ),
                ),
                seq![organization_id.bound(), project_id.bound(), delivery_id.bound()],
            ),
            tenant::filters_by_project(statement@, organization_id, project_id),
            text::gives(statement@.text, Self::DELIVERY_COLUMNS@),
    {
        let rows = tenant::project(
            Self::GET,
            Before::Where,
            "d.",
            Layout::Tight,
            After::And,
            Self::GET_TAIL,
        );
        let text = text::select(Self::DELIVERY_COLUMNS, rows.as_str());
        Statement::optional(text.as_str()).bind(organization_id).bind(project_id).bind(delivery_id)
    }

    /// Records one delivery attempt, finished now.
    pub fn insert_attempt(
        id: Uuid,
        organization_id: Uuid,
        project_id: Uuid,
        delivery_id: Uuid,
        recovery_generation: i32,
        attempt_number: i32,
        started_at: Timestamp,
        duration_ms: i64,
        outcome: &str,
        http_status: Option<i32>,
        error_class: Option<&str>,
        response_excerpt: Option<String>,
    ) -> (statement: Statement)
        ensures
            statement@ == insert::row(Style::Open, "notification_delivery_attempts"@)
                .set("id"@, id.bound())
                .set("organization_id"@, organization_id.bound())
                .set("project_id"@, project_id.bound())
                .set("delivery_id"@, delivery_id.bound())
                .set("recovery_generation"@, recovery_generation.bound())
                .set("attempt_number"@, attempt_number.bound())
                .set("started_at"@, started_at.bound())
                .computed("finished_at"@, "now()"@)
                .set("duration_ms"@, duration_ms.bound())
                .set("outcome"@, outcome.bound())
                .set("http_status"@, http_status.bound())
                .set("error_class"@, error_class.bound())
                .set("response_excerpt"@, response_excerpt.bound())
                .finish(""@, Fetch::Affected),
    {
        Row::new(Style::Open, "notification_delivery_attempts")
            .set("id", id)
            .set("organization_id", organization_id)
            .set("project_id", project_id)
            .set("delivery_id", delivery_id)
            .set("recovery_generation", recovery_generation)
            .set("attempt_number", attempt_number)
            .set("started_at", started_at)
            .computed("finished_at", "now()")
            .set("duration_ms", duration_ms)
            .set("outcome", outcome)
            .set("http_status", http_status)
            .set("error_class", error_class)
            .set("response_excerpt", response_excerpt)
            .finish("", Fetch::Affected)
    }

    /// The conditions on a delivery that an owner has leased.
    pub open spec fn leased() -> Seq<Condition> {
        seq![
            Condition::Compared("id"@, Test::Equal, 1),
            Condition::Compared("lease_owner"@, Test::Equal, 2),
        ]
    }

    /// The conditions on a delivery that an owner has leased.
    fn leased_text() -> (text: String)
        ensures
            text@ == condition::all_text(Self::leased()),
    {
        let conditions = Conditions::new()
            .compared("id", Test::Equal, 1)
            .compared("lease_owner", Test::Equal, 2);
        assert(conditions@ =~= Self::leased());
        conditions.into_text()
    }

    /// What scheduling a retry changes.
    pub open spec fn retrying() -> Seq<Change> {
        seq![
            Change::Word("status"@, "pending"@),
            Change::Given("attempt_count"@, 3),
            Change::After("available_at"@, 4),
            Change::Null("lease_owner"@),
            Change::Null("lease_expires_at"@),
            Change::Now("updated_at"@),
            Change::Given("last_error_class"@, 5),
            Change::Given("last_error"@, 5),
        ]
    }

    /// Returns a delivery leased to `lease_owner` to pending, due after
    /// `delay_seconds`, with its attempt count and last error.
    pub fn schedule_retry(
        delivery_id: Uuid,
        lease_owner: Uuid,
        attempt_count: i32,
        delay_seconds: i64,
        error_class: Option<&str>,
    ) -> (statement: Statement)
        ensures
            statement@ == StatementView::affected(
                "UPDATE notification_deliveries SET "@ + update::all_text(Self::retrying(), Form::Tight)
                    + " WHERE "@ + condition::all_text(Self::leased()),
                seq![
                    delivery_id.bound(),
                    lease_owner.bound(),
                    attempt_count.bound(),
                    delay_seconds.bound(),
                    error_class.bound(),
                ],
            ),
    {
        let changes = Changes::new(Form::Tight)
            .word("status", "pending")
            .given("attempt_count", 3)
            .after("available_at", 4)
            .null("lease_owner")
            .null("lease_expires_at")
            .now("updated_at")
            .given("last_error_class", 5)
            .given("last_error", 5);
        assert(changes@ =~= Self::retrying());
        let text = text::join("UPDATE notification_deliveries SET ", changes.into_text().as_str())
            .concat(" WHERE ")
            .concat(Self::leased_text().as_str());
        Statement::affected(text.as_str())
            .bind(delivery_id)
            .bind(lease_owner)
            .bind(attempt_count)
            .bind(delay_seconds)
            .bind(error_class)
    }

    /// What finishing a delivery changes.
    pub open spec fn finishing() -> Seq<Change> {
        seq![
            Change::Given("status"@, 3),
            Change::Given("attempt_count"@, 4),
            Change::Null("lease_owner"@),
            Change::Null("lease_expires_at"@),
            Change::Now("updated_at"@),
            Change::Now("terminal_at"@),
            Change::Given("last_error_class"@, 5),
            Change::Given("last_error"@, 5),
        ]
    }

    /// Ends a delivery leased to `lease_owner` with a terminal status.
    pub fn finish(
        delivery_id: Uuid,
        lease_owner: Uuid,
        status: &str,
        attempt_count: i32,
        error_class: Option<&str>,
    ) -> (statement: Statement)
        ensures
            statement@ == StatementView::affected(
                "UPDATE notification_deliveries SET "@ + update::all_text(Self::finishing(), Form::Tight)
                    + " WHERE "@ + condition::all_text(Self::leased()),
                seq![
                    delivery_id.bound(),
                    lease_owner.bound(),
                    status.bound(),
                    attempt_count.bound(),
                    error_class.bound(),
                ],
            ),
    {
        let changes = Changes::new(Form::Tight)
            .given("status", 3)
            .given("attempt_count", 4)
            .null("lease_owner")
            .null("lease_expires_at")
            .now("updated_at")
            .now("terminal_at")
            .given("last_error_class", 5)
            .given("last_error", 5);
        assert(changes@ =~= Self::finishing());
        let text = text::join("UPDATE notification_deliveries SET ", changes.into_text().as_str())
            .concat(" WHERE ")
            .concat(Self::leased_text().as_str());
        Statement::affected(text.as_str())
            .bind(delivery_id)
            .bind(lease_owner)
            .bind(status)
            .bind(attempt_count)
            .bind(error_class)
    }

    /// What disabling its destination changes in a delivery.
    pub open spec fn disabling() -> Seq<Change> {
        seq![
            Change::Word("status"@, "cancelled"@),
            Change::Now("terminal_at"@),
            Change::Now("updated_at"@),
            Change::Null("lease_owner"@),
            Change::Null("lease_expires_at"@),
            Change::Word("last_error_class"@, "destination_disabled"@),
            Change::Word("last_error"@, "destination disabled before delivery"@),
        ]
    }

    /// The conditions on an open delivery to a destination, besides the project.
    pub open spec fn open_to_destination() -> Seq<Condition> {
        seq![
            Condition::Compared("destination_id"@, Test::Equal, 3),
            Condition::EitherWord("status"@, "pending"@, "in_flight"@),
        ]
    }

    /// Cancels the destination's pending and in-flight deliveries because it
    /// was disabled.
    pub fn cancel_for_destination(
        organization_id: Uuid,
        project_id: Uuid,
        destination_id: Uuid,
    ) -> (statement: Statement)
        ensures
            statement@ == StatementView::affected(
                tenant::project_text(
                    "UPDATE notification_deliveries SET "@ + update::all_text(Self::disabling(), Form::Tight) + " "@,
                    Before::Where,
                    ""@,
                    Layout::Tight,
                    After::And,
                    condition::all_text(Self::open_to_destination()),
                ),
                seq![organization_id.bound(), project_id.bound(), destination_id.bound()],
            ),
            tenant::filters_by_project(statement@, organization_id, project_id),
    {
        let changes = Changes::new(Form::Tight)
            .word("status", "cancelled")
            .now("terminal_at")
            .now("updated_at")
            .null("lease_owner")
            .null("lease_expires_at")
            .word("last_error_class", "destination_disabled")
            .word("last_error", "destination disabled before delivery");
        let conditions = Conditions::new()
            .compared("destination_id", Test::Equal, 3)
            .either_word("status", "pending", "in_flight");
        assert(changes@ =~= Self::disabling());
        assert(conditions@ =~= Self::open_to_destination());
        let head = text::join(
            "UPDATE notification_deliveries SET ",
            changes.into_text().as_str(),
        ).concat(" ");
        let tail = conditions.into_text();
        let text = tenant::project(
            head.as_str(),
            Before::Where,
            "",
            Layout::Tight,
            After::And,
            tail.as_str(),
        );
        Statement::affected(text.as_str())
            .bind(organization_id)
            .bind(project_id)
            .bind(destination_id)
    }
}

/// The count is of what a retry would select without a limit: both read the
/// same failed deliveries, by the same values; the selection only adds an
/// order and its limit.
pub proof fn count_matches_selection(
    organization_id: Uuid,
    project_id: Uuid,
    destination_id: Option<Uuid>,
    failed_before: Option<Timestamp>,
    failed_after: Option<Timestamp>,
    error_class: Option<&str>,
    limit: i64,
)
    ensures
        ({
            let selected = NotificationDeliveryRepository::selecting_failed(
                organization_id,
                project_id,
                destination_id,
                failed_before,
                failed_after,
                error_class,
                limit,
            );
            let counted = NotificationDeliveryRepository::counting_failed(
                organization_id,
                project_id,
                destination_id,
                failed_before,
                failed_after,
                error_class,
            );
            let failed = NotificationDeliveryRepository::failed_text();
            &&& counted.text == text::select_text("count(*)"@, failed)
            &&& text::select_text(NotificationDeliveryRepository::RETRY_COLUMNS@, failed).is_prefix_of(
                selected.text,
            )
            &&& selected.parameters.drop_last() == counted.parameters
            &&& selected.parameters.last() == limit.bound()
        }),
{
    let counted = NotificationDeliveryRepository::failed_values(
        organization_id,
        project_id,
        destination_id,
        failed_before,
        failed_after,
        error_class,
    );
    assert(counted.push(limit.bound()).drop_last() =~= counted);
}

/// Whether a delivery, beside its destination, is one that can be retried: it
/// is a failed one of the project, its destination is enabled, and it is what
/// each filter asks for that is given.
pub open spec fn can_be_retried(
    delivery: Record,
    organization_id: Uuid,
    project_id: Uuid,
    destination_id: Option<Uuid>,
    failed_before: Option<Timestamp>,
    failed_after: Option<Timestamp>,
    error_class: Option<&str>,
    database: Database,
) -> bool {
    let ended = delivery["d.terminal_at"@];
    &&& condition::has(delivery, "d.organization_id"@, organization_id.bound())
    &&& condition::has(delivery, "d.project_id"@, project_id.bound())
    &&& condition::has(delivery, "d.status"@, Bound::Text(Some("failed"@)))
    &&& condition::has(delivery, "w.enabled"@, Bound::Boolean(Some(true)))
    &&& destination_id is Some ==> condition::has(
        delivery,
        "d.destination_id"@,
        destination_id.bound(),
    )
    &&& failed_before is Some || failed_after is Some ==> !condition::lacks(
        delivery,
        "d.terminal_at"@,
    )
    &&& failed_before is Some ==> (database.less)(ended, failed_before.bound())
    &&& failed_after is Some ==> !(database.less)(ended, failed_after.bound())
    &&& error_class is Some ==> condition::has(delivery, "d.last_error_class"@, error_class.bound())
}

/// The count is of the deliveries that can be retried, and the retry takes as
/// many of them as its limit lets through. This is of deliveries that no other
/// transaction holds: those the retry skips.
pub proof fn retry_takes_what_is_counted(
    deliveries: Seq<Record>,
    organization_id: Uuid,
    project_id: Uuid,
    destination_id: Option<Uuid>,
    failed_before: Option<Timestamp>,
    failed_after: Option<Timestamp>,
    error_class: Option<&str>,
    limit: i64,
    database: Database,
)
    requires
        limit >= 0,
    ensures
        ({
            let conditions = NotificationDeliveryRepository::failed_conditions();
            let counting = NotificationDeliveryRepository::counting_failed(
                organization_id,
                project_id,
                destination_id,
                failed_before,
                failed_after,
                error_class,
            );
            let selecting = NotificationDeliveryRepository::selecting_failed(
                organization_id,
                project_id,
                destination_id,
                failed_before,
                failed_after,
                error_class,
                limit,
            );
            let counted = condition::selected(
                conditions,
                deliveries,
                counting.parameters,
                database,
            );
            let taken = condition::limited(
                condition::selected(conditions, deliveries, selecting.parameters, database),
                limit as nat,
            );
            &&& taken.len() == if counted.len() <= limit {
                counted.len()
            } else {
                limit as nat
            }
            &&& counted == deliveries.filter(
                |delivery: Record|
                    can_be_retried(
                        delivery,
                        organization_id,
                        project_id,
                        destination_id,
                        failed_before,
                        failed_after,
                        error_class,
                        database,
                    ),
            )
        }),
{
    let conditions = NotificationDeliveryRepository::failed_conditions();
    let values = NotificationDeliveryRepository::failed_values(
        organization_id,
        project_id,
        destination_id,
        failed_before,
        failed_after,
        error_class,
    );
    let more = values.push(limit.bound());
    let counts = |delivery: Record| condition::selects(conditions, delivery, values, database);
    let takes = |delivery: Record| condition::selects(conditions, delivery, more, database);
    let retried = |delivery: Record|
        can_be_retried(
            delivery,
            organization_id,
            project_id,
            destination_id,
            failed_before,
            failed_after,
            error_class,
            database,
        );
    assert forall|delivery: Record| #[trigger] counts(delivery) == retried(delivery) && takes(
        delivery,
    ) == retried(delivery) by {
        lemma_selects_what_can_be_retried(
            delivery,
            values,
            organization_id,
            project_id,
            destination_id,
            failed_before,
            failed_after,
            error_class,
            database,
        );
        lemma_selects_what_can_be_retried(
            delivery,
            more,
            organization_id,
            project_id,
            destination_id,
            failed_before,
            failed_after,
            error_class,
            database,
        );
    }
    assert(counts =~= retried);
    assert(takes =~= retried);
}

/// The conditions select the deliveries that can be retried.
proof fn lemma_selects_what_can_be_retried(
    delivery: Record,
    values: Seq<Bound>,
    organization_id: Uuid,
    project_id: Uuid,
    destination_id: Option<Uuid>,
    failed_before: Option<Timestamp>,
    failed_after: Option<Timestamp>,
    error_class: Option<&str>,
    database: Database,
)
    requires
        NotificationDeliveryRepository::failed_values(
            organization_id,
            project_id,
            destination_id,
            failed_before,
            failed_after,
            error_class,
        ).is_prefix_of(values),
    ensures
        condition::selects(
            NotificationDeliveryRepository::failed_conditions(),
            delivery,
            values,
            database,
        ) == can_be_retried(
            delivery,
            organization_id,
            project_id,
            destination_id,
            failed_before,
            failed_after,
            error_class,
            database,
        ),
{
    let conditions = NotificationDeliveryRepository::failed_conditions();
    let filters = NotificationDeliveryRepository::failed_filters();
    let given = NotificationDeliveryRepository::failed_values(
        organization_id,
        project_id,
        destination_id,
        failed_before,
        failed_after,
        error_class,
    );
    reveal_strlit("d.");
    reveal_strlit("organization_id");
    reveal_strlit("project_id");
    reveal_strlit("d.organization_id");
    reveal_strlit("d.project_id");
    assert("d."@ + "organization_id"@ =~= "d.organization_id"@);
    assert("d."@ + "project_id"@ =~= "d.project_id"@);
    assert(conditions.len() == 8);
    assert(conditions[0] == Condition::Compared("d.organization_id"@, Test::Equal, 1));
    assert(conditions[1] == Condition::Compared("d.project_id"@, Test::Equal, 2));
    assert(conditions[2] == filters[0]);
    assert(conditions[3] == filters[1]);
    assert(conditions[4] == filters[2]);
    assert(conditions[5] == filters[3]);
    assert(conditions[6] == filters[4]);
    assert(conditions[7] == filters[5]);
    assert(forall|i: int| 0 <= i < 6 ==> values[i] == #[trigger] given[i]);
}

/// Only a failed delivery is requeued: it is pending then, and not requeued
/// again.
pub proof fn only_a_failed_delivery_is_requeued(
    delivery: Record,
    values: Seq<Bound>,
    delivery_id: Uuid,
    database: Database,
)
    requires
        values.len() == 5,
        values[2] == delivery_id.bound(),
    ensures
        ({
            let conditions = NotificationDeliveryRepository::is_failed();
            let after = update::changed(
                NotificationDeliveryRepository::requeueing(),
                delivery,
                values,
                database,
            );
            &&& condition::selects(conditions, delivery, values, database) <==> {
                &&& condition::has(delivery, "id"@, delivery_id.bound())
                &&& condition::has(delivery, "status"@, Bound::Text(Some("failed"@)))
            }
            &&& condition::has(after, "status"@, Bound::Text(Some("pending"@)))
            &&& !condition::selects(conditions, after, values, database)
        }),
{
    reveal_strlit("status");
    reveal_strlit("recovery_generation");
    reveal_strlit("attempt_count");
    reveal_strlit("available_at");
    reveal_strlit("lease_owner");
    reveal_strlit("lease_expires_at");
    reveal_strlit("terminal_at");
    reveal_strlit("last_error_class");
    reveal_strlit("last_error");
    reveal_strlit("last_recovery_operation_id");
    reveal_strlit("updated_at");
    reveal_strlit("failed");
    reveal_strlit("pending");
    let changes = NotificationDeliveryRepository::requeueing();
    let conditions = NotificationDeliveryRepository::is_failed();
    assert(changes[0].column().len() == 6);
    assert(changes[1].column().len() != 6 && changes[2].column().len() != 6);
    assert(changes[3].column().len() != 6 && changes[4].column().len() != 6);
    assert(changes[5].column().len() != 6 && changes[6].column().len() != 6);
    assert(changes[7].column().len() != 6 && changes[8].column().len() != 6);
    assert(changes[9].column().len() != 6 && changes[10].column().len() != 6);
    update::changed_column(changes, delivery, values, database, 0);
    let after = update::changed(changes, delivery, values, database);
    assert("failed"@.len() != "pending"@.len());
    assert(!conditions[1].holds(after, values, database));
    assert(condition::selects(conditions, delivery, values, database) <==> {
        &&& conditions[0].holds(delivery, values, database)
        &&& conditions[1].holds(delivery, values, database)
    });
}

/// Only a pending delivery that nobody has leased is cancelled: it is not
/// pending then, and neither cancelled nor requeued.
pub proof fn only_a_waiting_delivery_is_cancelled(
    delivery: Record,
    values: Seq<Bound>,
    delivery_id: Uuid,
    database: Database,
)
    requires
        values.len() == 4,
        values[2] == delivery_id.bound(),
    ensures
        ({
            let conditions = NotificationDeliveryRepository::is_waiting();
            let after = update::changed(
                NotificationDeliveryRepository::cancellation(),
                delivery,
                values,
                database,
            );
            &&& condition::selects(conditions, delivery, values, database) <==> {
                &&& condition::has(delivery, "id"@, delivery_id.bound())
                &&& condition::has(delivery, "status"@, Bound::Text(Some("pending"@)))
                &&& condition::lacks(delivery, "lease_owner"@)
                &&& condition::lacks(delivery, "lease_expires_at"@)
            }
            &&& condition::has(after, "status"@, Bound::Text(Some("cancelled"@)))
            &&& !condition::selects(conditions, after, values, database)
            &&& !condition::selects(
                NotificationDeliveryRepository::is_failed(),
                after,
                values,
                database,
            )
        }),
{
    reveal_strlit("status");
    reveal_strlit("terminal_at");
    reveal_strlit("last_error_class");
    reveal_strlit("last_error");
    reveal_strlit("last_recovery_operation_id");
    reveal_strlit("updated_at");
    reveal_strlit("cancelled");
    reveal_strlit("pending");
    reveal_strlit("failed");
    let changes = NotificationDeliveryRepository::cancellation();
    let conditions = NotificationDeliveryRepository::is_waiting();
    let failed = NotificationDeliveryRepository::is_failed();
    assert(changes[0].column().len() == 6);
    assert(changes[1].column().len() != 6 && changes[2].column().len() != 6);
    assert(changes[3].column().len() != 6 && changes[4].column().len() != 6);
    assert(changes[5].column().len() != 6);
    update::changed_column(changes, delivery, values, database, 0);
    let after = update::changed(changes, delivery, values, database);
    assert("cancelled"@.len() == 9 && "pending"@.len() == 7 && "failed"@.len() == 6);
    assert(!conditions[1].holds(after, values, database));
    assert(!failed[1].holds(after, values, database));
    assert(condition::selects(conditions, delivery, values, database) <==> {
        &&& conditions[0].holds(delivery, values, database)
        &&& conditions[1].holds(delivery, values, database)
        &&& conditions[2].holds(delivery, values, database)
        &&& conditions[3].holds(delivery, values, database)
    });
}

/// Only the owner that has leased a delivery schedules its retry or ends it.
pub proof fn delivery_is_its_owners(
    delivery: Record,
    values: Seq<Bound>,
    delivery_id: Uuid,
    lease_owner: Uuid,
    database: Database,
)
    requires
        values.len() == 5,
        values[0] == delivery_id.bound(),
        values[1] == lease_owner.bound(),
    ensures
        condition::selects(
            NotificationDeliveryRepository::leased(),
            delivery,
            values,
            database,
        ) <==> {
            &&& condition::has(delivery, "id"@, delivery_id.bound())
            &&& condition::has(delivery, "lease_owner"@, lease_owner.bound())
        },
{
    let conditions = NotificationDeliveryRepository::leased();
    assert(condition::selects(conditions, delivery, values, database) <==> {
        &&& conditions[0].holds(delivery, values, database)
        &&& conditions[1].holds(delivery, values, database)
    });
}

/// A requeued delivery starts afresh, whatever it held before: it is pending and
/// due now, without an attempt, a lease, an end or an error, under the given
/// recovery generation and operation. Nothing else of it changes.
pub proof fn requeued_delivery_starts_afresh(
    delivery: Record,
    organization_id: Uuid,
    project_id: Uuid,
    delivery_id: Uuid,
    recovery_generation: i32,
    operation_id: Uuid,
    database: Database,
)
    ensures
        update::changed(
            NotificationDeliveryRepository::requeueing(),
            delivery,
            seq![
                organization_id.bound(),
                project_id.bound(),
                delivery_id.bound(),
                recovery_generation.bound(),
                operation_id.bound(),
            ],
            database,
        ) == delivery.insert("status"@, Bound::Text(Some("pending"@)))
            .insert("recovery_generation"@, Bound::Integer(Some(recovery_generation)))
            .insert("attempt_count"@, Bound::Integer(Some(0)))
            .insert("available_at"@, database.now)
            .remove("lease_owner"@)
            .remove("lease_expires_at"@)
            .remove("terminal_at"@)
            .remove("last_error_class"@)
            .remove("last_error"@)
            .insert("last_recovery_operation_id"@, Bound::Uuid(Some(operation_id)))
            .insert("updated_at"@, database.now),
{
    broadcast use update::first_changes;

    let changes = NotificationDeliveryRepository::requeueing();
    assert(changes =~= changes.take(changes.len() as int));
}

/// A cancelled delivery ends now, with the error that says why and under the
/// given operation. Nothing else of it changes.
pub proof fn cancelled_delivery_ends(
    delivery: Record,
    organization_id: Uuid,
    project_id: Uuid,
    delivery_id: Uuid,
    operation_id: Uuid,
    database: Database,
)
    ensures
        update::changed(
            NotificationDeliveryRepository::cancellation(),
            delivery,
            seq![
                organization_id.bound(),
                project_id.bound(),
                delivery_id.bound(),
                operation_id.bound(),
            ],
            database,
        ) == delivery.insert("status"@, Bound::Text(Some("cancelled"@)))
            .insert("terminal_at"@, database.now)
            .insert("last_error_class"@, Bound::Text(Some("user_cancelled"@)))
            .insert(
                "last_error"@,
                Bound::Text(Some("delivery cancelled by authenticated project user"@)),
            )
            .insert("last_recovery_operation_id"@, Bound::Uuid(Some(operation_id)))
            .insert("updated_at"@, database.now),
{
    broadcast use update::first_changes;

    let changes = NotificationDeliveryRepository::cancellation();
    assert(changes =~= changes.take(changes.len() as int));
}

/// The queue of a project counts the project's destinations and deliveries, and all of
/// them.
pub proof fn project_queue_counts_the_project()
    ensures
        NotificationDeliveryRepository::project_queue_text()
            == NotificationDeliveryRepository::DESTINATION_COUNT@ + "WHERE "@
                + tenant::project_filter(""@, Layout::Tight, Start::First) + " AND "@
                + NotificationDeliveryRepository::QUEUE_SNAPSHOT@ + " WHERE "@
                + tenant::project_filter(""@, Layout::Tight, Start::First),
{
    reveal_strlit("");
    assert(" "@ + "WHERE "@ =~= " WHERE "@) by {
        reveal_strlit(" ");
        reveal_strlit("WHERE ");
        reveal_strlit(" WHERE ");
    }
    assert(NotificationDeliveryRepository::project_queue_text()
        =~= NotificationDeliveryRepository::DESTINATION_COUNT@ + "WHERE "@
            + tenant::project_filter(""@, Layout::Tight, Start::First) + " AND "@
            + NotificationDeliveryRepository::QUEUE_SNAPSHOT@ + " WHERE "@
            + tenant::project_filter(""@, Layout::Tight, Start::First));
}

/// A delivery whose retry is scheduled is pending, due after the delay, with
/// the attempts and the error that are given and without a lease; nothing else
/// of it changes.
pub proof fn retried_delivery_is_due_later(
    delivery: Record,
    delivery_id: Uuid,
    lease_owner: Uuid,
    attempt_count: i32,
    delay_seconds: i64,
    error_class: Option<&str>,
    database: Database,
)
    ensures
        ({
            let values: Seq<Bound> = seq![
                delivery_id.bound(),
                lease_owner.bound(),
                attempt_count.bound(),
                delay_seconds.bound(),
                error_class.bound(),
            ];
            &&& update::changed(
                NotificationDeliveryRepository::retrying(),
                delivery,
                values,
                database,
            ) == delivery
                .insert("status"@, Bound::Text(Some("pending"@)))
                .insert("attempt_count"@, attempt_count.bound())
                .insert("available_at"@, (database.later)(delay_seconds.bound()))
                .remove("lease_owner"@)
                .remove("lease_expires_at"@)
                .insert("updated_at"@, database.now)
                .insert("last_error_class"@, error_class.bound())
                .insert("last_error"@, error_class.bound())
        }),
{
    broadcast use update::first_changes;

    let values: Seq<Bound> = seq![
        delivery_id.bound(),
        lease_owner.bound(),
        attempt_count.bound(),
        delay_seconds.bound(),
        error_class.bound(),
    ];
    let changes = NotificationDeliveryRepository::retrying();
    assert(changes =~= changes.take(changes.len() as int));
}

/// A finished delivery has the given status, attempts and error, ends now, and
/// is not leased; nothing else of it changes.
pub proof fn finished_delivery_ends(
    delivery: Record,
    delivery_id: Uuid,
    lease_owner: Uuid,
    status: &str,
    attempt_count: i32,
    error_class: Option<&str>,
    database: Database,
)
    ensures
        ({
            let values: Seq<Bound> = seq![
                delivery_id.bound(),
                lease_owner.bound(),
                status.bound(),
                attempt_count.bound(),
                error_class.bound(),
            ];
            &&& update::changed(
                NotificationDeliveryRepository::finishing(),
                delivery,
                values,
                database,
            ) == delivery
                .insert("status"@, status.bound())
                .insert("attempt_count"@, attempt_count.bound())
                .remove("lease_owner"@)
                .remove("lease_expires_at"@)
                .insert("updated_at"@, database.now)
                .insert("terminal_at"@, database.now)
                .insert("last_error_class"@, error_class.bound())
                .insert("last_error"@, error_class.bound())
        }),
{
    broadcast use update::first_changes;

    let values: Seq<Bound> = seq![
        delivery_id.bound(),
        lease_owner.bound(),
        status.bound(),
        attempt_count.bound(),
        error_class.bound(),
    ];
    let changes = NotificationDeliveryRepository::finishing();
    assert(changes =~= changes.take(changes.len() as int));
}

/// A delivery to the destination is cancelled exactly where it is pending or in
/// flight: it ends now, without a lease and with the error that says why, and
/// nothing else of it changes.
pub proof fn open_deliveries_of_a_disabled_destination_end(
    delivery: Record,
    organization_id: Uuid,
    project_id: Uuid,
    destination_id: Uuid,
    database: Database,
)
    ensures
        ({
            let values: Seq<Bound> = seq![
                organization_id.bound(),
                project_id.bound(),
                destination_id.bound(),
            ];
            &&& condition::selects(
                NotificationDeliveryRepository::open_to_destination(),
                delivery,
                values,
                database,
            ) <==> {
                &&& condition::has(delivery, "destination_id"@, destination_id.bound())
                &&& {
                    ||| condition::has(delivery, "status"@, Bound::Text(Some("pending"@)))
                    ||| condition::has(delivery, "status"@, Bound::Text(Some("in_flight"@)))
                }
            }
            &&& update::changed(
                NotificationDeliveryRepository::disabling(),
                delivery,
                values,
                database,
            ) == delivery
                .insert("status"@, Bound::Text(Some("cancelled"@)))
                .insert("terminal_at"@, database.now)
                .insert("updated_at"@, database.now)
                .remove("lease_owner"@)
                .remove("lease_expires_at"@)
                .insert("last_error_class"@, Bound::Text(Some("destination_disabled"@)))
                .insert("last_error"@, Bound::Text(Some("destination disabled before delivery"@)))
        }),
{
    broadcast use update::first_changes;

    let values: Seq<Bound> = seq![
        organization_id.bound(),
        project_id.bound(),
        destination_id.bound(),
    ];
    let changes = NotificationDeliveryRepository::disabling();
    assert(changes =~= changes.take(changes.len() as int));
    let conditions = NotificationDeliveryRepository::open_to_destination();
    assert(condition::selects(conditions, delivery, values, database) <==> {
        &&& conditions[0].holds(delivery, values, database)
        &&& conditions[1].holds(delivery, values, database)
    });
}

/// A delivery can be claimed exactly where it is pending and its time has come,
/// or it is in flight under a lease that has run out.
pub proof fn delivery_is_claimed_when_it_is_due(
    delivery: Record,
    limit: i64,
    lease_owner: Uuid,
    lease_seconds: i64,
    database: Database,
)
    ensures
        condition::selects(
            NotificationDeliveryRepository::claimable(),
            delivery,
            seq![limit.bound(), lease_owner.bound(), lease_seconds.bound()],
            database,
        ) <==> {
            ||| {
                &&& condition::has(delivery, "status"@, Bound::Text(Some("pending"@)))
                &&& !condition::lacks(delivery, "available_at"@)
                &&& !(database.less)(database.now, delivery["available_at"@])
            }
            ||| {
                &&& condition::has(delivery, "status"@, Bound::Text(Some("in_flight"@)))
                &&& !condition::lacks(delivery, "lease_expires_at"@)
                &&& !(database.less)(database.now, delivery["lease_expires_at"@])
            }
        },
{
    let conditions = NotificationDeliveryRepository::claimable();
    let values: Seq<Bound> = seq![limit.bound(), lease_owner.bound(), lease_seconds.bound()];
    assert(condition::selects(conditions, delivery, values, database)
        <==> conditions[0].holds(delivery, values, database));
}

/// A claimed delivery is in flight, leased to the owner for the given seconds,
/// and nothing else of it changes but when it did.
pub proof fn claimed_delivery_is_leased(
    delivery: Record,
    limit: i64,
    lease_owner: Uuid,
    lease_seconds: i64,
    database: Database,
)
    ensures
        update::changed(
            NotificationDeliveryRepository::claiming(),
            delivery,
            seq![limit.bound(), lease_owner.bound(), lease_seconds.bound()],
            database,
        ) == delivery.insert("status"@, Bound::Text(Some("in_flight"@)))
            .insert("lease_owner"@, lease_owner.bound())
            .insert("lease_expires_at"@, (database.later)(lease_seconds.bound()))
            .insert("updated_at"@, database.now),
{
    broadcast use update::first_changes;

    let changes = NotificationDeliveryRepository::claiming();
    assert(changes =~= changes.take(changes.len() as int));
}

/// A failed delivery is counted and retried exactly where it is one of the
/// project to an enabled destination, and is what each filter asks for that is
/// given.
pub proof fn failed_delivery_is_retried_by_the_given_filters(
    delivery: Record,
    organization_id: Uuid,
    project_id: Uuid,
    destination_id: Option<Uuid>,
    failed_before: Option<Timestamp>,
    failed_after: Option<Timestamp>,
    error_class: Option<&str>,
    database: Database,
)
    ensures
        ({
            let counting = NotificationDeliveryRepository::counting_failed(
                organization_id,
                project_id,
                destination_id,
                failed_before,
                failed_after,
                error_class,
            );
            let ended = delivery["d.terminal_at"@];
            condition::selects(
                NotificationDeliveryRepository::failed_conditions(),
                delivery,
                counting.parameters,
                database,
            ) <==> {
                &&& condition::has(delivery, "d.organization_id"@, organization_id.bound())
                &&& condition::has(delivery, "d.project_id"@, project_id.bound())
                &&& condition::has(delivery, "d.status"@, Bound::Text(Some("failed"@)))
                &&& condition::has(delivery, "w.enabled"@, Bound::Boolean(Some(true)))
                &&& destination_id is Some ==> condition::has(
                    delivery,
                    "d.destination_id"@,
                    destination_id.bound(),
                )
                &&& failed_before is Some || failed_after is Some ==> !condition::lacks(
                    delivery,
                    "d.terminal_at"@,
                )
                &&& failed_before is Some ==> (database.less)(ended, failed_before.bound())
                &&& failed_after is Some ==> !(database.less)(ended, failed_after.bound())
                &&& error_class is Some ==> condition::has(
                    delivery,
                    "d.last_error_class"@,
                    error_class.bound(),
                )
            }
        }),
{
    let values = NotificationDeliveryRepository::failed_values(
        organization_id,
        project_id,
        destination_id,
        failed_before,
        failed_after,
        error_class,
    );
    lemma_selects_what_can_be_retried(
        delivery,
        values,
        organization_id,
        project_id,
        destination_id,
        failed_before,
        failed_after,
        error_class,
        database,
    );
}

/// A delivery is on the page exactly where it is what each filter asks for that
/// is given, and comes behind the cursor, or no cursor is given.
pub proof fn page_holds_the_deliveries_asked_for(
    delivery: Record,
    organization_id: Uuid,
    project_id: Uuid,
    destination_id: Option<Uuid>,
    status: Option<&str>,
    source: Option<&str>,
    origin: Option<&str>,
    since: Option<Timestamp>,
    cursor_created_at: Option<Timestamp>,
    cursor_id: Option<Uuid>,
    fetch_limit: i64,
    database: Database,
)
    ensures
        ({
            let values: Seq<Bound> = seq![
                organization_id.bound(),
                project_id.bound(),
                destination_id.bound(),
                status.bound(),
                source.bound(),
                origin.bound(),
                since.bound(),
                cursor_created_at.bound(),
                cursor_id.bound(),
                fetch_limit.bound(),
            ];
            condition::selects(
                NotificationDeliveryRepository::page_filters(),
                delivery,
                values,
                database,
            ) <==> {
                &&& destination_id is Some ==> condition::has(
                    delivery,
                    "d.destination_id"@,
                    destination_id.bound(),
                )
                &&& status is Some ==> condition::has(delivery, "d.status"@, status.bound())
                &&& source is Some ==> condition::has(delivery, "d.source"@, source.bound())
                &&& origin is Some ==> condition::has(delivery, "d.origin"@, origin.bound())
                &&& since is Some ==> {
                    &&& !condition::lacks(delivery, "d.created_at"@)
                    &&& !(database.less)(delivery["d.created_at"@], since.bound())
                }
                &&& cursor_created_at is Some ==> {
                    &&& !condition::lacks(delivery, "d.created_at"@)
                    &&& {
                        ||| {
                            &&& delivery["d.created_at"@] != cursor_created_at.bound()
                            &&& (database.less)(
                                delivery["d.created_at"@],
                                cursor_created_at.bound(),
                            )
                        }
                        ||| {
                            &&& delivery["d.created_at"@] == cursor_created_at.bound()
                            &&& cursor_id is Some
                            &&& !condition::lacks(delivery, "d.id"@)
                            &&& (database.less)(delivery["d.id"@], cursor_id.bound())
                        }
                    }
                }
            }
        }),
{
    let values: Seq<Bound> = seq![
        organization_id.bound(),
        project_id.bound(),
        destination_id.bound(),
        status.bound(),
        source.bound(),
        origin.bound(),
        since.bound(),
        cursor_created_at.bound(),
        cursor_id.bound(),
        fetch_limit.bound(),
    ];
    let conditions = NotificationDeliveryRepository::page_filters();
    assert(condition::selects(conditions, delivery, values, database) <==> {
        &&& conditions[0].holds(delivery, values, database)
        &&& conditions[1].holds(delivery, values, database)
        &&& conditions[2].holds(delivery, values, database)
        &&& conditions[3].holds(delivery, values, database)
        &&& conditions[4].holds(delivery, values, database)
        &&& conditions[5].holds(delivery, values, database)
    });
}

/// A delivery that is requeued can be claimed at once. One whose retry is
/// scheduled can be claimed again when it is due, and a claimed one when its lease
/// has run out. One that is cancelled, or whose destination is disabled, is never
/// claimed again, and neither is one that is finished with a status that says so.
pub proof fn delivery_is_claimed_only_while_it_is_open(
    delivery: Record,
    values: Seq<Bound>,
    ids: Seq<Bound>,
    limit: i64,
    lease_owner: Uuid,
    lease_seconds: i64,
    database: Database,
)
    requires
        values.len() >= 5,
        !condition::is_null(database.now),
        !(database.less)(database.now, database.now),
        !condition::is_null((database.later)(values[3])),
        !condition::is_null((database.later)(lease_seconds.bound())),
    ensures
        ({
            let claim: Seq<Bound> = seq![limit.bound(), lease_owner.bound(), lease_seconds.bound()];
            let claimed = |after: Record|
                condition::selects(
                    NotificationDeliveryRepository::claimable(),
                    after,
                    claim,
                    database,
                );
            let after = |changes: Seq<Change>, given: Seq<Bound>|
                update::changed(changes, delivery, given, database);
            &&& claimed(after(NotificationDeliveryRepository::requeueing(), values))
            &&& claimed(after(NotificationDeliveryRepository::retrying(), values)) <==> !(
            database.less)(database.now, (database.later)(values[3]))
            &&& claimed(after(NotificationDeliveryRepository::claiming(), claim)) <==> !(
            database.less)(database.now, (database.later)(lease_seconds.bound()))
            &&& !claimed(after(NotificationDeliveryRepository::cancellation(), values))
            &&& !claimed(after(NotificationDeliveryRepository::disabling(), ids))
            &&& {
                &&& values[2] != Bound::Text(Some("pending"@))
                &&& values[2] != Bound::Text(Some("in_flight"@))
            } ==> !claimed(after(NotificationDeliveryRepository::finishing(), values))
        }),
{
    let claim: Seq<Bound> = seq![limit.bound(), lease_owner.bound(), lease_seconds.bound()];
    lemma_open_after(delivery, values, claim, database);
    lemma_ended_after(delivery, values, ids, database);
    let after = |changes: Seq<Change>, given: Seq<Bound>|
        update::changed(changes, delivery, given, database);
    let requeued = after(NotificationDeliveryRepository::requeueing(), values);
    let retried = after(NotificationDeliveryRepository::retrying(), values);
    let claimed = after(NotificationDeliveryRepository::claiming(), claim);
    let cancelled = after(NotificationDeliveryRepository::cancellation(), values);
    let disabled = after(NotificationDeliveryRepository::disabling(), ids);
    let finished = after(NotificationDeliveryRepository::finishing(), values);
    delivery_is_claimed_when_it_is_due(requeued, limit, lease_owner, lease_seconds, database);
    delivery_is_claimed_when_it_is_due(retried, limit, lease_owner, lease_seconds, database);
    delivery_is_claimed_when_it_is_due(claimed, limit, lease_owner, lease_seconds, database);
    delivery_is_claimed_when_it_is_due(cancelled, limit, lease_owner, lease_seconds, database);
    delivery_is_claimed_when_it_is_due(disabled, limit, lease_owner, lease_seconds, database);
    delivery_is_claimed_when_it_is_due(finished, limit, lease_owner, lease_seconds, database);
    assert("pending"@.len() == 7 && "in_flight"@.len() == 9 && "cancelled"@.len() == 9) by {
        reveal_strlit("pending");
        reveal_strlit("in_flight");
        reveal_strlit("cancelled");
    }
    assert("in_flight"@[0] == 'i' && "cancelled"@[0] == 'c') by {
        reveal_strlit("in_flight");
        reveal_strlit("cancelled");
    }
}

/// What the columns that a claim reads hold once a delivery is open again.
proof fn lemma_open_after(
    delivery: Record,
    values: Seq<Bound>,
    claim: Seq<Bound>,
    database: Database,
)
    requires
        values.len() >= 5,
        claim.len() == 3,
    ensures
        ({
            let after = |changes: Seq<Change>, given: Seq<Bound>|
                update::changed(changes, delivery, given, database);
            let requeued = after(NotificationDeliveryRepository::requeueing(), values);
            let retried = after(NotificationDeliveryRepository::retrying(), values);
            let claimed = after(NotificationDeliveryRepository::claiming(), claim);
            &&& condition::has(requeued, "status"@, Bound::Text(Some("pending"@)))
            &&& condition::has(requeued, "available_at"@, database.now)
            &&& condition::has(retried, "status"@, Bound::Text(Some("pending"@)))
            &&& condition::has(retried, "available_at"@, (database.later)(values[3]))
            &&& condition::has(claimed, "status"@, Bound::Text(Some("in_flight"@)))
            &&& condition::has(claimed, "lease_expires_at"@, (database.later)(claim[2]))
        }),
{
    broadcast use update::first_changes;

    let requeueing = NotificationDeliveryRepository::requeueing();
    let retrying = NotificationDeliveryRepository::retrying();
    let claiming = NotificationDeliveryRepository::claiming();
    assert(requeueing =~= requeueing.take(requeueing.len() as int));
    assert(retrying =~= retrying.take(retrying.len() as int));
    assert(claiming =~= claiming.take(claiming.len() as int));
    lemma_columns_differ();
}

/// What status a delivery has once it has ended.
proof fn lemma_ended_after(
    delivery: Record,
    values: Seq<Bound>,
    ids: Seq<Bound>,
    database: Database,
)
    requires
        values.len() >= 5,
    ensures
        ({
            let after = |changes: Seq<Change>, given: Seq<Bound>|
                update::changed(changes, delivery, given, database);
            let cancelled = after(NotificationDeliveryRepository::cancellation(), values);
            let disabled = after(NotificationDeliveryRepository::disabling(), ids);
            let finished = after(NotificationDeliveryRepository::finishing(), values);
            &&& condition::has(cancelled, "status"@, Bound::Text(Some("cancelled"@)))
            &&& condition::has(disabled, "status"@, Bound::Text(Some("cancelled"@)))
            &&& condition::has(finished, "status"@, values[2])
        }),
{
    broadcast use update::first_changes;

    let cancellation = NotificationDeliveryRepository::cancellation();
    let disabling = NotificationDeliveryRepository::disabling();
    let finishing = NotificationDeliveryRepository::finishing();
    assert(cancellation =~= cancellation.take(cancellation.len() as int));
    assert(disabling =~= disabling.take(disabling.len() as int));
    assert(finishing =~= finishing.take(finishing.len() as int));
    lemma_columns_differ();
}

/// The columns of a delivery that its changes write have different names.
proof fn lemma_columns_differ()
    ensures
        "status"@.len() == 6,
        "attempt_count"@.len() == 13,
        "available_at"@.len() == 12,
        "lease_owner"@.len() == 11,
        "lease_expires_at"@.len() == 16,
        "updated_at"@.len() == 10,
        "last_error_class"@.len() == 16,
        "last_error"@.len() == 10,
        "terminal_at"@.len() == 11,
        "last_recovery_operation_id"@.len() == 26,
        "recovery_generation"@.len() == 19,
        "lease_expires_at"@[1] == 'e',
        "last_error_class"@[1] == 'a',
{
    reveal_strlit("status");
    reveal_strlit("attempt_count");
    reveal_strlit("available_at");
    reveal_strlit("lease_owner");
    reveal_strlit("lease_expires_at");
    reveal_strlit("updated_at");
    reveal_strlit("last_error_class");
    reveal_strlit("last_error");
    reveal_strlit("terminal_at");
    reveal_strlit("last_recovery_operation_id");
    reveal_strlit("recovery_generation");
}

} // verus!
