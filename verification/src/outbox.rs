//! The transactional outbox: messages written alongside the data they announce
//! and later materialized into notification deliveries.

use uuid::Uuid;
use vstd::prelude::*;

#[allow(unused_imports)]
use crate::statement::Bind;
use crate::condition::{Condition, Conditions, Database, Record, Test};
use crate::condition;
use crate::statement::{Bound, Statement, StatementView, Timestamp};
use crate::text;
use crate::update::{Change, Changes, Form};
use crate::update;

verus! {

broadcast use condition::known_words_are_plain;

/// Outbox messages.
#[derive(Clone, Copy, Debug)]
pub struct OutboxRepository;

impl OutboxRepository {
    pub const CLAIM_FIRST_SEEN: &'static str =
        "SELECT id,organization_id,project_id,aggregate_id,source,payload,created_at FROM outbox_messages WHERE ";

    pub const CLAIM_FIRST_SEEN_TAIL: &'static str =
        " ORDER BY created_at,id FOR UPDATE SKIP LOCKED LIMIT $1";

    /// The conditions on a first-seen message that is still to be handled.
    pub open spec fn waiting() -> Seq<Condition> {
        seq![
            Condition::Word("topic"@, "runtime_group.first_seen"@),
            Condition::Null("processed_at"@),
            Condition::Null("materialized_at"@),
        ]
    }

    /// Locks up to `limit` unprocessed, unmaterialized first-seen messages,
    /// oldest first, skipping ones another worker holds.
    ///
    /// Selects `id`, `organization_id`, `project_id`, `aggregate_id`,
    /// `source`, `payload` and `created_at`.
    pub fn claim_first_seen(limit: i64) -> (statement: Statement)
        ensures
            statement@ == StatementView::all(
                Self::CLAIM_FIRST_SEEN@ + condition::all_text(Self::waiting())
                    + Self::CLAIM_FIRST_SEEN_TAIL@,
                seq![limit.bound()],
            ),
    {
        let conditions = Conditions::new()
            .word("topic", "runtime_group.first_seen")
            .is_null("processed_at")
            .is_null("materialized_at");
        assert(conditions@ =~= Self::waiting());
        let text = text::join(Self::CLAIM_FIRST_SEEN, conditions.into_text().as_str()).concat(
            Self::CLAIM_FIRST_SEEN_TAIL,
        );
        Statement::all(text.as_str()).bind(limit)
    }

    /// What an evaluation of a message changes.
    pub open spec fn eligibility() -> Seq<Change> {
        seq![
            Change::Given("policy_eligibility_reason"@, 2),
            Change::Given("policy_evaluated_at"@, 3),
            Change::Given("policy_revision_id"@, 4),
            Change::Given("policy_suppression_id"@, 5),
        ]
    }

    /// The conditions on the message of an id.
    pub open spec fn message_by_id() -> Seq<Condition> {
        seq![Condition::Compared("id"@, Test::Equal, 1)]
    }

    /// Records the policy eligibility a message was evaluated with.
    pub fn record_eligibility(
        id: Uuid,
        reason: &str,
        evaluated_at: Timestamp,
        policy_revision_id: Option<Uuid>,
        policy_suppression_id: Option<Uuid>,
    ) -> (statement: Statement)
        ensures
            statement@ == StatementView::affected(
                "UPDATE outbox_messages SET "@ + update::all_text(Self::eligibility(), Form::Tight)
                    + " WHERE "@ + condition::all_text(Self::message_by_id()),
                seq![
                    id.bound(),
                    reason.bound(),
                    evaluated_at.bound(),
                    policy_revision_id.bound(),
                    policy_suppression_id.bound(),
                ],
            ),
    {
        let changes = Changes::new(Form::Tight)
            .given("policy_eligibility_reason", 2)
            .given("policy_evaluated_at", 3)
            .given("policy_revision_id", 4)
            .given("policy_suppression_id", 5);
        let conditions = Conditions::new().compared("id", Test::Equal, 1);
        assert(changes@ =~= Self::eligibility());
        assert(conditions@ =~= Self::message_by_id());
        let text = text::join("UPDATE outbox_messages SET ", changes.into_text().as_str())
            .concat(" WHERE ")
            .concat(conditions.into_text().as_str());
        Statement::affected(text.as_str())
            .bind(id)
            .bind(reason)
            .bind(evaluated_at)
            .bind(policy_revision_id)
            .bind(policy_suppression_id)
    }

    /// What completing a message changes in it.
    pub open spec fn completed() -> Seq<Change> {
        seq![
            Change::Now("materialized_at"@),
            Change::Now("processed_at"@),
            Change::Given("completion_reason"@, 2),
        ]
    }

    /// Marks a message materialized and processed for `completion_reason`.
    pub fn complete(id: Uuid, completion_reason: &str) -> (statement: Statement)
        ensures
            statement@ == StatementView::affected(
                "UPDATE outbox_messages SET "@ + update::all_text(Self::completed(), Form::Tight)
                    + " WHERE "@ + condition::all_text(Self::message_by_id()),
                seq![id.bound(), completion_reason.bound()],
            ),
    {
        let changes = Changes::new(Form::Tight)
            .now("materialized_at")
            .now("processed_at")
            .given("completion_reason", 2);
        let conditions = Conditions::new().compared("id", Test::Equal, 1);
        assert(changes@ =~= Self::completed());
        assert(conditions@ =~= Self::message_by_id());
        let text = text::join("UPDATE outbox_messages SET ", changes.into_text().as_str())
            .concat(" WHERE ")
            .concat(conditions.into_text().as_str());
        Statement::affected(text.as_str()).bind(id).bind(completion_reason)
    }

    /// What completing a message for want of a destination changes in it.
    pub open spec fn without_destinations() -> Seq<Change> {
        seq![
            Change::Now("materialized_at"@),
            Change::Now("processed_at"@),
            Change::Word("completion_reason"@, "no_destinations"@),
            Change::Word("policy_eligibility_reason"@, "no_destinations"@),
        ]
    }

    /// Marks a message materialized and processed because the project has no
    /// enabled destination.
    pub fn complete_without_destinations(id: Uuid) -> (statement: Statement)
        ensures
            statement@ == StatementView::affected(
                "UPDATE outbox_messages SET "@ + update::all_text(Self::without_destinations(), Form::Tight)
                    + " WHERE "@ + condition::all_text(Self::message_by_id()),
                seq![id.bound()],
            ),
    {
        let changes = Changes::new(Form::Tight)
            .now("materialized_at")
            .now("processed_at")
            .word("completion_reason", "no_destinations")
            .word("policy_eligibility_reason", "no_destinations");
        let conditions = Conditions::new().compared("id", Test::Equal, 1);
        assert(changes@ =~= Self::without_destinations());
        assert(conditions@ =~= Self::message_by_id());
        let text = text::join("UPDATE outbox_messages SET ", changes.into_text().as_str())
            .concat(" WHERE ")
            .concat(conditions.into_text().as_str());
        Statement::affected(text.as_str()).bind(id)
    }

    /// What completing a suppressed backfill changes in it.
    pub open spec fn backfill_suppressed() -> Seq<Change> {
        seq![
            Change::Now("materialized_at"@),
            Change::Now("processed_at"@),
            Change::Word("completion_reason"@, "backfill_suppressed"@),
            Change::Word("policy_eligibility_reason"@, "backfill_suppressed"@),
        ]
    }

    /// Marks a message materialized and processed because every delivery was
    /// a suppressed backfill.
    pub fn complete_backfill_suppressed(id: Uuid) -> (statement: Statement)
        ensures
            statement@ == StatementView::affected(
                "UPDATE outbox_messages SET "@ + update::all_text(Self::backfill_suppressed(), Form::Tight)
                    + " WHERE "@ + condition::all_text(Self::message_by_id()),
                seq![id.bound()],
            ),
    {
        let changes = Changes::new(Form::Tight)
            .now("materialized_at")
            .now("processed_at")
            .word("completion_reason", "backfill_suppressed")
            .word("policy_eligibility_reason", "backfill_suppressed");
        let conditions = Conditions::new().compared("id", Test::Equal, 1);
        assert(changes@ =~= Self::backfill_suppressed());
        assert(conditions@ =~= Self::message_by_id());
        let text = text::join("UPDATE outbox_messages SET ", changes.into_text().as_str())
            .concat(" WHERE ")
            .concat(conditions.into_text().as_str());
        Statement::affected(text.as_str()).bind(id)
    }

    /// What materializing a message changes in it.
    pub open spec fn materialized() -> Seq<Change> {
        seq![Change::Now("materialized_at"@)]
    }

    /// Marks a message materialized; it is processed once its deliveries end.
    pub fn mark_materialized(id: Uuid) -> (statement: Statement)
        ensures
            statement@ == StatementView::affected(
                "UPDATE outbox_messages SET "@ + update::all_text(Self::materialized(), Form::Tight)
                    + " WHERE "@ + condition::all_text(Self::message_by_id()),
                seq![id.bound()]),
    {
        let changes = Changes::new(Form::Tight)
            .now("materialized_at");
        let conditions = Conditions::new().compared("id", Test::Equal, 1);
        assert(changes@ =~= Self::materialized());
        assert(conditions@ =~= Self::message_by_id());
        let text = text::join("UPDATE outbox_messages SET ", changes.into_text().as_str())
            .concat(" WHERE ")
            .concat(conditions.into_text().as_str());
        Statement::affected(text.as_str()).bind(id)
    }

    /// Whether no delivery of the message is pending or in flight.
    pub const NO_OPEN_DELIVERY: &'static str =
        "NOT EXISTS (SELECT 1 FROM notification_deliveries d WHERE d.outbox_message_id=o.id AND d.status NOT IN ('succeeded','failed','suppressed','cancelled'))";

    /// What the end of its deliveries changes in a message.
    pub open spec fn deliveries_ended() -> Seq<Change> {
        seq![
            Change::Now("processed_at"@),
            Change::Word("completion_reason"@, "deliveries_terminal"@),
        ]
    }

    /// The conditions on a message whose deliveries have ended.
    pub open spec fn all_deliveries_ended() -> Seq<Condition> {
        seq![
            Condition::Compared("o.id"@, Test::Equal, 1),
            Condition::NotNull("o.materialized_at"@),
            Condition::Asked(Self::NO_OPEN_DELIVERY@),
        ]
    }

    /// Marks a materialized message processed once none of its deliveries is
    /// pending or in flight.
    pub fn complete_if_deliveries_terminal(id: Uuid) -> (statement: Statement)
        ensures
            statement@ == StatementView::affected(
                "UPDATE outbox_messages o SET "@ + update::all_text(Self::deliveries_ended(), Form::Tight)
                    + " WHERE "@ + condition::all_text(Self::all_deliveries_ended()),
                seq![id.bound()],
            ),
    {
        let changes = Changes::new(Form::Tight)
            .now("processed_at")
            .word("completion_reason", "deliveries_terminal");
        let conditions = Conditions::new()
            .compared("o.id", Test::Equal, 1)
            .not_null("o.materialized_at")
            .asked(Self::NO_OPEN_DELIVERY);
        assert(changes@ =~= Self::deliveries_ended());
        assert(conditions@ =~= Self::all_deliveries_ended());
        let text = text::join("UPDATE outbox_messages o SET ", changes.into_text().as_str())
            .concat(" WHERE ")
            .concat(conditions.into_text().as_str());
        Statement::affected(text.as_str()).bind(id)
    }
}

/// A message is claimed exactly where it announces a first sighting and is neither
/// processed nor materialized.
pub proof fn only_a_waiting_message_is_claimed(message: Record, limit: i64, database: Database)
    ensures
        condition::selects(OutboxRepository::waiting(), message, seq![limit.bound()], database)
            <==> {
            &&& condition::has(
                message,
                "topic"@,
                Bound::Text(Some("runtime_group.first_seen"@)),
            )
            &&& condition::lacks(message, "processed_at"@)
            &&& condition::lacks(message, "materialized_at"@)
        },
{
    let conditions = OutboxRepository::waiting();
    let values: Seq<Bound> = seq![limit.bound()];
    assert(condition::selects(conditions, message, values, database) <==> {
        &&& conditions[0].holds(message, values, database)
        &&& conditions[1].holds(message, values, database)
        &&& conditions[2].holds(message, values, database)
    });
}

/// The message of the id records the reason, the time, the revision and the
/// suppression that it was evaluated with, and nothing else of it changes.
pub proof fn eligibility_is_recorded(
    message: Record,
    id: Uuid,
    reason: &str,
    evaluated_at: Timestamp,
    policy_revision_id: Option<Uuid>,
    policy_suppression_id: Option<Uuid>,
    database: Database,
)
    ensures
        ({
            let values: Seq<Bound> = seq![
                id.bound(),
                reason.bound(),
                evaluated_at.bound(),
                policy_revision_id.bound(),
                policy_suppression_id.bound(),
            ];
            &&& condition::selects(
                OutboxRepository::message_by_id(),
                message,
                values,
                database,
            ) <==> {
                &&& condition::has(message, "id"@, id.bound())
            }
            &&& update::changed(
                OutboxRepository::eligibility(),
                message,
                values,
                database,
            ) == message
                .insert("policy_eligibility_reason"@, reason.bound())
                .insert("policy_evaluated_at"@, evaluated_at.bound())
                .insert("policy_revision_id"@, policy_revision_id.bound())
                .insert("policy_suppression_id"@, policy_suppression_id.bound())
        }),
{
    broadcast use update::first_changes;

    let values: Seq<Bound> = seq![
        id.bound(),
        reason.bound(),
        evaluated_at.bound(),
        policy_revision_id.bound(),
        policy_suppression_id.bound(),
    ];
    let changes = OutboxRepository::eligibility();
    assert(changes =~= changes.take(changes.len() as int));
    let conditions = OutboxRepository::message_by_id();
    assert(condition::selects(conditions, message, values, database) <==> {
        &&& conditions[0].holds(message, values, database)
    });
}

/// The message of the id is materialized and processed now, for the given
/// reason, and nothing else of it changes.
pub proof fn completed_message_is_processed(
    message: Record,
    id: Uuid,
    completion_reason: &str,
    database: Database,
)
    ensures
        ({
            let values: Seq<Bound> = seq![
                id.bound(),
                completion_reason.bound(),
            ];
            &&& condition::selects(
                OutboxRepository::message_by_id(),
                message,
                values,
                database,
            ) <==> {
                &&& condition::has(message, "id"@, id.bound())
            }
            &&& update::changed(OutboxRepository::completed(), message, values, database) == message
                .insert("materialized_at"@, database.now)
                .insert("processed_at"@, database.now)
                .insert("completion_reason"@, completion_reason.bound())
        }),
{
    broadcast use update::first_changes;

    let values: Seq<Bound> = seq![
        id.bound(),
        completion_reason.bound(),
    ];
    let changes = OutboxRepository::completed();
    assert(changes =~= changes.take(changes.len() as int));
    let conditions = OutboxRepository::message_by_id();
    assert(condition::selects(conditions, message, values, database) <==> {
        &&& conditions[0].holds(message, values, database)
    });
}

/// The message of the id is materialized and processed now, for want of a
/// destination, and nothing else of it changes.
pub proof fn message_without_destinations_is_processed(
    message: Record,
    id: Uuid,
    database: Database,
)
    ensures
        ({
            let values: Seq<Bound> = seq![id.bound()];
            &&& condition::selects(
                OutboxRepository::message_by_id(),
                message,
                values,
                database,
            ) <==> {
                &&& condition::has(message, "id"@, id.bound())
            }
            &&& update::changed(
                OutboxRepository::without_destinations(),
                message,
                values,
                database,
            ) == message
                .insert("materialized_at"@, database.now)
                .insert("processed_at"@, database.now)
                .insert("completion_reason"@, Bound::Text(Some("no_destinations"@)))
                .insert("policy_eligibility_reason"@, Bound::Text(Some("no_destinations"@)))
        }),
{
    broadcast use update::first_changes;

    let values: Seq<Bound> = seq![id.bound()];
    let changes = OutboxRepository::without_destinations();
    assert(changes =~= changes.take(changes.len() as int));
    let conditions = OutboxRepository::message_by_id();
    assert(condition::selects(conditions, message, values, database) <==> {
        &&& conditions[0].holds(message, values, database)
    });
}

/// The message of the id is materialized and processed now, as a suppressed
/// backfill, and nothing else of it changes.
pub proof fn suppressed_backfill_is_processed(
    message: Record,
    id: Uuid,
    database: Database,
)
    ensures
        ({
            let values: Seq<Bound> = seq![id.bound()];
            &&& condition::selects(
                OutboxRepository::message_by_id(),
                message,
                values,
                database,
            ) <==> {
                &&& condition::has(message, "id"@, id.bound())
            }
            &&& update::changed(
                OutboxRepository::backfill_suppressed(),
                message,
                values,
                database,
            ) == message
                .insert("materialized_at"@, database.now)
                .insert("processed_at"@, database.now)
                .insert("completion_reason"@, Bound::Text(Some("backfill_suppressed"@)))
                .insert("policy_eligibility_reason"@, Bound::Text(Some("backfill_suppressed"@)))
        }),
{
    broadcast use update::first_changes;

    let values: Seq<Bound> = seq![id.bound()];
    let changes = OutboxRepository::backfill_suppressed();
    assert(changes =~= changes.take(changes.len() as int));
    let conditions = OutboxRepository::message_by_id();
    assert(condition::selects(conditions, message, values, database) <==> {
        &&& conditions[0].holds(message, values, database)
    });
}

/// The message of the id is materialized now and not processed by that, and
/// nothing else of it changes.
pub proof fn materialized_message_is_not_processed(
    message: Record,
    id: Uuid,
    database: Database,
)
    ensures
        ({
            let values: Seq<Bound> = seq![id.bound()];
            &&& condition::selects(
                OutboxRepository::message_by_id(),
                message,
                values,
                database,
            ) <==> {
                &&& condition::has(message, "id"@, id.bound())
            }
            &&& update::changed(
                OutboxRepository::materialized(),
                message,
                values,
                database,
            ) == message
                .insert("materialized_at"@, database.now)
        }),
{
    broadcast use update::first_changes;

    let values: Seq<Bound> = seq![id.bound()];
    let changes = OutboxRepository::materialized();
    assert(changes =~= changes.take(changes.len() as int));
    let conditions = OutboxRepository::message_by_id();
    assert(condition::selects(conditions, message, values, database) <==> {
        &&& conditions[0].holds(message, values, database)
    });
}

/// A materialized message is processed now where each of its deliveries has
/// ended, and nothing else of it changes.
pub proof fn message_is_processed_once_its_deliveries_end(
    message: Record,
    id: Uuid,
    database: Database,
)
    ensures
        ({
            let values: Seq<Bound> = seq![id.bound()];
            &&& condition::selects(
                OutboxRepository::all_deliveries_ended(),
                message,
                values,
                database,
            ) <==> {
                &&& condition::has(message, "o.id"@, id.bound())
                &&& !condition::lacks(message, "o.materialized_at"@)
                &&& (database.answers)(OutboxRepository::NO_OPEN_DELIVERY@, message, values)
            }
            &&& update::changed(
                OutboxRepository::deliveries_ended(),
                message,
                values,
                database,
            ) == message
                .insert("processed_at"@, database.now)
                .insert("completion_reason"@, Bound::Text(Some("deliveries_terminal"@)))
        }),
{
    broadcast use update::first_changes;

    let values: Seq<Bound> = seq![id.bound()];
    let changes = OutboxRepository::deliveries_ended();
    assert(changes =~= changes.take(changes.len() as int));
    let conditions = OutboxRepository::all_deliveries_ended();
    assert(condition::selects(conditions, message, values, database) <==> {
        &&& conditions[0].holds(message, values, database)
        &&& conditions[1].holds(message, values, database)
        &&& conditions[2].holds(message, values, database)
    });
}

/// A message that is completed, materialized or processed is not claimed again.
pub proof fn handled_message_is_not_claimed(
    message: Record,
    values: Seq<Bound>,
    limit: i64,
    database: Database,
)
    requires
        values.len() >= 2,
        !condition::is_null(database.now),
    ensures
        ({
            let claimed = |changes: Seq<Change>|
                condition::selects(
                    OutboxRepository::waiting(),
                    update::changed(changes, message, values, database),
                    seq![limit.bound()],
                    database,
                );
            &&& !claimed(OutboxRepository::completed())
            &&& !claimed(OutboxRepository::without_destinations())
            &&& !claimed(OutboxRepository::backfill_suppressed())
            &&& !claimed(OutboxRepository::materialized())
            &&& !claimed(OutboxRepository::deliveries_ended())
        }),
{
    broadcast use update::first_changes;

    reveal_strlit("materialized_at");
    reveal_strlit("processed_at");
    reveal_strlit("completion_reason");
    reveal_strlit("policy_eligibility_reason");
    assert("materialized_at"@.len() == 15 && "processed_at"@.len() == 12);
    assert("completion_reason"@.len() == 17 && "policy_eligibility_reason"@.len() == 25);
    let completed = OutboxRepository::completed();
    let without = OutboxRepository::without_destinations();
    let suppressed = OutboxRepository::backfill_suppressed();
    let materialized = OutboxRepository::materialized();
    let ended = OutboxRepository::deliveries_ended();
    assert(completed =~= completed.take(completed.len() as int));
    assert(without =~= without.take(without.len() as int));
    assert(suppressed =~= suppressed.take(suppressed.len() as int));
    assert(materialized =~= materialized.take(materialized.len() as int));
    assert(ended =~= ended.take(ended.len() as int));
    let after = |changes: Seq<Change>| update::changed(changes, message, values, database);
    only_a_waiting_message_is_claimed(after(completed), limit, database);
    only_a_waiting_message_is_claimed(after(without), limit, database);
    only_a_waiting_message_is_claimed(after(suppressed), limit, database);
    only_a_waiting_message_is_claimed(after(materialized), limit, database);
    only_a_waiting_message_is_claimed(after(ended), limit, database);
    assert(after(completed)["processed_at"@] == database.now);
    assert(after(without)["processed_at"@] == database.now);
    assert(after(suppressed)["processed_at"@] == database.now);
    assert(after(materialized)["materialized_at"@] == database.now);
    assert(after(ended)["processed_at"@] == database.now);
}

} // verus!
