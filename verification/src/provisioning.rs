//! Provisioning idempotency keys: each key reserves one operation's result,
//! so a retried request with the same key and body replays it. Keys and
//! request fingerprints are stored as SHA-256 digests.

use uuid::Uuid;
use vstd::prelude::*;

#[allow(unused_imports)]
use crate::statement::Bind;
use crate::condition::{Condition, Conditions, Database, Record, Test};
use crate::condition;
use crate::insert::Style;
use crate::statement::{Bound, Fetch, Statement, StatementView};
use crate::text;
use crate::update::{Change, Changes, Form};
use crate::update;
use crate::upsert::{Table, Target, Upsert, UpsertView};
use crate::upsert;

verus! {

broadcast use condition::known_words_are_plain;

/// Idempotency keys of the provisioning API.
#[derive(Clone, Copy, Debug)]
pub struct ProvisioningKeyRepository;

impl ProvisioningKeyRepository {
    /// A reserved key.
    pub open spec fn key(
        reservation_id: Uuid,
        operation: &str,
        key_hash: &[u8],
        request_fingerprint: &[u8],
    ) -> UpsertView {
        upsert::upsert(Style::Tight, Target::Tight, "provisioning_idempotency_keys"@)
            .kept("id"@, reservation_id.bound())
            .key("operation"@, operation.bound())
            .key("key_hash"@, key_hash.bound())
            .kept("request_fingerprint"@, request_fingerprint.bound())
    }

    /// Reserves an idempotency key for an operation, returning the
    /// reservation id, or `None` when the key is already reserved.
    pub fn reserve(
        reservation_id: Uuid,
        operation: &str,
        key_hash: &[u8],
        request_fingerprint: &[u8],
    ) -> (statement: Statement)
        ensures
            statement@ == Self::key(
                reservation_id,
                operation,
                key_hash,
                request_fingerprint,
            ).finish_once(" RETURNING id"@, Fetch::Optional),
    {
        Upsert::new(Style::Tight, Target::Tight, "provisioning_idempotency_keys")
            .kept("id", reservation_id)
            .key("operation", operation)
            .key("key_hash", key_hash)
            .kept("request_fingerprint", request_fingerprint)
            .finish_once(" RETURNING id", Fetch::Optional)
    }

    pub const RESERVATION: &'static str =
        "SELECT request_fingerprint,resource_id FROM provisioning_idempotency_keys WHERE ";

    /// The conditions on the reservation of a key.
    pub open spec fn reserved() -> Seq<Condition> {
        seq![
            Condition::Compared("operation"@, Test::Equal, 1),
            Condition::Compared("key_hash"@, Test::Equal, 2),
        ]
    }

    /// The request fingerprint an idempotency key was reserved with, and the
    /// resource it produced once completed.
    pub fn reservation(operation: &str, key_hash: &[u8]) -> (statement: Statement)
        ensures
            statement@ == StatementView::one(
                Self::RESERVATION@ + condition::all_text(Self::reserved()),
                seq![operation.bound(), key_hash.bound()],
            ),
    {
        let conditions = Conditions::new()
            .compared("operation", Test::Equal, 1)
            .compared("key_hash", Test::Equal, 2);
        assert(conditions@ =~= Self::reserved());
        let text = text::join(Self::RESERVATION, conditions.into_text().as_str());
        Statement::one(text.as_str()).bind(operation).bind(key_hash)
    }

    /// What the completion of a reservation changes.
    pub open spec fn completion() -> Seq<Change> {
        seq![Change::Given("resource_id"@, 1)]
    }

    /// The conditions on the reservation of an id.
    pub open spec fn by_id() -> Seq<Condition> {
        seq![Condition::Compared("id"@, Test::Equal, 2)]
    }

    /// Records the resource a reserved key produced.
    pub fn complete(resource_id: Uuid, reservation_id: Uuid) -> (statement: Statement)
        ensures
            statement@ == StatementView::affected(
                "UPDATE provisioning_idempotency_keys SET "@ + update::all_text(Self::completion(), Form::Tight)
                    + " WHERE "@ + condition::all_text(Self::by_id()),
                seq![resource_id.bound(), reservation_id.bound()],
            ),
    {
        let changes = Changes::new(Form::Tight)
            .given("resource_id", 1);
        let conditions = Conditions::new().compared("id", Test::Equal, 2);
        assert(changes@ =~= Self::completion());
        assert(conditions@ =~= Self::by_id());
        let text = text::join(
            "UPDATE provisioning_idempotency_keys SET ",
            changes.into_text().as_str(),
        )
            .concat(" WHERE ")
            .concat(conditions.into_text().as_str());
        Statement::affected(text.as_str()).bind(resource_id).bind(reservation_id)
    }
}

/// A key is reserved once. The first reservation of an operation's key stays,
/// with the fingerprint that it was made with, whatever later ones hold; every
/// other key is as it was.
pub proof fn first_reservation_stays(
    table: Table,
    operation: &str,
    key_hash: &[u8],
    first_id: Uuid,
    first_fingerprint: &[u8],
    later_id: Uuid,
    later_fingerprint: &[u8],
)
    requires
        !table.contains_key(seq![operation.bound(), key_hash.bound()]),
    ensures
        ({
            let key: Seq<Bound> = seq![operation.bound(), key_hash.bound()];
            let first = ProvisioningKeyRepository::key(
                first_id,
                operation,
                key_hash,
                first_fingerprint,
            );
            let later = ProvisioningKeyRepository::key(
                later_id,
                operation,
                key_hash,
                later_fingerprint,
            );
            let after = first.applied_once(table);
            &&& after.contains_key(key)
            &&& after[key] == seq![
                first_id.bound(),
                operation.bound(),
                key_hash.bound(),
                first_fingerprint.bound(),
            ]
            &&& after.remove(key) == table
            &&& later.applied_once(after) == after
        }),
{
    let key: Seq<Bound> = seq![operation.bound(), key_hash.bound()];
    let first = ProvisioningKeyRepository::key(first_id, operation, key_hash, first_fingerprint);
    let later = ProvisioningKeyRepository::key(later_id, operation, key_hash, later_fingerprint);
    assert(first.key =~= key);
    assert(later.key =~= key);
    assert(first.values =~= seq![
        first_id.bound(),
        operation.bound(),
        key_hash.bound(),
        first_fingerprint.bound(),
    ]);
    assert(first.applied_once(table).remove(key) =~= table);
    upsert::the_first_row_stays(first, later, table);
}

/// The reservation of the id has the resource that it produced, and nothing
/// else of it changes.
pub proof fn completed_key_has_its_resource(
    reservation: Record,
    resource_id: Uuid,
    reservation_id: Uuid,
    database: Database,
)
    ensures
        ({
            let values: Seq<Bound> = seq![
                resource_id.bound(),
                reservation_id.bound(),
            ];
            &&& condition::selects(
                ProvisioningKeyRepository::by_id(),
                reservation,
                values,
                database,
            ) <==> {
                &&& condition::has(reservation, "id"@, reservation_id.bound())
            }
            &&& update::changed(
                ProvisioningKeyRepository::completion(),
                reservation,
                values,
                database,
            ) == reservation
                .insert("resource_id"@, resource_id.bound())
        }),
{
    broadcast use update::first_changes;

    let values: Seq<Bound> = seq![
        resource_id.bound(),
        reservation_id.bound(),
    ];
    let changes = ProvisioningKeyRepository::completion();
    assert(changes =~= changes.take(changes.len() as int));
    let conditions = ProvisioningKeyRepository::by_id();
    assert(condition::selects(conditions, reservation, values, database) <==> {
        &&& conditions[0].holds(reservation, values, database)
    });
}

/// The reservation is that of the operation and the key.
pub proof fn reservation_is_that_of_the_key(
    reservation: Record,
    operation: &str,
    key_hash: &[u8],
    database: Database,
)
    ensures
        ({
            let values: Seq<Bound> = seq![
                operation.bound(),
                key_hash.bound(),
            ];
            condition::selects(
                ProvisioningKeyRepository::reserved(),
                reservation,
                values,
                database,
            ) <==> {
                &&& condition::has(reservation, "operation"@, operation.bound())
                &&& condition::has(reservation, "key_hash"@, key_hash.bound())
            }
        }),
{
    let values: Seq<Bound> = seq![
        operation.bound(),
        key_hash.bound(),
    ];
    let conditions = ProvisioningKeyRepository::reserved();
    assert(condition::selects(conditions, reservation, values, database) <==> {
        &&& conditions[0].holds(reservation, values, database)
        &&& conditions[1].holds(reservation, values, database)
    });
}

} // verus!
