//! The access audit: an append-only record of access control changes, kept
//! for a year.

use uuid::Uuid;
use vstd::prelude::*;

#[allow(unused_imports)]
use crate::statement::Bind;
use crate::condition::{Condition, Conditions, Database, Kind, Record, Test};
use crate::condition;
use crate::statement::{Bound, Statement, StatementView};
use crate::text;

verus! {

/// Access audit records.
#[derive(Clone, Copy, Debug)]
pub struct AccessAuditRepository;

impl AccessAuditRepository {
    pub const PAGE: &'static str =
        "SELECT id,actor_kind,actor_user_id,action,organization_id,project_id,target_user_id,invitation_id,previous_role,new_role,outcome,request_id,created_at FROM access_audit_records WHERE ";

    pub const PAGE_TAIL: &'static str = " ORDER BY id LIMIT $3";

    /// The conditions on an entry of a page.
    pub open spec fn page_filters() -> Seq<Condition> {
        seq![
            Condition::ComparedIfGiven("organization_id"@, Test::Equal, Kind::Uuid, 1),
            Condition::ComparedIfGiven("id"@, Test::Greater, Kind::Uuid, 2),
        ]
    }

    /// A page of access audit records by id, within one organization when
    /// given, after the cursor when one is given.
    ///
    /// Selects every column but `retain_until`.
    pub fn page(
        organization_id: Option<Uuid>,
        cursor: Option<Uuid>,
        fetch_limit: i64,
    ) -> (statement: Statement)
        ensures
            statement@ == StatementView::all(
                Self::PAGE@ + condition::all_text(Self::page_filters()) + Self::PAGE_TAIL@,
                seq![organization_id.bound(), cursor.bound(), fetch_limit.bound()],
            ),
    {
        let conditions = Conditions::new()
            .compared_if_given("organization_id", Test::Equal, Kind::Uuid, 1)
            .compared_if_given("id", Test::Greater, Kind::Uuid, 2);
        assert(conditions@ =~= Self::page_filters());
        let text = text::join(Self::PAGE, conditions.into_text().as_str()).concat(
            Self::PAGE_TAIL,
        );
        Statement::all(text.as_str()).bind(organization_id).bind(cursor).bind(fetch_limit)
    }
}

/// An entry is on the page exactly where it is of the organization where one is
/// given, and comes behind the cursor, or no cursor is given.
pub proof fn page_holds_the_entries_behind_the_cursor(
    entry: Record,
    organization_id: Option<Uuid>,
    cursor: Option<Uuid>,
    fetch_limit: i64,
    database: Database,
)
    ensures
        ({
            let values: Seq<Bound> = seq![
                organization_id.bound(),
                cursor.bound(),
                fetch_limit.bound(),
            ];
            condition::selects(
                AccessAuditRepository::page_filters(),
                entry,
                values,
                database,
            ) <==> {
                &&& organization_id is Some ==> condition::has(
                    entry,
                    "organization_id"@,
                    organization_id.bound(),
                )
                &&& cursor is Some ==> {
                    &&& !condition::lacks(entry, "id"@)
                    &&& (database.less)(cursor.bound(), entry["id"@])
                }
            }
        }),
{
    let values: Seq<Bound> = seq![organization_id.bound(), cursor.bound(), fetch_limit.bound()];
    let conditions = AccessAuditRepository::page_filters();
    assert(condition::selects(conditions, entry, values, database) <==> {
        &&& conditions[0].holds(entry, values, database)
        &&& conditions[1].holds(entry, values, database)
    });
}

} // verus!
