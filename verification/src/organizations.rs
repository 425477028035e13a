//! Organization-scoped persistence.
//!
//! # Lifecycle
//!
//! An organization is in one of two states, and moves between them only in the
//! directions below.
//!
//! ```text
//!              create(PendingOwner)          create(Active)
//!                     |                            |
//!                     v                            v
//!              +---------------+  activate  +----------+
//!              | pending_owner | ---------> |  active  |
//!              +---------------+            +----------+
//!                     |
//!                     | discard (no members at all)
//!                     v
//!                  deleted
//! ```
//!
//! `pending_owner` is an organization a platform administrator created on
//! someone else's behalf and that nobody has claimed yet. It confers no role:
//! `MembershipRepository::organization_role_when_active` ignores it. It becomes
//! `active` once an owner who can act exists, and can be discarded only while
//! it has no members at all: after that, deleting it would take other people's
//! access with it.

use uuid::Uuid;
use vstd::prelude::*;

#[allow(unused_imports)]
use crate::statement::Bind;
use crate::condition::{Condition, Conditions, Database, Kind, Record, Test};
use crate::condition;
use crate::insert::{Row, Style};
use crate::insert;
use crate::statement::{Bound, Fetch, Statement, StatementView, Timestamp};
use crate::tenant::{After, Before, Layout, Start};
use crate::tenant;
use crate::text;
use crate::upsert::{Table, Target, Upsert, UpsertView};
use crate::upsert;

verus! {

broadcast use tenant::known_aliases_name_tables;

/// Where an organization is in its lifecycle. See the module documentation.
#[derive(Clone, Copy, Debug, PartialEq, Eq, Structural)]
pub enum OrganizationStatus {
    /// Created on someone's behalf and not yet claimed by an owner who can act.
    PendingOwner,
    /// In service.
    Active,
}

impl OrganizationStatus {
    /// The value stored in `organizations.status`.
    pub open spec fn text(self) -> Seq<char> {
        match self {
            OrganizationStatus::PendingOwner => "pending_owner"@,
            OrganizationStatus::Active => "active"@,
        }
    }

    /// The value stored in `organizations.status`.
    #[must_use]
    pub fn as_str(self) -> (text: &'static str)
        ensures
            text@ == self.text(),
    {
        match self {
            Self::PendingOwner => "pending_owner",
            Self::Active => "active",
        }
    }
}

/// An organization row as stored.
///
/// This is a persistence row, not a response. Endpoints project it into their
/// own types so the table and the public contract can change independently.
#[derive(Debug, PartialEq)]
pub struct StoredOrganization {
    pub id: Uuid,
    pub slug: String,
    pub name: String,
    pub status: String,
    pub created_at: Timestamp,
    pub updated_at: Timestamp,
}

impl Clone for StoredOrganization {
    fn clone(&self) -> (copy: Self)
        ensures
            copy.id == self.id,
            copy.slug@ == self.slug@,
            copy.name@ == self.name@,
            copy.status@ == self.status@,
            copy.created_at == self.created_at,
            copy.updated_at == self.updated_at,
    {
        StoredOrganization {
            id: self.id,
            slug: self.slug.clone(),
            name: self.name.clone(),
            status: self.status.clone(),
            created_at: self.created_at,
            updated_at: self.updated_at,
        }
    }
}

/// Queries against the `organizations` table.
#[derive(Clone, Copy, Debug)]
pub struct OrganizationRepository;

impl OrganizationRepository {
    /// The summary projection.
    pub const SUMMARY_COLUMNS: &'static str = "id,slug,name,created_at";

    /// The projection for platform administrators.
    pub const PLATFORM_COLUMNS: &'static str = "id,slug,name,status,created_at,updated_at";

    /// An organization by its slug, with its name.
    pub open spec fn named(
        id: Uuid,
        slug: &str,
        name: &str,
    ) -> UpsertView {
        upsert::upsert(Style::Spaced, Target::Wide, "organizations"@)
            .kept("id"@, id.bound())
            .key("slug"@, slug.bound())
            .replaced("name"@, name.bound())
    }

    /// Records an organization, or renames the one with this slug, and
    /// returns its id.
    pub fn upsert_by_slug(id: Uuid, slug: &str, name: &str) -> (statement: Statement)
        ensures
            statement@ == Self::named(id, slug, name).finish(
                " RETURNING id"@,
                Fetch::One,
            ),
    {
        Upsert::new(Style::Spaced, Target::Wide, "organizations")
            .kept("id", id)
            .key("slug", slug)
            .replaced("name", name)
            .finish(" RETURNING id", Fetch::One)
    }

    pub const LOCK_FOR_UPDATE: &'static str = "SELECT id FROM organizations WHERE id=$1 FOR UPDATE";

    /// Locks the organization row for update. Fails with `RowNotFound` when
    /// there is no such organization.
    pub fn lock_for_update(organization_id: Uuid) -> (statement: Statement)
        ensures
            statement@ == StatementView::one(Self::LOCK_FOR_UPDATE@, seq![organization_id.bound()]),
    {
        Statement::one(Self::LOCK_FOR_UPDATE).bind(organization_id)
    }

    pub const SUMMARIES: &'static str = "organizations ORDER BY created_at,id LIMIT 200";

    /// The first 200 organizations, oldest first.
    ///
    /// Selects `id`, `slug`, `name` and `created_at`.
    pub fn summaries() -> (statement: Statement)
        ensures
            statement@ == StatementView::all(
                text::select_text(Self::SUMMARY_COLUMNS@, Self::SUMMARIES@),
                seq![],
            ),
            text::gives(statement@.text, Self::SUMMARY_COLUMNS@),
    {
        let text = text::select(Self::SUMMARY_COLUMNS, Self::SUMMARIES);
        Statement::all(text.as_str())
    }

    pub const SUMMARY: &'static str = "organizations WHERE id=$1";

    /// One organization with the columns of [`Self::summaries`]. Fails with
    /// `RowNotFound` when there is none.
    pub fn summary(organization_id: Uuid) -> (statement: Statement)
        ensures
            statement@ == StatementView::one(
                text::select_text(Self::SUMMARY_COLUMNS@, Self::SUMMARY@),
                seq![organization_id.bound()],
            ),
            text::gives(statement@.text, Self::SUMMARY_COLUMNS@),
    {
        let text = text::select(Self::SUMMARY_COLUMNS, Self::SUMMARY);
        Statement::one(text.as_str()).bind(organization_id)
    }

    pub const PLATFORM_PAGE: &'static str =
        "organizations WHERE ";

    pub const PLATFORM_PAGE_TAIL: &'static str = " ORDER BY id LIMIT $2";

    /// The conditions on an organization of a page.
    pub open spec fn platform_listing() -> Seq<Condition> {
        seq![Condition::ComparedIfGiven("id"@, Test::Greater, Kind::Uuid, 1)]
    }

    /// A page of all organizations by id, after the cursor when one is
    /// given, for platform administration.
    ///
    /// Selects `id`, `slug`, `name`, `status`, `created_at` and `updated_at`.
    pub fn platform_page(cursor: Option<Uuid>, fetch_limit: i64) -> (statement: Statement)
        ensures
            statement@ == StatementView::all(
                text::select_text(
                    Self::PLATFORM_COLUMNS@,
                    Self::PLATFORM_PAGE@ + condition::all_text(Self::platform_listing())
                        + Self::PLATFORM_PAGE_TAIL@,
                ),
                seq![cursor.bound(), fetch_limit.bound()],
            ),
            text::gives(statement@.text, Self::PLATFORM_COLUMNS@),
    {
        let conditions = Conditions::new().compared_if_given("id", Test::Greater, Kind::Uuid, 1);
        assert(conditions@ =~= Self::platform_listing());
        let rows = text::join(Self::PLATFORM_PAGE, conditions.into_text().as_str()).concat(
            Self::PLATFORM_PAGE_TAIL,
        );
        let text = text::select(Self::PLATFORM_COLUMNS, rows.as_str());
        Statement::all(text.as_str()).bind(cursor).bind(fetch_limit)
    }

    pub const PLATFORM_GET: &'static str = "organizations WHERE id=$1";

    /// One organization with the columns of [`Self::platform_page`].
    pub fn platform_get(organization_id: Uuid) -> (statement: Statement)
        ensures
            statement@ == StatementView::optional(
                text::select_text(Self::PLATFORM_COLUMNS@, Self::PLATFORM_GET@),
                seq![organization_id.bound()],
            ),
            text::gives(statement@.text, Self::PLATFORM_COLUMNS@),
    {
        let text = text::select(Self::PLATFORM_COLUMNS, Self::PLATFORM_GET);
        Statement::optional(text.as_str()).bind(organization_id)
    }

    pub const INSERT: &'static str = r#"
            RETURNING id, slug, name, status, created_at, updated_at
            "#;

    /// Creates an organization in the given state and returns the stored row.
    ///
    /// A duplicate slug fails on the unique index; callers report that as a
    /// slug conflict.
    pub fn insert(
        id: Uuid,
        slug: &str,
        name: &str,
        status: OrganizationStatus,
    ) -> (statement: Statement)
        ensures
            statement@ == insert::row(Style::Lines, "organizations"@)
                .set("id"@, id.bound())
                .set("slug"@, slug.bound())
                .set("name"@, name.bound())
                .set("status"@, Bound::Text(Some(status.text())))
                .finish(Self::INSERT@, Fetch::One),
    {
        Row::new(Style::Lines, "organizations")
            .set("id", id)
            .set("slug", slug)
            .set("name", name)
            .set("status", status.as_str())
            .finish(Self::INSERT, Fetch::One)
    }

    pub const ANY_EXISTS: &'static str = "SELECT EXISTS(SELECT 1 FROM organizations)";

    /// Reports whether any organization exists at all.
    ///
    /// Single-organization mode refuses a second one on the strength of this.
    /// On its own it is only a snapshot: a caller enforcing a limit with it
    /// must hold a lock that a concurrent creation also takes, or two requests
    /// can both see `false` and both insert.
    pub fn any_exists() -> (statement: Statement)
        ensures
            statement@ == StatementView::one(Self::ANY_EXISTS@, seq![]),
    {
        Statement::one(Self::ANY_EXISTS)
    }

    pub const LOCK_SHARED: &'static str = "SELECT id FROM organizations WHERE id = $1 FOR SHARE";

    /// Takes a share lock on the organization, reporting whether it exists.
    ///
    /// This is the first half of the lock order for project-scoped work:
    /// organization `FOR SHARE`, then project `FOR UPDATE`. Every path that
    /// needs both must take them in that order, or two of them can each hold
    /// the lock the other is waiting for. A share lock lets concurrent project
    /// work in the same organization proceed while blocking the organization's
    /// own deletion until it finishes.
    ///
    /// Requires a transaction.
    pub fn lock_shared(organization_id: Uuid) -> (statement: Statement)
        ensures
            statement@ == StatementView::present(Self::LOCK_SHARED@, seq![organization_id.bound()]),
    {
        Statement::present(Self::LOCK_SHARED).bind(organization_id)
    }

    pub const ACTIVATE_WHEN_OWNED: &'static str = "UPDATE organizations SET status = '";

    pub const ACTIVATE_WHEN_OWNED_FROM: &'static str =
        "', updated_at = now() \
             WHERE id = $1 AND status = '";

    pub const ACTIVATE_WHEN_OWNED_OWNER: &'static str =
        "' \
               AND EXISTS(SELECT 1 FROM organization_memberships m \
                          JOIN users u ON u.id = m.user_id ";

    pub const ACTIVATE_WHEN_OWNED_ACTIVE: &'static str = "m.role = 'owner' AND ";

    /// Moves the organization at `$1` from one status to another where it has
    /// an owner who meets `active_user`.
    pub open spec fn activate_when_owned_text(
        from: OrganizationStatus,
        to: OrganizationStatus,
        active_user: Seq<char>,
    ) -> Seq<char> {
        let owned = tenant::organization_text(
            Self::ACTIVATE_WHEN_OWNED_OWNER@,
            Before::Where,
            "m."@,
            Layout::Spaced,
            After::And,
            Self::ACTIVATE_WHEN_OWNED_ACTIVE@ + active_user + ")"@,
        );
        Self::ACTIVATE_WHEN_OWNED@ + to.text() + Self::ACTIVATE_WHEN_OWNED_FROM@ + from.text()
            + owned
    }

    /// Moves a pending organization to active, provided it now has an owner
    /// who can act. Reports whether the transition happened.
    ///
    /// `active_user` is the condition, on `users` aliased as `u`, under which
    /// a user can act. The owner check is part of the transition rather than
    /// something the caller verifies first, so the state and the reason for it
    /// change in one statement. An organization already active, or pending
    /// with only owners who cannot act, is left as it is.
    pub fn activate_when_owned(organization_id: Uuid, active_user: &str) -> (statement: Statement)
        ensures
            statement@ == StatementView::changed(
                Self::activate_when_owned_text(
                    OrganizationStatus::PendingOwner,
                    OrganizationStatus::Active,
                    active_user@,
                ),
                seq![organization_id.bound()],
            ),
    {
        let owned = tenant::organization(
            Self::ACTIVATE_WHEN_OWNED_OWNER,
            Before::Where,
            "m.",
            Layout::Spaced,
            After::And,
            text::join(Self::ACTIVATE_WHEN_OWNED_ACTIVE, active_user).concat(")").as_str(),
        );
        let text = text::join(Self::ACTIVATE_WHEN_OWNED, OrganizationStatus::Active.as_str())
            .concat(Self::ACTIVATE_WHEN_OWNED_FROM)
            .concat(OrganizationStatus::PendingOwner.as_str())
            .concat(owned.as_str());
        Statement::changed(text.as_str()).bind(organization_id)
    }

    pub const DISCARD_UNCLAIMED: &'static str = r#"
            DELETE FROM organizations
            WHERE id = $1 AND status = '"#;

    pub const DISCARD_UNCLAIMED_MEMBERS: &'static str = r#"'
              AND NOT EXISTS(SELECT 1 FROM organization_memberships
                             "#;

    /// Deletes a pending organization that nobody has joined. Reports whether
    /// it was deleted.
    ///
    /// Both conditions are checked in the statement itself. An active
    /// organization is never discarded this way, and neither is a pending one
    /// with any member — an invited administrator who accepted before the
    /// owner did would otherwise lose their access without being asked.
    pub fn discard_unclaimed(organization_id: Uuid) -> (statement: Statement)
        ensures
            statement@ == StatementView::changed(
                Self::DISCARD_UNCLAIMED@ + OrganizationStatus::PendingOwner.text()
                    + tenant::organization_text(
                    Self::DISCARD_UNCLAIMED_MEMBERS@,
                    Before::Where,
                    ""@,
                    Layout::Spaced,
                    After::Parenthesis,
                    "\n            "@,
                ),
                seq![organization_id.bound()],
            ),
    {
        let pending = OrganizationStatus::PendingOwner.as_str();
        let unclaimed = tenant::organization(
            Self::DISCARD_UNCLAIMED_MEMBERS,
            Before::Where,
            "",
            Layout::Spaced,
            After::Parenthesis,
            "\n            ",
        );
        let text = text::join(Self::DISCARD_UNCLAIMED, pending).concat(unclaimed.as_str());
        Statement::changed(text.as_str()).bind(organization_id)
    }

    pub const PENDING_OWNER_COUNT: &'static str =
        "SELECT count(*) FROM organizations WHERE status = '";

    pub const PENDING_OWNER_COUNT_TAIL: &'static str = "'";

    /// Counts organizations still waiting for an owner.
    pub fn pending_owner_count() -> (statement: Statement)
        ensures
            statement@ == StatementView::one(
                Self::PENDING_OWNER_COUNT@ + OrganizationStatus::PendingOwner.text()
                    + Self::PENDING_OWNER_COUNT_TAIL@,
                seq![],
            ),
    {
        let pending = OrganizationStatus::PendingOwner.as_str();
        let text = text::join(Self::PENDING_OWNER_COUNT, pending).concat(
            Self::PENDING_OWNER_COUNT_TAIL,
        );
        Statement::one(text.as_str())
    }

    pub const IS_KNOWN: &'static str = r#"
            SELECT EXISTS(SELECT 1 FROM organizations WHERE id = $1)
            "#;

    /// Reports whether the organization exists.
    pub fn is_known(organization_id: Uuid) -> (statement: Statement)
        ensures
            statement@ == StatementView::one(Self::IS_KNOWN@, seq![organization_id.bound()]),
    {
        Statement::one(Self::IS_KNOWN).bind(organization_id)
    }
}

/// The two states are stored as different values, so that a stored value
/// tells them apart.
pub proof fn states_are_stored_apart(one: OrganizationStatus, other: OrganizationStatus)
    requires
        one.text() == other.text(),
    ensures
        one == other,
{
    reveal_strlit("pending_owner");
    reveal_strlit("active");
    assert("pending_owner"@.len() != "active"@.len());
}

/// There is one organization of a slug. Where one has it, only its name changes
/// and its id stays; where none has, the organization is added. Every other
/// organization is as it was.
pub proof fn slug_keeps_one_organization(
    table: Table,
    id: Uuid,
    slug: &str,
    name: &str,
    less: spec_fn(Bound, Bound) -> bool,
)
    requires
        table.contains_key(seq![slug.bound()]) ==> table[seq![slug.bound()]].len() == 3,
    ensures
        ({
            let key: Seq<Bound> = seq![slug.bound()];
            OrganizationRepository::named(id, slug, name).applied(table, less) == table.insert(
                key,
                if table.contains_key(key) {
                    table[key].update(2, name.bound())
                } else {
                    seq![id.bound(), slug.bound(), name.bound()]
                },
            )
        }),
{
    let key: Seq<Bound> = seq![slug.bound()];
    let written = OrganizationRepository::named(id, slug, name);
    assert(written.key =~= key);
    if table.contains_key(key) {
        assert(written.over(table[key], less) =~= table[key].update(2, name.bound()));
    } else {
        assert(written.values =~= seq![id.bound(), slug.bound(), name.bound()]);
    }
}

/// An organization moves only from the one status to the other, and where a user with
/// the role of an owner in it meets the condition.
pub proof fn activation_asks_for_an_owner(
    from: OrganizationStatus,
    to: OrganizationStatus,
    active_user: Seq<char>,
)
    ensures
        OrganizationRepository::activate_when_owned_text(from, to, active_user)
            == OrganizationRepository::ACTIVATE_WHEN_OWNED@ + to.text()
                + OrganizationRepository::ACTIVATE_WHEN_OWNED_FROM@ + from.text()
                + OrganizationRepository::ACTIVATE_WHEN_OWNED_OWNER@ + "WHERE "@
                + tenant::organization_filter("m."@, Layout::Spaced, Start::First) + " AND "@
                + OrganizationRepository::ACTIVATE_WHEN_OWNED_ACTIVE@ + active_user + ")"@,
{
    assert(OrganizationRepository::activate_when_owned_text(from, to, active_user)
        =~= OrganizationRepository::ACTIVATE_WHEN_OWNED@ + to.text()
            + OrganizationRepository::ACTIVATE_WHEN_OWNED_FROM@ + from.text()
            + OrganizationRepository::ACTIVATE_WHEN_OWNED_OWNER@ + "WHERE "@
            + tenant::organization_filter("m."@, Layout::Spaced, Start::First) + " AND "@
            + OrganizationRepository::ACTIVATE_WHEN_OWNED_ACTIVE@ + active_user + ")"@);
}

/// The stored value of each status.
pub proof fn statuses_are_written_so()
    ensures
        OrganizationStatus::PendingOwner.text() == "pending_owner"@,
        OrganizationStatus::Active.text() == "active"@,
{
}

/// An organization is on the page exactly where it comes behind the cursor, or
/// no cursor is given.
pub proof fn platform_page_holds_the_organizations_behind_the_cursor(
    organization: Record,
    cursor: Option<Uuid>,
    fetch_limit: i64,
    database: Database,
)
    ensures
        ({
            let values: Seq<Bound> = seq![
                cursor.bound(),
                fetch_limit.bound(),
            ];
            condition::selects(
                OrganizationRepository::platform_listing(),
                organization,
                values,
                database,
            ) <==> {
                &&& cursor is Some ==> {
                    &&& !condition::lacks(organization, "id"@)
                    &&& (database.less)(cursor.bound(), organization["id"@])
                }
            }
        }),
{
    let values: Seq<Bound> = seq![
        cursor.bound(),
        fetch_limit.bound(),
    ];
    let conditions = OrganizationRepository::platform_listing();
    assert(condition::selects(conditions, organization, values, database) <==> {
        &&& conditions[0].holds(organization, values, database)
    });
}

} // verus!
