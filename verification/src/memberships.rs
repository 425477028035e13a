//! Membership persistence: who belongs to an organization or a project, and
//! in what role.
//!
//! These rows decide authorization, so the predicates that read them are
//! written here and nowhere else. A membership check that correlates with the
//! columns of a larger statement stays in that statement.

use uuid::Uuid;
use vstd::prelude::*;

#[allow(unused_imports)]
use crate::statement::Bind;
use crate::condition::{Condition, Database, Record, Test};
use crate::condition;
use crate::insert::{Row, RowView, Style};
use crate::insert;
use crate::statement::{Bound, Fetch, Statement, StatementView};
use crate::tenant::{After, Before, Layout, Start};
use crate::tenant;
use crate::text;
use crate::upsert::{Table, Target, Upsert, UpsertView};
use crate::upsert;

verus! {

broadcast use tenant::known_aliases_name_tables;

/// Queries against `organization_memberships` and `project_memberships`.
#[derive(Clone, Copy, Debug)]
pub struct MembershipRepository;

impl MembershipRepository {
    pub const PROJECT_ROLE: &'static str = r#"
            SELECT role FROM project_memberships
            "#;

    pub const PROJECT_ROLE_TAIL: &'static str = r#"user_id = $3
            "#;

    /// Returns the user's role in the project, or `None` when they hold no
    /// membership of their own.
    ///
    /// `None` is not "no access": a user who inherits project access from an
    /// organization role has no row here, and callers resolve that before
    /// asking. It means only that there is no direct grant.
    ///
    /// All three columns are matched. Narrowing to `project_id` alone would
    /// still identify the project, since the id is unique, but it would let a
    /// mismatched organization pass unnoticed if a future caller supplies one.
    pub fn project_role(
        organization_id: Uuid,
        project_id: Uuid,
        user_id: Uuid,
    ) -> (statement: Statement)
        ensures
            statement@ == StatementView::optional(
                tenant::project_text(
                    Self::PROJECT_ROLE@,
                    Before::Where,
                    ""@,
                    Layout::Lines,
                    After::And,
                    Self::PROJECT_ROLE_TAIL@,
                ),
                seq![organization_id.bound(), project_id.bound(), user_id.bound()],
            ),
            tenant::filters_by_project(statement@, organization_id, project_id),
    {
        let text = tenant::project(
            Self::PROJECT_ROLE,
            Before::Where,
            "",
            Layout::Lines,
            After::And,
            Self::PROJECT_ROLE_TAIL,
        );
        Statement::optional(text.as_str()).bind(organization_id).bind(project_id).bind(user_id)
    }

    pub const ORGANIZATION_ROLE_WHEN_ACTIVE: &'static str = r#"
            SELECT m.role FROM organization_memberships m
            JOIN organizations o ON o.id = m.organization_id
            WHERE "#;

    pub const ORGANIZATION_ROLE_WHEN_ACTIVE_USER: &'static str = r#"m.user_id = $1
              "#;

    pub const ORGANIZATION_ROLE_WHEN_ACTIVE_TAIL: &'static str = r#"o.status = 'active'
            "#;

    /// The conditions that a role in an organization is read by, on the
    /// membership `m` and the organization `o` that it is of.
    pub open spec fn active_role_conditions() -> Seq<Condition> {
        seq![
            Condition::Compared("m.user_id"@, Test::Equal, 1),
            Condition::Compared("m.organization_id"@, Test::Equal, 2),
            Condition::Word("o.status"@, "active"@),
        ]
    }

    /// Returns the user's role in the organization, provided the organization
    /// is active.
    ///
    /// The status join is part of the authorization decision, not a detail of
    /// the query. An organization awaiting its first owner, or one being torn
    /// down, still has membership rows; treating those as grants would let a
    /// member act inside an organization that is not yet, or no longer, in
    /// service. A caller wanting the role regardless of status is asking a
    /// different question and needs a different method.
    pub fn organization_role_when_active(
        user_id: Uuid,
        organization_id: Uuid,
    ) -> (statement: Statement)
        ensures
            statement@ == StatementView::optional(
                tenant::organization_text_from(
                    Start::Second,
                    Self::ORGANIZATION_ROLE_WHEN_ACTIVE@
                        + Self::ORGANIZATION_ROLE_WHEN_ACTIVE_USER@,
                    Before::And,
                    "m."@,
                    Layout::Lines,
                    After::And,
                    Self::ORGANIZATION_ROLE_WHEN_ACTIVE_TAIL@,
                ),
                seq![user_id.bound(), organization_id.bound()],
            ),
            statement@.text == Self::ORGANIZATION_ROLE_WHEN_ACTIVE@ + condition::equalities_text(
                Self::active_role_conditions(),
                Layout::Lines,
            ) + "\n            "@,
            tenant::filters_by_organization_from(statement@, Start::Second, organization_id),
    {
        let head = text::join(
            Self::ORGANIZATION_ROLE_WHEN_ACTIVE,
            Self::ORGANIZATION_ROLE_WHEN_ACTIVE_USER,
        );
        let text = tenant::organization_from(
            Start::Second,
            head.as_str(),
            Before::And,
            "m.",
            Layout::Lines,
            After::And,
            Self::ORGANIZATION_ROLE_WHEN_ACTIVE_TAIL,
        );
        proof {
            lemma_active_role_text();
            assert(text@ =~= Self::ORGANIZATION_ROLE_WHEN_ACTIVE@ + (
            Self::ORGANIZATION_ROLE_WHEN_ACTIVE_USER@ + "AND "@ + tenant::organization_filter(
                "m."@,
                Layout::Lines,
                Start::Second,
            ) + After::And.text(Layout::Lines) + Self::ORGANIZATION_ROLE_WHEN_ACTIVE_TAIL@));
            assert(text@ =~= Self::ORGANIZATION_ROLE_WHEN_ACTIVE@ + condition::equalities_text(
                Self::active_role_conditions(),
                Layout::Lines,
            ) + "\n            "@);
        }
        Statement::optional(text.as_str()).bind(user_id).bind(organization_id)
    }

    pub const ACCESSIBLE_PROJECT_IDS: &'static str = r#"
            SELECT project_id FROM project_memberships
            "#;

    pub const ACCESSIBLE_PROJECT_IDS_TAIL: &'static str = r#"user_id = $2
            ORDER BY project_id
            "#;

    /// Returns the projects within an organization the user holds a direct
    /// membership of, ordered by id.
    ///
    /// The order is part of the contract: callers page over the result, and an
    /// unordered scan would let rows repeat or vanish between pages.
    pub fn accessible_project_ids(organization_id: Uuid, user_id: Uuid) -> (statement: Statement)
        ensures
            statement@ == StatementView::all(
                tenant::organization_text(
                    Self::ACCESSIBLE_PROJECT_IDS@,
                    Before::Where,
                    ""@,
                    Layout::Spaced,
                    After::And,
                    Self::ACCESSIBLE_PROJECT_IDS_TAIL@,
                ),
                seq![organization_id.bound(), user_id.bound()],
            ),
            tenant::filters_by_organization(statement@, organization_id),
    {
        let text = tenant::organization(
            Self::ACCESSIBLE_PROJECT_IDS,
            Before::Where,
            "",
            Layout::Spaced,
            After::And,
            Self::ACCESSIBLE_PROJECT_IDS_TAIL,
        );
        Statement::all(text.as_str()).bind(organization_id).bind(user_id)
    }

    pub const ORGANIZATION_OWNER_COUNT: &'static str = r#"
            SELECT count(*) FROM organization_memberships
            "#;

    pub const ORGANIZATION_OWNER_COUNT_TAIL: &'static str = r#"role = 'owner'
            "#;

    /// Counts the owners of an organization.
    ///
    /// Used to refuse the removal or demotion that would leave an organization
    /// with none. This counts rows, not people who can act: an owner whose
    /// account is disabled still holds the role, and still keeps the
    /// organization from becoming ownerless.
    /// That is deliberately weaker than a count of the owners who can act.
    pub fn organization_owner_count(organization_id: Uuid) -> (statement: Statement)
        ensures
            statement@ == StatementView::one(
                tenant::organization_text(
                    Self::ORGANIZATION_OWNER_COUNT@,
                    Before::Where,
                    ""@,
                    Layout::Spaced,
                    After::And,
                    Self::ORGANIZATION_OWNER_COUNT_TAIL@,
                ),
                seq![organization_id.bound()],
            ),
            tenant::filters_by_organization(statement@, organization_id),
    {
        let text = tenant::organization(
            Self::ORGANIZATION_OWNER_COUNT,
            Before::Where,
            "",
            Layout::Spaced,
            After::And,
            Self::ORGANIZATION_OWNER_COUNT_TAIL,
        );
        Statement::one(text.as_str()).bind(organization_id)
    }

    /// The membership of a user in an organization.
    pub open spec fn organization_role_row(
        organization_id: Uuid,
        user_id: Uuid,
        role: &str,
    ) -> RowView {
        insert::row(Style::Lines, "organization_memberships"@)
            .set("organization_id"@, organization_id.bound())
            .set("user_id"@, user_id.bound())
            .set("role"@, role.bound())
    }

    /// The membership of a user in an organization.
    fn organization_role(organization_id: Uuid, user_id: Uuid, role: &str) -> (row: Row)
        ensures
            row@ == Self::organization_role_row(organization_id, user_id, role),
    {
        Row::new(Style::Lines, "organization_memberships")
            .set("organization_id", organization_id)
            .set("user_id", user_id)
            .set("role", role)
    }

    pub const INSERT_ORGANIZATION_ROLE: &'static str = r#"
            "#;

    /// Grants an organization role, failing if the user already holds one.
    ///
    /// The primary key rejects a duplicate, and the caller reports that as a
    /// conflict. Use [`Self::grant_organization_role_if_absent`] where a repeat
    /// is expected rather than an error.
    pub fn insert_organization_role(
        organization_id: Uuid,
        user_id: Uuid,
        role: &str,
    ) -> (statement: Statement)
        ensures
            statement@ == Self::organization_role_row(organization_id, user_id, role).finish(
                Self::INSERT_ORGANIZATION_ROLE@,
                Fetch::Nothing,
            ),
    {
        Self::organization_role(
            organization_id,
            user_id,
            role,
        ).finish(Self::INSERT_ORGANIZATION_ROLE, Fetch::Nothing)
    }

    /// A role of a user in an organization, where there is none.
    pub open spec fn organization_grant(
        organization_id: Uuid,
        user_id: Uuid,
        role: &str,
    ) -> UpsertView {
        upsert::upsert(Style::Lines, Target::Lines, "organization_memberships"@)
            .key("organization_id"@, organization_id.bound())
            .key("user_id"@, user_id.bound())
            .kept("role"@, role.bound())
    }

    /// Grants an organization role, leaving an existing one untouched.
    ///
    /// Accepting an invitation takes this path: the invitation may name a role
    /// the user already holds, and re-accepting must not fail, nor silently
    /// change a role the invitation was not issued to change.
    pub fn grant_organization_role_if_absent(
        organization_id: Uuid,
        user_id: Uuid,
        role: &str,
    ) -> (statement: Statement)
        ensures
            statement@ == Self::organization_grant(organization_id, user_id, role).finish_once(
                "\n            "@,
                Fetch::Nothing,
            ),
    {
        Upsert::new(Style::Lines, Target::Lines, "organization_memberships")
            .key("organization_id", organization_id)
            .key("user_id", user_id)
            .kept("role", role)
            .finish_once("\n            ", Fetch::Nothing)
    }

    /// The membership of a user in a project.
    pub open spec fn project_member_role_row(
        organization_id: Uuid,
        project_id: Uuid,
        user_id: Uuid,
        role: &str,
    ) -> RowView {
        insert::row(Style::Lines, "project_memberships"@)
            .set("organization_id"@, organization_id.bound())
            .set("project_id"@, project_id.bound())
            .set("user_id"@, user_id.bound())
            .set("role"@, role.bound())
    }

    /// The membership of a user in a project.
    fn project_member_role(
        organization_id: Uuid,
        project_id: Uuid,
        user_id: Uuid,
        role: &str,
    ) -> (row: Row)
        ensures
            row@ == Self::project_member_role_row(organization_id, project_id, user_id, role),
    {
        Row::new(Style::Lines, "project_memberships")
            .set("organization_id", organization_id)
            .set("project_id", project_id)
            .set("user_id", user_id)
            .set("role", role)
    }

    pub const INSERT_PROJECT_ROLE: &'static str = r#"
            "#;

    /// Grants a project role, failing if the user already holds one.
    ///
    /// A project membership requires an organization membership: the foreign
    /// key `project_memberships_organization_id_user_id_fkey` refuses a row
    /// whose `(organization_id, user_id)` pair has none. Callers granting both
    /// must do so in that order, which is why accepting a project invitation
    /// grants the organization role first.
    pub fn insert_project_role(
        organization_id: Uuid,
        project_id: Uuid,
        user_id: Uuid,
        role: &str,
    ) -> (statement: Statement)
        ensures
            statement@ == Self::project_member_role_row(
                organization_id,
                project_id,
                user_id,
                role,
            ).finish(Self::INSERT_PROJECT_ROLE@, Fetch::Nothing),
    {
        Self::project_member_role(
            organization_id,
            project_id,
            user_id,
            role,
        ).finish(Self::INSERT_PROJECT_ROLE, Fetch::Nothing)
    }

    /// A role of a user in a project, where there is none.
    pub open spec fn project_grant(
        organization_id: Uuid,
        project_id: Uuid,
        user_id: Uuid,
        role: &str,
    ) -> UpsertView {
        upsert::upsert(Style::Lines, Target::Lines, "project_memberships"@)
            .kept("organization_id"@, organization_id.bound())
            .key("project_id"@, project_id.bound())
            .key("user_id"@, user_id.bound())
            .kept("role"@, role.bound())
    }

    /// Grants a project role, leaving an existing one untouched.
    ///
    /// Subject to the same ordering requirement as [`Self::insert_project_role`].
    pub fn grant_project_role_if_absent(
        organization_id: Uuid,
        project_id: Uuid,
        user_id: Uuid,
        role: &str,
    ) -> (statement: Statement)
        ensures
            statement@ == Self::project_grant(
                organization_id,
                project_id,
                user_id,
                role,
            ).finish_once("\n            "@, Fetch::Nothing),
    {
        Upsert::new(Style::Lines, Target::Lines, "project_memberships")
            .kept("organization_id", organization_id)
            .key("project_id", project_id)
            .key("user_id", user_id)
            .kept("role", role)
            .finish_once("\n            ", Fetch::Nothing)
    }

    pub const REMOVE_ORGANIZATION_ROLE: &'static str = r#"
            DELETE FROM organization_memberships
            "#;

    pub const REMOVE_ORGANIZATION_ROLE_TAIL: &'static str = r#"user_id = $2
            "#;

    /// Revokes an organization membership, reporting whether one was removed.
    pub fn remove_organization_role(organization_id: Uuid, user_id: Uuid) -> (statement: Statement)
        ensures
            statement@ == StatementView::changed(
                tenant::organization_text(
                    Self::REMOVE_ORGANIZATION_ROLE@,
                    Before::Where,
                    ""@,
                    Layout::Spaced,
                    After::And,
                    Self::REMOVE_ORGANIZATION_ROLE_TAIL@,
                ),
                seq![organization_id.bound(), user_id.bound()],
            ),
            tenant::filters_by_organization(statement@, organization_id),
    {
        let text = tenant::organization(
            Self::REMOVE_ORGANIZATION_ROLE,
            Before::Where,
            "",
            Layout::Spaced,
            After::And,
            Self::REMOVE_ORGANIZATION_ROLE_TAIL,
        );
        Statement::changed(text.as_str()).bind(organization_id).bind(user_id)
    }

    pub const REMOVE_PROJECT_ROLE: &'static str = r#"
            DELETE FROM project_memberships
            WHERE project_id = $1 AND user_id = $2
            "#;

    /// Revokes a project membership, reporting whether one was removed.
    pub fn remove_project_role(project_id: Uuid, user_id: Uuid) -> (statement: Statement)
        ensures
            statement@ == StatementView::changed(
                Self::REMOVE_PROJECT_ROLE@,
                seq![project_id.bound(), user_id.bound()],
            ),
    {
        Statement::changed(Self::REMOVE_PROJECT_ROLE).bind(project_id).bind(user_id)
    }
}

/// A grant leaves an organization role that is held untouched, and grants the
/// role where there is none. Every other membership is as it was.
pub proof fn held_organization_role_stays(
    table: Table,
    organization_id: Uuid,
    user_id: Uuid,
    role: &str,
)
    ensures
        ({
            let key: Seq<Bound> = seq![organization_id.bound(), user_id.bound()];
            let after = MembershipRepository::organization_grant(
                organization_id,
                user_id,
                role,
            ).applied_once(table);
            &&& table.contains_key(key) ==> after == table
            &&& !table.contains_key(key) ==> after == table.insert(
                key,
                seq![organization_id.bound(), user_id.bound(), role.bound()],
            )
        }),
{
    let grant = MembershipRepository::organization_grant(organization_id, user_id, role);
    assert(grant.key =~= seq![organization_id.bound(), user_id.bound()]);
    assert(grant.values =~= seq![organization_id.bound(), user_id.bound(), role.bound()]);
}

/// A grant leaves a project role that is held untouched, and grants the role
/// where there is none. Every other membership is as it was.
pub proof fn held_project_role_stays(
    table: Table,
    organization_id: Uuid,
    project_id: Uuid,
    user_id: Uuid,
    role: &str,
)
    ensures
        ({
            let key: Seq<Bound> = seq![project_id.bound(), user_id.bound()];
            let after = MembershipRepository::project_grant(
                organization_id,
                project_id,
                user_id,
                role,
            ).applied_once(table);
            &&& table.contains_key(key) ==> after == table
            &&& !table.contains_key(key) ==> after == table.insert(
                key,
                seq![
                    organization_id.bound(),
                    project_id.bound(),
                    user_id.bound(),
                    role.bound(),
                ],
            )
        }),
{
    let grant = MembershipRepository::project_grant(organization_id, project_id, user_id, role);
    assert(grant.key =~= seq![project_id.bound(), user_id.bound()]);
    assert(grant.values =~= seq![
        organization_id.bound(),
        project_id.bound(),
        user_id.bound(),
        role.bound(),
    ]);
}

/// The conditions on a role, written out.
proof fn lemma_active_role_text()
    ensures
        MembershipRepository::ORGANIZATION_ROLE_WHEN_ACTIVE_USER@ + "AND "@
            + tenant::organization_filter("m."@, Layout::Lines, Start::Second)
            + After::And.text(Layout::Lines)
            + MembershipRepository::ORGANIZATION_ROLE_WHEN_ACTIVE_TAIL@
            == condition::equalities_text(
            MembershipRepository::active_role_conditions(),
            Layout::Lines,
        ) + "\n            "@,
{
    reveal_strlit("m.user_id = $1\n              ");
    reveal_strlit("o.status = 'active'\n            ");
    reveal_strlit("m.");
    reveal_strlit("m.user_id");
    reveal_strlit("m.organization_id");
    reveal_strlit("organization_id");
    reveal_strlit("o.status");
    reveal_strlit("active");
    reveal_strlit("'");
    reveal_strlit("AND ");
    reveal_strlit(" = ");
    reveal_strlit("\n              AND ");
    reveal_strlit("\n            ");
    reveal_strlit("$");
    reveal_strlit("1");
    reveal_strlit("2");
    reveal_strlit("$2");
    let conditions = MembershipRepository::active_role_conditions();
    let two = conditions.drop_last();
    assert(two.drop_last() =~= seq![conditions[0]]);
    let layout = Layout::Lines;
    let user = "m.user_id"@ + " = "@ + "$"@ + "1"@;
    let organization = "m.organization_id"@ + " = "@ + "$"@ + "2"@;
    let status = "o.status"@ + " = "@ + "'"@ + "active"@ + "'"@;
    assert(condition::equality_text(conditions[0], layout) =~= user);
    assert(condition::equality_text(conditions[1], layout) =~= organization);
    assert(condition::equality_text(conditions[2], layout) =~= status);
    reveal_with_fuel(condition::equalities_text, 3);
    assert(condition::equalities_text(seq![conditions[0]], layout) =~= user);
    assert(condition::equalities_text(two, layout) =~= user + layout.and() + organization);
    assert(condition::equalities_text(conditions, layout) =~= user + layout.and() + organization
        + layout.and() + status);
    assert(MembershipRepository::ORGANIZATION_ROLE_WHEN_ACTIVE_USER@ + "AND "@ =~= user
        + layout.and());
    assert(tenant::organization_filter("m."@, layout, Start::Second) =~= organization);
    assert(MembershipRepository::ORGANIZATION_ROLE_WHEN_ACTIVE_TAIL@ =~= status
        + "\n            "@);
}

/// A membership confers a role only in an active organization: whatever its row
/// says, an organization of another status confers none.
pub proof fn only_an_active_organization_confers_a_role(
    membership: Record,
    user_id: Uuid,
    organization_id: Uuid,
    database: Database,
)
    ensures
        condition::selects(
            MembershipRepository::active_role_conditions(),
            membership,
            seq![user_id.bound(), organization_id.bound()],
            database,
        ) <==> {
            &&& condition::has(membership, "m.user_id"@, user_id.bound())
            &&& condition::has(membership, "m.organization_id"@, organization_id.bound())
            &&& condition::has(membership, "o.status"@, Bound::Text(Some("active"@)))
        },
{
    let conditions = MembershipRepository::active_role_conditions();
    let values: Seq<Bound> = seq![user_id.bound(), organization_id.bound()];
    assert(condition::selects(conditions, membership, values, database) <==> {
        &&& conditions[0].holds(membership, values, database)
        &&& conditions[1].holds(membership, values, database)
        &&& conditions[2].holds(membership, values, database)
    });
}

} // verus!
