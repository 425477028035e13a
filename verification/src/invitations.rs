//! Invitation persistence: pending, replaced, revoked and accepted
//! invitations to an organization or one of its projects, and the checks the
//! issuing flow makes against them.

use uuid::Uuid;
use vstd::prelude::*;

#[allow(unused_imports)]
use crate::statement::Bind;
use crate::condition::{Condition, Conditions, Database, Record, Test};
use crate::condition;
use crate::insert::{Row, Style};
use crate::insert;
use crate::statement::{Bound, Fetch, Statement, StatementView, Timestamp};
use crate::tenant::{After, Before, Layout, Start};
use crate::tenant;
use crate::text;
use crate::update::{Change, Changes, Form};
use crate::update;

verus! {

broadcast use {tenant::known_aliases_name_tables, condition::known_words_are_plain};

/// Invitations: issuing, replacing, revoking and accepting them, and the
/// reads behind the invitation endpoints.
#[derive(Clone, Copy, Debug)]
pub struct InvitationRepository;

impl InvitationRepository {
    /// The invitation projection the endpoints read: the invitation with its
    /// organization and project names and the inviter's display name.
    ///
    /// Selects `id`, `organization_id`, `organization_name`, `project_id`,
    /// `project_name`, `recipient_email`, `role`, `inviter_display_name`,
    /// `locale`, `created_at`, `expires_at`, `accepted_at`,
    /// `accepted_by_user_id`, `revoked_at` and `replaced_at`.
    pub const INVITATION_SELECT: &'static str =
        "SELECT i.id,i.organization_id,o.name organization_name,i.project_id,p.name project_name,i.recipient_email,i.role,u.display_name inviter_display_name,i.locale,i.created_at,i.expires_at,i.accepted_at,i.accepted_by_user_id,i.revoked_at,i.replaced_at FROM invitations i JOIN organizations o ON o.id=i.organization_id LEFT JOIN projects p ON p.id=i.project_id JOIN users u ON u.id=i.inviter_user_id";

    /// Locks the invitations that a statement reads.
    pub const FOR_UPDATE: &'static str = " FOR UPDATE OF i";

    /// The statement that reads what `reading` reads, and locks it.
    pub open spec fn locking(reading: StatementView) -> StatementView {
        StatementView { text: reading.text + Self::FOR_UPDATE@, ..reading }
    }

    pub const DELETE_RETAINED: &'static str =
        "DELETE FROM invitations WHERE ";

    /// Whether the time that the invitation is kept until has passed.
    pub const IS_PAST_RETENTION: &'static str =
        "retain_until<now()";

    /// The conditions on an invitation that is deleted.
    pub open spec fn past_retention() -> Seq<Condition> {
        seq![Condition::Asked(Self::IS_PAST_RETENTION@)]
    }

    /// Deletes invitations past their retention.
    pub fn delete_retained() -> (statement: Statement)
        ensures
            statement@ == StatementView::affected(
                Self::DELETE_RETAINED@ + condition::all_text(Self::past_retention()),
                seq![],
            ),
    {
        let conditions = Conditions::new().asked(Self::IS_PAST_RETENTION);
        assert(conditions@ =~= Self::past_retention());
        let text = text::join(Self::DELETE_RETAINED, conditions.into_text().as_str());
        Statement::affected(text.as_str())
    }

    pub const GET: &'static str = " WHERE i.id=$1";

    /// The statement that reads an invitation by its id.
    pub open spec fn reading_get(invitation_id: Uuid) -> StatementView {
        StatementView::optional(Self::INVITATION_SELECT@ + Self::GET@, seq![invitation_id.bound()])
    }

    /// The invitation with this id.
    pub fn get(invitation_id: Uuid) -> (statement: Statement)
        ensures
            statement@ == Self::reading_get(invitation_id),
    {
        let text = text::join(Self::INVITATION_SELECT, Self::GET);
        Statement::optional(text.as_str()).bind(invitation_id)
    }

    /// Locks the invitation with this id and returns it.
    pub fn get_for_update(invitation_id: Uuid) -> (statement: Statement)
        ensures
            statement@ == Self::locking(Self::reading_get(invitation_id)),
    {
        let text = text::join(Self::INVITATION_SELECT, Self::GET).concat(Self::FOR_UPDATE);
        Statement::optional(text.as_str()).bind(invitation_id)
    }

    pub const BY_TOKEN_DIGEST: &'static str = " WHERE i.token_digest=$1";

    /// The statement that reads an invitation by the digest of its token.
    pub open spec fn reading_by_token_digest(token_digest: Vec<u8>) -> StatementView {
        StatementView::optional(
            Self::INVITATION_SELECT@ + Self::BY_TOKEN_DIGEST@,
            seq![token_digest.bound()],
        )
    }

    /// The invitation whose token hashes to `token_digest`.
    pub fn by_token_digest(token_digest: Vec<u8>) -> (statement: Statement)
        ensures
            statement@ == Self::reading_by_token_digest(token_digest),
    {
        let text = text::join(Self::INVITATION_SELECT, Self::BY_TOKEN_DIGEST);
        Statement::optional(text.as_str()).bind(token_digest)
    }

    /// Locks the invitation whose token hashes to `token_digest` and returns
    /// it.
    pub fn by_token_digest_for_update(token_digest: Vec<u8>) -> (statement: Statement)
        ensures
            statement@ == Self::locking(Self::reading_by_token_digest(token_digest)),
    {
        let text = text::join(Self::INVITATION_SELECT, Self::BY_TOKEN_DIGEST)
            .concat(Self::FOR_UPDATE);
        Statement::optional(text.as_str()).bind(token_digest)
    }

    pub const PAGE: &'static str =
        " WHERE ($1::uuid IS NULL OR (i.created_at,i.id)<(SELECT created_at,id FROM invitations WHERE id=$1)) ORDER BY i.created_at DESC,i.id DESC LIMIT $2";

    /// A page of all invitations, newest first, after the cursor invitation
    /// when one is given.
    pub fn page(cursor: Option<Uuid>, fetch_limit: i64) -> (statement: Statement)
        ensures
            statement@ == StatementView::all(
                Self::INVITATION_SELECT@ + Self::PAGE@,
                seq![cursor.bound(), fetch_limit.bound()],
            ),
    {
        let text = text::join(Self::INVITATION_SELECT, Self::PAGE);
        Statement::all(text.as_str()).bind(cursor).bind(fetch_limit)
    }

    pub const ORGANIZATION_PAGE_CURSOR: &'static str =
        "i.project_id IS NULL AND ($2::uuid IS NULL OR (i.created_at,i.id)<(SELECT created_at,id FROM invitations WHERE id=$2 ";

    pub const ORGANIZATION_PAGE_TAIL: &'static str =
        "project_id IS NULL)) ORDER BY i.created_at DESC,i.id DESC LIMIT $3";

    /// A page of the organization's own invitations (not its projects'),
    /// newest first, after the cursor invitation when one is given.
    pub fn organization_page(
        organization_id: Uuid,
        cursor: Option<Uuid>,
        fetch_limit: i64,
    ) -> (statement: Statement)
        ensures
            statement@ == StatementView::all(
                tenant::organization_text(
                    Self::INVITATION_SELECT@ + " "@,
                    Before::Where,
                    "i."@,
                    Layout::Tight,
                    After::And,
                    tenant::organization_text(
                        Self::ORGANIZATION_PAGE_CURSOR@,
                        Before::And,
                        ""@,
                        Layout::Tight,
                        After::And,
                        Self::ORGANIZATION_PAGE_TAIL@,
                    ),
                ),
                seq![organization_id.bound(), cursor.bound(), fetch_limit.bound()],
            ),
            tenant::filters_by_organization(statement@, organization_id),
    {
        let rest = tenant::organization(
            Self::ORGANIZATION_PAGE_CURSOR,
            Before::And,
            "",
            Layout::Tight,
            After::And,
            Self::ORGANIZATION_PAGE_TAIL,
        );
        let text = tenant::organization(
            text::join(Self::INVITATION_SELECT, " ").as_str(),
            Before::Where,
            "i.",
            Layout::Tight,
            After::And,
            rest.as_str(),
        );
        Statement::all(text.as_str()).bind(organization_id).bind(cursor).bind(fetch_limit)
    }

    pub const PROJECT_PAGE: &'static str =
        " WHERE i.project_id=$1 AND ($2::uuid IS NULL OR (i.created_at,i.id)<(SELECT created_at,id FROM invitations WHERE id=$2 AND project_id=$1)) ORDER BY i.created_at DESC,i.id DESC LIMIT $3";

    /// A page of the project's invitations, newest first, after the cursor
    /// invitation when one is given.
    pub fn project_page(
        project_id: Uuid,
        cursor: Option<Uuid>,
        fetch_limit: i64,
    ) -> (statement: Statement)
        ensures
            statement@ == StatementView::all(
                Self::INVITATION_SELECT@ + Self::PROJECT_PAGE@,
                seq![project_id.bound(), cursor.bound(), fetch_limit.bound()],
            ),
    {
        let text = text::join(Self::INVITATION_SELECT, Self::PROJECT_PAGE);
        Statement::all(text.as_str()).bind(project_id).bind(cursor).bind(fetch_limit)
    }

    pub const PENDING_OWNER_INVITATION_TAIL: &'static str = " ORDER BY i.created_at DESC,i.id DESC LIMIT 1";

    /// The conditions on a pending owner invitation, besides its organization.
    pub open spec fn pending_owner() -> Seq<Condition> {
        seq![
            Condition::Null("i.project_id"@),
            Condition::Word("i.role"@, "owner"@),
            Condition::Null("i.accepted_at"@),
            Condition::Null("i.revoked_at"@),
            Condition::Null("i.replaced_at"@),
        ]
    }

    /// The newest owner invitation to the organization that is neither
    /// accepted, revoked nor replaced. It may have expired.
    pub fn pending_owner_invitation(organization_id: Uuid) -> (statement: Statement)
        ensures
            statement@ == StatementView::optional(
                tenant::organization_text(
                    Self::INVITATION_SELECT@ + " "@,
                    Before::Where,
                    "i."@,
                    Layout::Tight,
                    After::And,
                    condition::all_text(Self::pending_owner())
                        + Self::PENDING_OWNER_INVITATION_TAIL@,
                ),
                seq![organization_id.bound()],
            ),
            tenant::filters_by_organization(statement@, organization_id),
    {
        let conditions = Conditions::new()
            .is_null("i.project_id")
            .word("i.role", "owner")
            .is_null("i.accepted_at")
            .is_null("i.revoked_at")
            .is_null("i.replaced_at");
        assert(conditions@ =~= Self::pending_owner());
        let tail = conditions.into_text().concat(Self::PENDING_OWNER_INVITATION_TAIL);
        let text = tenant::organization(
            text::join(Self::INVITATION_SELECT, " ").as_str(),
            Before::Where,
            "i.",
            Layout::Tight,
            After::And,
            tail.as_str(),
        );
        Statement::optional(text.as_str()).bind(organization_id)
    }

    /// Inserts a pending invitation, retained for a year past its expiry. A
    /// live invitation for the same recipient and scope violates a unique
    /// index, which callers report as a conflict.
    pub fn insert(
        id: Uuid,
        organization_id: Uuid,
        project_id: Option<Uuid>,
        recipient_email: &str,
        role: &str,
        inviter_user_id: Uuid,
        locale: &str,
        token_digest: Vec<u8>,
        expires_at: Timestamp,
    ) -> (statement: Statement)
        ensures
            statement@ == insert::row(Style::Tight, "invitations"@)
                .set("id"@, id.bound())
                .set("organization_id"@, organization_id.bound())
                .set("project_id"@, project_id.bound())
                .set("recipient_email"@, recipient_email.bound())
                .set("role"@, role.bound())
                .set("inviter_user_id"@, inviter_user_id.bound())
                .set("locale"@, locale.bound())
                .set("token_digest"@, token_digest.bound())
                .set("expires_at"@, expires_at.bound())
                .computed_again("retain_until"@, ""@, 9, "+interval '365 days'"@)
                .finish(""@, Fetch::Affected),
    {
        Row::new(Style::Tight, "invitations")
            .set("id", id)
            .set("organization_id", organization_id)
            .set("project_id", project_id)
            .set("recipient_email", recipient_email)
            .set("role", role)
            .set("inviter_user_id", inviter_user_id)
            .set("locale", locale)
            .set("token_digest", token_digest)
            .set("expires_at", expires_at)
            .computed_again("retain_until", "", 9, "+interval '365 days'")
            .finish("", Fetch::Affected)
    }

    pub const RECIPIENT_IS_PROJECT_MEMBER: &'static str =
        "SELECT EXISTS(SELECT 1 FROM users u JOIN project_memberships m ON m.user_id=u.id WHERE ";

    pub const RECIPIENT_IS_PROJECT_MEMBER_TAIL: &'static str = ")";

    /// The conditions on a member of a project.
    pub open spec fn member_of_project() -> Seq<Condition> {
        seq![
            Condition::Compared("u.email"@, Test::Equal, 1),
            Condition::Compared("m.project_id"@, Test::Equal, 2),
        ]
    }

    /// Reports whether a user with this email already belongs to the project.
    pub fn recipient_is_project_member(
        recipient_email: &str,
        project_id: Uuid,
    ) -> (statement: Statement)
        ensures
            statement@ == StatementView::one(
                Self::RECIPIENT_IS_PROJECT_MEMBER@ + condition::all_text(Self::member_of_project())
                    + Self::RECIPIENT_IS_PROJECT_MEMBER_TAIL@,
                seq![recipient_email.bound(), project_id.bound()],
            ),
    {
        let conditions = Conditions::new()
            .compared("u.email", Test::Equal, 1)
            .compared("m.project_id", Test::Equal, 2);
        assert(conditions@ =~= Self::member_of_project());
        let text = text::join(
            Self::RECIPIENT_IS_PROJECT_MEMBER,
            conditions.into_text().as_str(),
        ).concat(Self::RECIPIENT_IS_PROJECT_MEMBER_TAIL);
        Statement::one(text.as_str()).bind(recipient_email).bind(project_id)
    }

    pub const RECIPIENT_IS_ORGANIZATION_MEMBER: &'static str =
        "SELECT EXISTS(SELECT 1 FROM users u JOIN organization_memberships m ON m.user_id=u.id WHERE u.email=$1 ";

    /// Reports whether a user with this email already belongs to the
    /// organization.
    pub fn recipient_is_organization_member(
        recipient_email: &str,
        organization_id: Uuid,
    ) -> (statement: Statement)
        ensures
            statement@ == StatementView::one(
                tenant::organization_text_from(
                    Start::Second,
                    Self::RECIPIENT_IS_ORGANIZATION_MEMBER@,
                    Before::And,
                    "m."@,
                    Layout::Tight,
                    After::Parenthesis,
                    ""@,
                ),
                seq![recipient_email.bound(), organization_id.bound()],
            ),
            tenant::filters_by_organization_from(statement@, Start::Second, organization_id),
    {
        let text = tenant::organization_from(
            Start::Second,
            Self::RECIPIENT_IS_ORGANIZATION_MEMBER,
            Before::And,
            "m.",
            Layout::Tight,
            After::Parenthesis,
            "",
        );
        Statement::one(text.as_str()).bind(recipient_email).bind(organization_id)
    }

    pub const CREATED_LAST_HOUR: &'static str =
        "SELECT count(*) FROM invitations WHERE ";

    /// Whether the row is from the last hour.
    pub const IS_FROM_THE_LAST_HOUR: &'static str =
        "created_at>now()-interval '1 hour'";

    /// The conditions on a recent invitation of an inviter.
    pub open spec fn created_by_inviter() -> Seq<Condition> {
        seq![
            Condition::Compared("inviter_user_id"@, Test::Equal, 1),
            Condition::Asked(Self::IS_FROM_THE_LAST_HOUR@),
        ]
    }

    /// How many invitations the user issued in the last hour.
    pub fn created_last_hour(inviter_user_id: Uuid) -> (statement: Statement)
        ensures
            statement@ == StatementView::one(
                Self::CREATED_LAST_HOUR@ + condition::all_text(Self::created_by_inviter()),
                seq![inviter_user_id.bound()],
            ),
    {
        let conditions = Conditions::new()
            .compared("inviter_user_id", Test::Equal, 1)
            .asked(Self::IS_FROM_THE_LAST_HOUR);
        assert(conditions@ =~= Self::created_by_inviter());
        let text = text::join(Self::CREATED_LAST_HOUR, conditions.into_text().as_str());
        Statement::one(text.as_str()).bind(inviter_user_id)
    }

    pub const UNRESOLVED_EQUIVALENT_FOR_UPDATE: &'static str =
        "SELECT id,expires_at FROM invitations ";

    pub const UNRESOLVED_EQUIVALENT_FOR_UPDATE_TAIL: &'static str = " FOR UPDATE";

    /// Whether the invitation is for the project at `$2`, or for none where that is
    /// null.
    pub const IS_OF_THE_SCOPE: &'static str =
        "project_id IS NOT DISTINCT FROM $2";

    /// The conditions on an unresolved invitation, besides its organization.
    pub open spec fn unresolved() -> Seq<Condition> {
        seq![
            Condition::Asked(Self::IS_OF_THE_SCOPE@),
            Condition::Compared("recipient_email"@, Test::Equal, 3),
            Condition::Null("accepted_at"@),
            Condition::Null("revoked_at"@),
            Condition::Null("replaced_at"@),
        ]
    }

    /// Locks the invitation for this recipient and scope that is neither
    /// accepted, revoked nor replaced, returning its id and expiry. It may
    /// already have expired.
    pub fn unresolved_equivalent_for_update(
        organization_id: Uuid,
        project_id: Option<Uuid>,
        recipient_email: &str,
    ) -> (statement: Statement)
        ensures
            statement@ == StatementView::optional(
                tenant::organization_text(
                    Self::UNRESOLVED_EQUIVALENT_FOR_UPDATE@,
                    Before::Where,
                    ""@,
                    Layout::Tight,
                    After::And,
                    condition::all_text(Self::unresolved())
                        + Self::UNRESOLVED_EQUIVALENT_FOR_UPDATE_TAIL@,
                ),
                seq![organization_id.bound(), project_id.bound(), recipient_email.bound()],
            ),
            tenant::filters_by_organization(statement@, organization_id),
    {
        let conditions = Conditions::new()
            .asked(Self::IS_OF_THE_SCOPE)
            .compared("recipient_email", Test::Equal, 3)
            .is_null("accepted_at")
            .is_null("revoked_at")
            .is_null("replaced_at");
        assert(conditions@ =~= Self::unresolved());
        let tail = conditions.into_text().concat(Self::UNRESOLVED_EQUIVALENT_FOR_UPDATE_TAIL);
        let text = tenant::organization(
            Self::UNRESOLVED_EQUIVALENT_FOR_UPDATE,
            Before::Where,
            "",
            Layout::Tight,
            After::And,
            tail.as_str(),
        );
        Statement::optional(text.as_str())
            .bind(organization_id)
            .bind(project_id)
            .bind(recipient_email)
    }

    /// What a revocation changes.
    pub open spec fn revocation() -> Seq<Change> {
        seq![Change::Now("revoked_at"@)]
    }

    /// The conditions on the invitation of an id.
    pub open spec fn by_id() -> Seq<Condition> {
        seq![Condition::Compared("id"@, Test::Equal, 1)]
    }

    /// Marks an invitation revoked now.
    pub fn revoke(invitation_id: Uuid) -> (statement: Statement)
        ensures
            statement@ == StatementView::affected(
                "UPDATE invitations SET "@ + update::all_text(Self::revocation(), Form::Tight)
                    + " WHERE "@ + condition::all_text(Self::by_id()),
                seq![invitation_id.bound()]),
    {
        let changes = Changes::new(Form::Tight)
            .now("revoked_at");
        let conditions = Conditions::new().compared("id", Test::Equal, 1);
        assert(changes@ =~= Self::revocation());
        assert(conditions@ =~= Self::by_id());
        let text = text::join("UPDATE invitations SET ", changes.into_text().as_str())
            .concat(" WHERE ")
            .concat(conditions.into_text().as_str());
        Statement::affected(text.as_str()).bind(invitation_id)
    }

    /// What a replacement changes.
    pub open spec fn replacement() -> Seq<Change> {
        seq![
            Change::Null("revoked_at"@),
            Change::Now("replaced_at"@),
            Change::Given("replaced_by_invitation_id"@, 2),
        ]
    }

    /// Turns the revocation of an expired invitation into a replacement by a
    /// new one: clears `revoked_at` and records the replacement.
    pub fn mark_replaced(expired_id: Uuid, replacement_id: Uuid) -> (statement: Statement)
        ensures
            statement@ == StatementView::affected(
                "UPDATE invitations SET "@ + update::all_text(Self::replacement(), Form::Tight)
                    + " WHERE "@ + condition::all_text(Self::by_id()),
                seq![expired_id.bound(), replacement_id.bound()],
            ),
    {
        let changes = Changes::new(Form::Tight)
            .null("revoked_at")
            .now("replaced_at")
            .given("replaced_by_invitation_id", 2);
        let conditions = Conditions::new().compared("id", Test::Equal, 1);
        assert(changes@ =~= Self::replacement());
        assert(conditions@ =~= Self::by_id());
        let text = text::join("UPDATE invitations SET ", changes.into_text().as_str())
            .concat(" WHERE ")
            .concat(conditions.into_text().as_str());
        Statement::affected(text.as_str()).bind(expired_id).bind(replacement_id)
    }

    pub const MAIL_CONTEXT: &'static str =
        "SELECT o.name,p.name,u.display_name FROM organizations o LEFT JOIN projects p ON p.id=$2 JOIN users u ON u.id=$3 WHERE o.id=$1";

    /// The organization name, project name when scoped to a project, and
    /// inviter display name for the invitation mail.
    pub fn mail_context(
        organization_id: Uuid,
        project_id: Option<Uuid>,
        inviter_user_id: Uuid,
    ) -> (statement: Statement)
        ensures
            statement@ == StatementView::one(
                Self::MAIL_CONTEXT@,
                seq![organization_id.bound(), project_id.bound(), inviter_user_id.bound()],
            ),
    {
        Statement::one(Self::MAIL_CONTEXT)
            .bind(organization_id)
            .bind(project_id)
            .bind(inviter_user_id)
    }

    pub const RESENT_LAST_HOUR: &'static str =
        "SELECT count(*) FROM access_audit_records WHERE ";

    /// The conditions on a recent entry of a resent invitation.
    pub open spec fn resent_by_actor() -> Seq<Condition> {
        seq![
            Condition::Compared("actor_user_id"@, Test::Equal, 1),
            Condition::Word("action"@, "invitation.resent"@),
            Condition::Asked(Self::IS_FROM_THE_LAST_HOUR@),
        ]
    }

    /// How many invitations the user resent in the last hour, counted from
    /// the access audit.
    pub fn resent_last_hour(actor_user_id: Uuid) -> (statement: Statement)
        ensures
            statement@ == StatementView::one(
                Self::RESENT_LAST_HOUR@ + condition::all_text(Self::resent_by_actor()),
                seq![actor_user_id.bound()],
            ),
    {
        let conditions = Conditions::new()
            .compared("actor_user_id", Test::Equal, 1)
            .word("action", "invitation.resent")
            .asked(Self::IS_FROM_THE_LAST_HOUR);
        assert(conditions@ =~= Self::resent_by_actor());
        let text = text::join(Self::RESENT_LAST_HOUR, conditions.into_text().as_str());
        Statement::one(text.as_str()).bind(actor_user_id)
    }

    pub const CONSUME: &'static str = "UPDATE invitations SET ";

    /// What an acceptance changes.
    pub open spec fn acceptance() -> Seq<Change> {
        seq![Change::Now("accepted_at"@), Change::Given("accepted_by_user_id"@, 2)]
    }

    /// The conditions that an invitation is accepted by.
    pub open spec fn live() -> Seq<Condition> {
        seq![
            Condition::Compared("id"@, Test::Equal, 1),
            Condition::Null("accepted_at"@),
            Condition::Null("revoked_at"@),
            Condition::Null("replaced_at"@),
            Condition::ToCome("expires_at"@),
        ]
    }

    /// Accepts a live invitation on behalf of the user. Affects no row when
    /// the invitation is no longer live.
    pub fn consume(invitation_id: Uuid, user_id: Uuid) -> (statement: Statement)
        ensures
            statement@ == StatementView::affected(
                Self::CONSUME@ + update::all_text(Self::acceptance(), Form::Tight) + " WHERE "@
                    + condition::all_text(Self::live()),
                seq![invitation_id.bound(), user_id.bound()],
            ),
    {
        let changes = Changes::new(Form::Tight).now("accepted_at").given("accepted_by_user_id", 2);
        let conditions = Conditions::new()
            .compared("id", Test::Equal, 1)
            .is_null("accepted_at")
            .is_null("revoked_at")
            .is_null("replaced_at")
            .to_come("expires_at");
        assert(changes@ =~= Self::acceptance());
        assert(conditions@ =~= Self::live());
        let text = text::join(Self::CONSUME, changes.into_text().as_str())
            .concat(" WHERE ")
            .concat(conditions.into_text().as_str());
        Statement::affected(text.as_str()).bind(invitation_id).bind(user_id)
    }
}

/// An invitation is accepted while it is live: neither accepted, revoked nor
/// replaced, and its expiry to come. Its acceptance says when and by whom, and no
/// other acceptance follows, whoever asks and whenever.
pub proof fn invitation_is_accepted_once(
    invitation: Record,
    invitation_id: Uuid,
    user_id: Uuid,
    later_user_id: Uuid,
    database: Database,
    later: Database,
)
    requires
        !condition::is_null(database.now),
    ensures
        ({
            let values: Seq<Bound> = seq![invitation_id.bound(), user_id.bound()];
            let after = update::changed(
                InvitationRepository::acceptance(),
                invitation,
                values,
                database,
            );
            &&& condition::selects(InvitationRepository::live(), invitation, values, database)
                <==> {
                &&& condition::has(invitation, "id"@, invitation_id.bound())
                &&& condition::lacks(invitation, "accepted_at"@)
                &&& condition::lacks(invitation, "revoked_at"@)
                &&& condition::lacks(invitation, "replaced_at"@)
                &&& !condition::lacks(invitation, "expires_at"@)
                &&& (database.less)(database.now, invitation["expires_at"@])
            }
            &&& after == invitation.insert("accepted_at"@, database.now).insert(
                "accepted_by_user_id"@,
                user_id.bound(),
            )
            &&& !condition::selects(
                InvitationRepository::live(),
                after,
                seq![invitation_id.bound(), later_user_id.bound()],
                later,
            )
        }),
{
    reveal_strlit("accepted_at");
    reveal_strlit("accepted_by_user_id");
    assert("accepted_at"@.len() == 11 && "accepted_by_user_id"@.len() == 19);
    let changes = InvitationRepository::acceptance();
    let conditions = InvitationRepository::live();
    let values: Seq<Bound> = seq![invitation_id.bound(), user_id.bound()];
    let others: Seq<Bound> = seq![invitation_id.bound(), later_user_id.bound()];
    assert(changes.drop_last() =~= seq![changes[0]]);
    assert(changes.drop_last().drop_last() =~= Seq::<Change>::empty());
    reveal_with_fuel(update::changed, 3);
    let after = update::changed(changes, invitation, values, database);
    assert(!conditions[1].holds(after, others, later));
    assert(condition::selects(conditions, invitation, values, database) <==> {
        &&& conditions[0].holds(invitation, values, database)
        &&& conditions[1].holds(invitation, values, database)
        &&& conditions[2].holds(invitation, values, database)
        &&& conditions[3].holds(invitation, values, database)
        &&& conditions[4].holds(invitation, values, database)
    });
}

/// An invitation is read by its id or by the digest of its token alone, and is
/// locked by what reads it.
pub proof fn invitation_is_read_by_one_value(
    invitation_id: Uuid,
    token_digest: Vec<u8>,
    reading: StatementView,
)
    ensures
        InvitationRepository::reading_get(invitation_id) == (StatementView {
            text: InvitationRepository::INVITATION_SELECT@ + " WHERE i.id=$1"@,
            parameters: seq![Bound::Uuid(Some(invitation_id))],
            fetch: Fetch::Optional,
        }),
        InvitationRepository::reading_by_token_digest(token_digest) == (StatementView {
            text: InvitationRepository::INVITATION_SELECT@ + " WHERE i.token_digest=$1"@,
            parameters: seq![Bound::Bytes(Some(token_digest@))],
            fetch: Fetch::Optional,
        }),
        InvitationRepository::locking(reading) == (StatementView {
            text: reading.text + " FOR UPDATE OF i"@,
            parameters: reading.parameters,
            fetch: reading.fetch,
        }),
{
}

/// The invitation of the id is revoked now, and nothing else of it changes.
pub proof fn revoked_invitation_is_revoked_now(
    invitation: Record,
    invitation_id: Uuid,
    database: Database,
)
    ensures
        ({
            let values: Seq<Bound> = seq![invitation_id.bound()];
            &&& condition::selects(
                InvitationRepository::by_id(),
                invitation,
                values,
                database,
            ) <==> {
                &&& condition::has(invitation, "id"@, invitation_id.bound())
            }
            &&& update::changed(
                InvitationRepository::revocation(),
                invitation,
                values,
                database,
            ) == invitation
                .insert("revoked_at"@, database.now)
        }),
{
    broadcast use update::first_changes;

    let values: Seq<Bound> = seq![invitation_id.bound()];
    let changes = InvitationRepository::revocation();
    assert(changes =~= changes.take(changes.len() as int));
    let conditions = InvitationRepository::by_id();
    assert(condition::selects(conditions, invitation, values, database) <==> {
        &&& conditions[0].holds(invitation, values, database)
    });
}

/// The invitation of the id is replaced now by the other, no longer as a
/// revoked one, and nothing else of it changes.
pub proof fn replaced_invitation_names_the_next(
    invitation: Record,
    expired_id: Uuid,
    replacement_id: Uuid,
    database: Database,
)
    ensures
        ({
            let values: Seq<Bound> = seq![
                expired_id.bound(),
                replacement_id.bound(),
            ];
            &&& condition::selects(
                InvitationRepository::by_id(),
                invitation,
                values,
                database,
            ) <==> {
                &&& condition::has(invitation, "id"@, expired_id.bound())
            }
            &&& update::changed(
                InvitationRepository::replacement(),
                invitation,
                values,
                database,
            ) == invitation
                .remove("revoked_at"@)
                .insert("replaced_at"@, database.now)
                .insert("replaced_by_invitation_id"@, replacement_id.bound())
        }),
{
    broadcast use update::first_changes;

    let values: Seq<Bound> = seq![
        expired_id.bound(),
        replacement_id.bound(),
    ];
    let changes = InvitationRepository::replacement();
    assert(changes =~= changes.take(changes.len() as int));
    let conditions = InvitationRepository::by_id();
    assert(condition::selects(conditions, invitation, values, database) <==> {
        &&& conditions[0].holds(invitation, values, database)
    });
}

/// The pending owner invitation is one to own the organization as a whole that
/// is neither accepted nor revoked nor replaced.
pub proof fn pending_owner_invitation_is_open(
    invitation: Record,
    organization_id: Uuid,
    database: Database,
)
    ensures
        ({
            let values: Seq<Bound> = seq![organization_id.bound()];
            condition::selects(
                InvitationRepository::pending_owner(),
                invitation,
                values,
                database,
            ) <==> {
                &&& condition::lacks(invitation, "i.project_id"@)
                &&& condition::has(invitation, "i.role"@, Bound::Text(Some("owner"@)))
                &&& condition::lacks(invitation, "i.accepted_at"@)
                &&& condition::lacks(invitation, "i.revoked_at"@)
                &&& condition::lacks(invitation, "i.replaced_at"@)
            }
        }),
{
    let values: Seq<Bound> = seq![organization_id.bound()];
    let conditions = InvitationRepository::pending_owner();
    assert(condition::selects(conditions, invitation, values, database) <==> {
        &&& conditions[0].holds(invitation, values, database)
        &&& conditions[1].holds(invitation, values, database)
        &&& conditions[2].holds(invitation, values, database)
        &&& conditions[3].holds(invitation, values, database)
        &&& conditions[4].holds(invitation, values, database)
    });
}

/// The recipient is a member exactly where a user of the address is one of the
/// project.
pub proof fn project_member_has_the_address(
    member: Record,
    recipient_email: &str,
    project_id: Uuid,
    database: Database,
)
    ensures
        ({
            let values: Seq<Bound> = seq![
                recipient_email.bound(),
                project_id.bound(),
            ];
            condition::selects(
                InvitationRepository::member_of_project(),
                member,
                values,
                database,
            ) <==> {
                &&& condition::has(member, "u.email"@, recipient_email.bound())
                &&& condition::has(member, "m.project_id"@, project_id.bound())
            }
        }),
{
    let values: Seq<Bound> = seq![
        recipient_email.bound(),
        project_id.bound(),
    ];
    let conditions = InvitationRepository::member_of_project();
    assert(condition::selects(conditions, member, values, database) <==> {
        &&& conditions[0].holds(member, values, database)
        &&& conditions[1].holds(member, values, database)
    });
}

/// An invitation is counted exactly where it is one of the inviter from the
/// last hour.
pub proof fn recent_invitations_of_the_inviter_are_counted(
    invitation: Record,
    inviter_user_id: Uuid,
    database: Database,
)
    ensures
        ({
            let values: Seq<Bound> = seq![inviter_user_id.bound()];
            condition::selects(
                InvitationRepository::created_by_inviter(),
                invitation,
                values,
                database,
            ) <==> {
                &&& condition::has(invitation, "inviter_user_id"@, inviter_user_id.bound())
                &&& (database.answers)(
                    InvitationRepository::IS_FROM_THE_LAST_HOUR@,
                    invitation,
                    values,
                )
            }
        }),
{
    let values: Seq<Bound> = seq![inviter_user_id.bound()];
    let conditions = InvitationRepository::created_by_inviter();
    assert(condition::selects(conditions, invitation, values, database) <==> {
        &&& conditions[0].holds(invitation, values, database)
        &&& conditions[1].holds(invitation, values, database)
    });
}

/// An audit entry is counted exactly where it says that the actor resent an
/// invitation in the last hour.
pub proof fn recent_resendings_of_the_actor_are_counted(
    entry: Record,
    actor_user_id: Uuid,
    database: Database,
)
    ensures
        ({
            let values: Seq<Bound> = seq![actor_user_id.bound()];
            condition::selects(
                InvitationRepository::resent_by_actor(),
                entry,
                values,
                database,
            ) <==> {
                &&& condition::has(entry, "actor_user_id"@, actor_user_id.bound())
                &&& condition::has(entry, "action"@, Bound::Text(Some("invitation.resent"@)))
                &&& (database.answers)(InvitationRepository::IS_FROM_THE_LAST_HOUR@, entry, values)
            }
        }),
{
    let values: Seq<Bound> = seq![actor_user_id.bound()];
    let conditions = InvitationRepository::resent_by_actor();
    assert(condition::selects(conditions, entry, values, database) <==> {
        &&& conditions[0].holds(entry, values, database)
        &&& conditions[1].holds(entry, values, database)
        &&& conditions[2].holds(entry, values, database)
    });
}

/// An invitation is unresolved exactly where it is to the recipient, for the
/// same project or for none, and neither accepted nor revoked nor replaced.
pub proof fn unresolved_invitation_is_of_the_recipient_and_scope(
    invitation: Record,
    organization_id: Uuid,
    project_id: Option<Uuid>,
    recipient_email: &str,
    database: Database,
)
    ensures
        ({
            let values: Seq<Bound> = seq![
                organization_id.bound(),
                project_id.bound(),
                recipient_email.bound(),
            ];
            condition::selects(
                InvitationRepository::unresolved(),
                invitation,
                values,
                database,
            ) <==> {
                &&& (database.answers)(InvitationRepository::IS_OF_THE_SCOPE@, invitation, values)
                &&& condition::has(invitation, "recipient_email"@, recipient_email.bound())
                &&& condition::lacks(invitation, "accepted_at"@)
                &&& condition::lacks(invitation, "revoked_at"@)
                &&& condition::lacks(invitation, "replaced_at"@)
            }
        }),
{
    let values: Seq<Bound> = seq![
        organization_id.bound(),
        project_id.bound(),
        recipient_email.bound(),
    ];
    let conditions = InvitationRepository::unresolved();
    assert(condition::selects(conditions, invitation, values, database) <==> {
        &&& conditions[0].holds(invitation, values, database)
        &&& conditions[1].holds(invitation, values, database)
        &&& conditions[2].holds(invitation, values, database)
        &&& conditions[3].holds(invitation, values, database)
        &&& conditions[4].holds(invitation, values, database)
    });
}

/// An invitation is deleted exactly where the time that it is kept until has
/// passed.
pub proof fn only_invitations_past_retention_are_deleted(
    invitation: Record,
    database: Database,
)
    ensures
        ({
            let values: Seq<Bound> = seq![
            ];
            condition::selects(
                InvitationRepository::past_retention(),
                invitation,
                values,
                database,
            ) <==> {
                &&& (database.answers)(InvitationRepository::IS_PAST_RETENTION@, invitation, values)
            }
        }),
{
    let values: Seq<Bound> = seq![
    ];
    let conditions = InvitationRepository::past_retention();
    assert(condition::selects(conditions, invitation, values, database) <==> {
        &&& conditions[0].holds(invitation, values, database)
    });
}

/// A revoked or replaced invitation is not accepted.
pub proof fn revoked_or_replaced_invitation_is_not_accepted(
    invitation: Record,
    invitation_id: Uuid,
    replacement_id: Uuid,
    user_id: Uuid,
    database: Database,
)
    requires
        !condition::is_null(database.now),
    ensures
        ({
            let values: Seq<Bound> = seq![invitation_id.bound(), user_id.bound()];
            &&& !condition::selects(
                InvitationRepository::live(),
                update::changed(
                    InvitationRepository::revocation(),
                    invitation,
                    seq![invitation_id.bound()],
                    database,
                ),
                values,
                database,
            )
            &&& !condition::selects(
                InvitationRepository::live(),
                update::changed(
                    InvitationRepository::replacement(),
                    invitation,
                    seq![invitation_id.bound(), replacement_id.bound()],
                    database,
                ),
                values,
                database,
            )
        }),
{
    reveal_strlit("revoked_at");
    reveal_strlit("replaced_at");
    reveal_strlit("replaced_by_invitation_id");
    assert("revoked_at"@.len() == 10 && "replaced_at"@.len() == 11);
    let one: Seq<Bound> = seq![invitation_id.bound()];
    let both: Seq<Bound> = seq![invitation_id.bound(), replacement_id.bound()];
    let revoked = update::changed(InvitationRepository::revocation(), invitation, one, database);
    let replaced = update::changed(InvitationRepository::replacement(), invitation, both, database);
    revoked_invitation_is_revoked_now(invitation, invitation_id, database);
    replaced_invitation_names_the_next(invitation, invitation_id, replacement_id, database);
    invitation_is_accepted_once(revoked, invitation_id, user_id, user_id, database, database);
    invitation_is_accepted_once(replaced, invitation_id, user_id, user_id, database, database);
    assert(!condition::lacks(revoked, "revoked_at"@));
    assert(!condition::lacks(replaced, "replaced_at"@));
}

} // verus!
