//! One-time email actions: the email verification and password reset links
//! mailed to a user. Only a digest of each token is stored; an action is live
//! until it is consumed, revoked or expires.

use uuid::Uuid;
use vstd::prelude::*;

#[allow(unused_imports)]
use crate::statement::Bind;
use crate::condition::{Condition, Conditions, Database, Record, Test};
use crate::condition;
use crate::insert::{Row, Style};
use crate::insert;
use crate::statement::{Bound, Fetch, Statement, StatementView, Timestamp};
use crate::text;
use crate::update::{Change, Changes, Form, Spelling};
use crate::update;

verus! {

broadcast use condition::known_words_are_plain;

/// One-time email actions: verification and password reset tokens.
#[derive(Clone, Copy, Debug)]
pub struct EmailActionRepository;

impl EmailActionRepository {
    /// What a revocation changes.
    pub open spec fn revocation() -> Seq<Change> {
        seq![Change::Now("revoked_at"@)]
    }

    /// The conditions on a user's pending actions of a purpose.
    pub open spec fn pending_of_purpose() -> Seq<Condition> {
        seq![
            Condition::Compared("user_id"@, Test::Equal, 1),
            Condition::Compared("purpose"@, Test::Equal, 2),
            Condition::Null("consumed_at"@),
            Condition::Null("revoked_at"@),
        ]
    }

    /// Revokes the user's live actions of this purpose.
    pub fn revoke_pending(user_id: Uuid, purpose: &str) -> (statement: Statement)
        ensures
            statement@ == StatementView::affected(
                "UPDATE user_email_actions SET "@ + update::all_text(Self::revocation(), Form::Tight)
                    + " WHERE "@ + condition::all_text(Self::pending_of_purpose()),
                seq![user_id.bound(), purpose.bound()],
            ),
    {
        let changes = Changes::new(Form::Tight)
            .now("revoked_at");
        let conditions = Conditions::new()
            .compared("user_id", Test::Equal, 1)
            .compared("purpose", Test::Equal, 2)
            .is_null("consumed_at")
            .is_null("revoked_at");
        assert(changes@ =~= Self::revocation());
        assert(conditions@ =~= Self::pending_of_purpose());
        let text = text::join("UPDATE user_email_actions SET ", changes.into_text().as_str())
            .concat(" WHERE ")
            .concat(conditions.into_text().as_str());
        Statement::affected(text.as_str()).bind(user_id).bind(purpose)
    }

    /// Stores a new action by the digest of its token.
    pub fn insert(
        id: Uuid,
        user_id: Uuid,
        purpose: &str,
        token_digest: Vec<u8>,
        expires_at: Timestamp,
    ) -> (statement: Statement)
        ensures
            statement@ == insert::row(Style::Tight, "user_email_actions"@)
                .set("id"@, id.bound())
                .set("user_id"@, user_id.bound())
                .set("purpose"@, purpose.bound())
                .set("token_digest"@, token_digest.bound())
                .set("expires_at"@, expires_at.bound())
                .finish(""@, Fetch::Affected),
    {
        Row::new(Style::Tight, "user_email_actions")
            .set("id", id)
            .set("user_id", user_id)
            .set("purpose", purpose)
            .set("token_digest", token_digest)
            .set("expires_at", expires_at)
            .finish("", Fetch::Affected)
    }

    pub const COOLING_DOWN: &'static str =
        "SELECT EXISTS(SELECT 1 FROM user_email_actions WHERE ";

    pub const COOLING_DOWN_TAIL: &'static str = ")";

    /// Whether the action is younger than the seconds at `$3`.
    pub const IS_RECENT: &'static str =
        "created_at>now()-make_interval(secs=>$3)";

    /// The conditions on a user's recent action of a purpose.
    pub open spec fn recent_of_purpose() -> Seq<Condition> {
        seq![
            Condition::Compared("user_id"@, Test::Equal, 1),
            Condition::Compared("purpose"@, Test::Equal, 2),
            Condition::Asked(Self::IS_RECENT@),
        ]
    }

    /// Reports whether the user was sent an action of this purpose within the
    /// last seconds.
    ///
    /// The number of seconds is `$3`, a fraction allowed; it is not among the
    /// statement's values, and the caller binds it after them.
    pub fn cooling_down(user_id: Uuid, purpose: &str) -> (statement: Statement)
        ensures
            statement@ == StatementView::one(
                Self::COOLING_DOWN@ + condition::all_text(Self::recent_of_purpose())
                    + Self::COOLING_DOWN_TAIL@,
                seq![user_id.bound(), purpose.bound()],
            ),
    {
        let conditions = Conditions::new()
            .compared("user_id", Test::Equal, 1)
            .compared("purpose", Test::Equal, 2)
            .asked(Self::IS_RECENT);
        assert(conditions@ =~= Self::recent_of_purpose());
        let text = text::join(Self::COOLING_DOWN, conditions.into_text().as_str()).concat(
            Self::COOLING_DOWN_TAIL,
        );
        Statement::one(text.as_str()).bind(user_id).bind(purpose)
    }

    /// The conditions on a user's pending verifications.
    pub open spec fn pending_verifications() -> Seq<Condition> {
        seq![
            Condition::Compared("user_id"@, Test::Equal, 1),
            Condition::Word("purpose"@, "verify_email"@),
            Condition::Null("consumed_at"@),
            Condition::Null("revoked_at"@),
        ]
    }

    /// Revokes the user's live email verification actions.
    pub fn revoke_pending_verifications(user_id: Uuid) -> (statement: Statement)
        ensures
            statement@ == StatementView::affected(
                "UPDATE user_email_actions SET "@ + update::all_text(Self::revocation(), Form::Tight)
                    + " WHERE "@ + condition::all_text(Self::pending_verifications()),
                seq![user_id.bound()],
            ),
    {
        let changes = Changes::new(Form::Tight)
            .now("revoked_at");
        let conditions = Conditions::new()
            .compared("user_id", Test::Equal, 1)
            .word("purpose", "verify_email")
            .is_null("consumed_at")
            .is_null("revoked_at");
        assert(changes@ =~= Self::revocation());
        assert(conditions@ =~= Self::pending_verifications());
        let text = text::join("UPDATE user_email_actions SET ", changes.into_text().as_str())
            .concat(" WHERE ")
            .concat(conditions.into_text().as_str());
        Statement::affected(text.as_str()).bind(user_id)
    }

    pub const CONSUME: &'static str = "UPDATE user_email_actions SET ";

    pub const CONSUME_FROM: &'static str = " WHERE id=(SELECT id FROM user_email_actions WHERE ";

    pub const CONSUME_TAIL: &'static str = " FOR UPDATE) RETURNING user_id";

    /// What consuming an action changes.
    pub open spec fn consumption() -> Seq<Change> {
        seq![Change::Now("consumed_at"@)]
    }

    /// The conditions that an action is consumed by.
    pub open spec fn live() -> Seq<Condition> {
        seq![
            Condition::Compared("token_digest"@, Test::Equal, 1),
            Condition::Compared("purpose"@, Test::Equal, 2),
            Condition::Null("consumed_at"@),
            Condition::Null("revoked_at"@),
            Condition::ToCome("expires_at"@),
        ]
    }

    /// Consumes the live action of this purpose whose token hashes to
    /// `token_digest`, returning its user. `None` when there is none.
    pub fn consume(token_digest: Vec<u8>, purpose: &str) -> (statement: Statement)
        ensures
            statement@ == StatementView::optional(
                Self::CONSUME@ + update::all_text(Self::consumption(), Form::Tight)
                    + Self::CONSUME_FROM@ + condition::all_text(Self::live())
                    + Self::CONSUME_TAIL@,
                seq![token_digest.bound(), purpose.bound()],
            ),
    {
        let changes = Changes::new(Form::Tight).now("consumed_at");
        let conditions = Conditions::new()
            .compared("token_digest", Test::Equal, 1)
            .compared("purpose", Test::Equal, 2)
            .is_null("consumed_at")
            .is_null("revoked_at")
            .to_come("expires_at");
        assert(changes@ =~= Self::consumption());
        assert(conditions@ =~= Self::live());
        let text = text::join(Self::CONSUME, changes.into_text().as_str())
            .concat(Self::CONSUME_FROM)
            .concat(conditions.into_text().as_str())
            .concat(Self::CONSUME_TAIL);
        Statement::optional(text.as_str()).bind(token_digest).bind(purpose)
    }

    /// What the revocation of any action changes.
    pub open spec fn any_revocation() -> Seq<Change> {
        seq![Change::NowOnce("revoked_at"@, Spelling::Lower)]
    }

    /// The conditions on a user's pending actions.
    pub open spec fn pending() -> Seq<Condition> {
        seq![
            Condition::Compared("user_id"@, Test::Equal, 1),
            Condition::Null("consumed_at"@),
            Condition::Null("revoked_at"@),
        ]
    }

    /// Revokes all of the user's live actions.
    pub fn revoke_all_pending(user_id: Uuid) -> (statement: Statement)
        ensures
            statement@ == StatementView::affected(
                "UPDATE user_email_actions SET "@ + update::all_text(Self::any_revocation(), Form::Tight)
                    + " WHERE "@ + condition::all_text(Self::pending()),
                seq![user_id.bound()]),
    {
        let changes = Changes::new(Form::Tight)
            .now_once("revoked_at", Spelling::Lower);
        let conditions = Conditions::new()
            .compared("user_id", Test::Equal, 1)
            .is_null("consumed_at")
            .is_null("revoked_at");
        assert(changes@ =~= Self::any_revocation());
        assert(conditions@ =~= Self::pending());
        let text = text::join("UPDATE user_email_actions SET ", changes.into_text().as_str())
            .concat(" WHERE ")
            .concat(conditions.into_text().as_str());
        Statement::affected(text.as_str()).bind(user_id)
    }
}

/// An action is consumed while it is live: of the digest and the purpose,
/// neither consumed nor revoked, and its expiry to come. It says then when it
/// was, and is not consumed again.
pub proof fn action_is_consumed_once(
    action: Record,
    token_digest: Vec<u8>,
    purpose: &str,
    database: Database,
    later: Database,
)
    requires
        !condition::is_null(database.now),
    ensures
        ({
            let values: Seq<Bound> = seq![token_digest.bound(), purpose.bound()];
            let after = update::changed(
                EmailActionRepository::consumption(),
                action,
                values,
                database,
            );
            &&& condition::selects(EmailActionRepository::live(), action, values, database) <==> {
                &&& condition::has(action, "token_digest"@, token_digest.bound())
                &&& condition::has(action, "purpose"@, purpose.bound())
                &&& condition::lacks(action, "consumed_at"@)
                &&& condition::lacks(action, "revoked_at"@)
                &&& !condition::lacks(action, "expires_at"@)
                &&& (database.less)(database.now, action["expires_at"@])
            }
            &&& after == action.insert("consumed_at"@, database.now)
            &&& !condition::selects(EmailActionRepository::live(), after, values, later)
        }),
{
    let changes = EmailActionRepository::consumption();
    let conditions = EmailActionRepository::live();
    let values: Seq<Bound> = seq![token_digest.bound(), purpose.bound()];
    assert(changes.drop_last() =~= Seq::<Change>::empty());
    reveal_with_fuel(update::changed, 2);
    let after = update::changed(changes, action, values, database);
    assert(!conditions[2].holds(after, values, later));
    assert(condition::selects(conditions, action, values, database) <==> {
        &&& conditions[0].holds(action, values, database)
        &&& conditions[1].holds(action, values, database)
        &&& conditions[2].holds(action, values, database)
        &&& conditions[3].holds(action, values, database)
        &&& conditions[4].holds(action, values, database)
    });
}

/// A user's action is revoked exactly where it is of the purpose and neither
/// consumed nor revoked: it is revoked now, and nothing else of it changes.
pub proof fn pending_actions_of_a_purpose_are_revoked(
    action: Record,
    user_id: Uuid,
    purpose: &str,
    database: Database,
)
    ensures
        ({
            let values: Seq<Bound> = seq![user_id.bound(), purpose.bound()];
            &&& condition::selects(
                EmailActionRepository::pending_of_purpose(),
                action,
                values,
                database,
            ) <==> {
                &&& condition::has(action, "user_id"@, user_id.bound())
                &&& condition::has(action, "purpose"@, purpose.bound())
                &&& condition::lacks(action, "consumed_at"@)
                &&& condition::lacks(action, "revoked_at"@)
            }
            &&& update::changed(
                EmailActionRepository::revocation(),
                action,
                values,
                database,
            ) == action
                .insert("revoked_at"@, database.now)
        }),
{
    broadcast use update::first_changes;

    let values: Seq<Bound> = seq![user_id.bound(), purpose.bound()];
    let changes = EmailActionRepository::revocation();
    assert(changes =~= changes.take(changes.len() as int));
    let conditions = EmailActionRepository::pending_of_purpose();
    assert(condition::selects(conditions, action, values, database) <==> {
        &&& conditions[0].holds(action, values, database)
        &&& conditions[1].holds(action, values, database)
        &&& conditions[2].holds(action, values, database)
        &&& conditions[3].holds(action, values, database)
    });
}

/// A user's email verification is revoked exactly where it is neither consumed
/// nor revoked: it is revoked now, and nothing else of it changes.
pub proof fn pending_verifications_are_revoked(
    action: Record,
    user_id: Uuid,
    database: Database,
)
    ensures
        ({
            let values: Seq<Bound> = seq![user_id.bound()];
            &&& condition::selects(
                EmailActionRepository::pending_verifications(),
                action,
                values,
                database,
            ) <==> {
                &&& condition::has(action, "user_id"@, user_id.bound())
                &&& condition::has(action, "purpose"@, Bound::Text(Some("verify_email"@)))
                &&& condition::lacks(action, "consumed_at"@)
                &&& condition::lacks(action, "revoked_at"@)
            }
            &&& update::changed(
                EmailActionRepository::revocation(),
                action,
                values,
                database,
            ) == action
                .insert("revoked_at"@, database.now)
        }),
{
    broadcast use update::first_changes;

    let values: Seq<Bound> = seq![user_id.bound()];
    let changes = EmailActionRepository::revocation();
    assert(changes =~= changes.take(changes.len() as int));
    let conditions = EmailActionRepository::pending_verifications();
    assert(condition::selects(conditions, action, values, database) <==> {
        &&& conditions[0].holds(action, values, database)
        &&& conditions[1].holds(action, values, database)
        &&& conditions[2].holds(action, values, database)
        &&& conditions[3].holds(action, values, database)
    });
}

/// A user's action is revoked exactly where it is neither consumed nor revoked,
/// and nothing else of it changes.
pub proof fn pending_actions_are_revoked(
    action: Record,
    user_id: Uuid,
    database: Database,
)
    ensures
        ({
            let values: Seq<Bound> = seq![user_id.bound()];
            let kept_revoked_at = if condition::lacks(action, "revoked_at"@) {
                database.now
            } else {
                action["revoked_at"@]
            };
            &&& condition::selects(
                EmailActionRepository::pending(),
                action,
                values,
                database,
            ) <==> {
                &&& condition::has(action, "user_id"@, user_id.bound())
                &&& condition::lacks(action, "consumed_at"@)
                &&& condition::lacks(action, "revoked_at"@)
            }
            &&& update::changed(
                EmailActionRepository::any_revocation(),
                action,
                values,
                database,
            ) == action
                .insert("revoked_at"@, kept_revoked_at)
        }),
{
    broadcast use update::first_changes;

    let values: Seq<Bound> = seq![user_id.bound()];
    let changes = EmailActionRepository::any_revocation();
    assert(changes =~= changes.take(changes.len() as int));
    let conditions = EmailActionRepository::pending();
    assert(condition::selects(conditions, action, values, database) <==> {
        &&& conditions[0].holds(action, values, database)
        &&& conditions[1].holds(action, values, database)
        &&& conditions[2].holds(action, values, database)
    });
}

/// A user cools down exactly where they have a recent action of the purpose,
/// consumed or not.
pub proof fn recent_action_cools_down(
    action: Record,
    user_id: Uuid,
    purpose: &str,
    database: Database,
)
    ensures
        ({
            let values: Seq<Bound> = seq![user_id.bound(), purpose.bound()];
            condition::selects(
                EmailActionRepository::recent_of_purpose(),
                action,
                values,
                database,
            ) <==> {
                &&& condition::has(action, "user_id"@, user_id.bound())
                &&& condition::has(action, "purpose"@, purpose.bound())
                &&& (database.answers)(EmailActionRepository::IS_RECENT@, action, values)
            }
        }),
{
    let values: Seq<Bound> = seq![user_id.bound(), purpose.bound()];
    let conditions = EmailActionRepository::recent_of_purpose();
    assert(condition::selects(conditions, action, values, database) <==> {
        &&& conditions[0].holds(action, values, database)
        &&& conditions[1].holds(action, values, database)
        &&& conditions[2].holds(action, values, database)
    });
}

/// A revoked action is not consumed, and not revoked again.
pub proof fn revoked_action_is_not_consumed(
    action: Record,
    user_id: Uuid,
    token_digest: Vec<u8>,
    purpose: &str,
    database: Database,
)
    requires
        !condition::is_null(database.now),
    ensures
        ({
            let values: Seq<Bound> = seq![user_id.bound(), purpose.bound()];
            let token: Seq<Bound> = seq![token_digest.bound(), purpose.bound()];
            let after = update::changed(
                EmailActionRepository::revocation(),
                action,
                values,
                database,
            );
            &&& !condition::selects(EmailActionRepository::live(), after, token, database)
            &&& !condition::selects(
                EmailActionRepository::pending_of_purpose(),
                after,
                values,
                database,
            )
        }),
{
    let values: Seq<Bound> = seq![user_id.bound(), purpose.bound()];
    let after = update::changed(EmailActionRepository::revocation(), action, values, database);
    pending_actions_of_a_purpose_are_revoked(action, user_id, purpose, database);
    pending_actions_of_a_purpose_are_revoked(after, user_id, purpose, database);
    action_is_consumed_once(after, token_digest, purpose, database, database);
    assert(!condition::lacks(after, "revoked_at"@));
}

} // verus!
