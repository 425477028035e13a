//! Application ingestion credentials: the bearer tokens agents present to
//! report events for one application. Only a digest of each token is stored.

use uuid::Uuid;
use vstd::prelude::*;

#[allow(unused_imports)]
use crate::statement::Bind;
use crate::condition::{Condition, Conditions, Database, Record, Test};
use crate::condition;
use crate::insert::{Row, Style};
use crate::insert;
use crate::statement::{Bound, Fetch, Statement, StatementView};
use crate::tenant::{After, Before, Layout, Start};
use crate::tenant;
use crate::text;
use crate::update::{Change, Changes, Form, Spelling};
use crate::update;

verus! {

broadcast use tenant::known_aliases_name_tables;

/// Application ingestion credentials.
#[derive(Clone, Copy, Debug)]
pub struct ApplicationCredentialRepository;

impl ApplicationCredentialRepository {
    /// The credential projection.
    pub const CREDENTIAL_COLUMNS: &'static str =
        "id,name,token_hint,created_at,last_used_at,revoked_at";

    /// Records a credential by the digest of its token.
    ///
    /// Selects `id`, `name`, `token_hint`, `created_at`, `last_used_at` and
    /// `revoked_at`.
    pub fn insert(
        id: Uuid,
        organization_id: Uuid,
        project_id: Uuid,
        application_id: Uuid,
        name: &str,
        credential_hash: &[u8],
        token_hint: &str,
    ) -> (statement: Statement)
        ensures
            statement@ == insert::row(Style::Tight, "application_ingestion_credentials"@)
                .set("id"@, id.bound())
                .set("organization_id"@, organization_id.bound())
                .set("project_id"@, project_id.bound())
                .set("application_id"@, application_id.bound())
                .set("name"@, name.bound())
                .set("credential_hash"@, credential_hash.bound())
                .set("token_hint"@, token_hint.bound())
                .returning(Self::CREDENTIAL_COLUMNS@, Fetch::One),
            text::gives(statement@.text, Self::CREDENTIAL_COLUMNS@),
    {
        Row::new(Style::Tight, "application_ingestion_credentials")
            .set("id", id)
            .set("organization_id", organization_id)
            .set("project_id", project_id)
            .set("application_id", application_id)
            .set("name", name)
            .set("credential_hash", credential_hash)
            .set("token_hint", token_hint)
            .returning(Self::CREDENTIAL_COLUMNS, Fetch::One)
    }

    pub const LIST: &'static str = "application_ingestion_credentials ";

    pub const LIST_TAIL: &'static str = "created_at,id";

    /// The application's credentials with the columns of [`Self::insert`].
    pub fn list(
        organization_id: Uuid,
        project_id: Uuid,
        application_id: Uuid,
    ) -> (statement: Statement)
        ensures
            statement@ == StatementView::all(
                text::select_text(
                    Self::CREDENTIAL_COLUMNS@,
                    tenant::application_text(
                        Self::LIST@,
                        Before::Where,
                        ""@,
                        Layout::Tight,
                        After::OrderBy,
                        Self::LIST_TAIL@,
                    ),
                ),
                seq![organization_id.bound(), project_id.bound(), application_id.bound()],
            ),
            tenant::filters_by_application(statement@, organization_id, project_id, application_id),
            text::gives(statement@.text, Self::CREDENTIAL_COLUMNS@),
    {
        let rows = tenant::application(
            Self::LIST,
            Before::Where,
            "",
            Layout::Tight,
            After::OrderBy,
            Self::LIST_TAIL,
        );
        let text = text::select(Self::CREDENTIAL_COLUMNS, rows.as_str());
        Statement::all(text.as_str()).bind(organization_id).bind(project_id).bind(application_id)
    }

    pub const REVOKE_IN_APPLICATION: &'static str =
        "UPDATE application_ingestion_credentials SET ";

    pub const REVOKE_IN_APPLICATION_TAIL: &'static str = "id=$4 RETURNING revoked_at";

    /// What a revocation changes.
    pub open spec fn revocation() -> Seq<Change> {
        seq![Change::NowOnce("revoked_at"@, Spelling::Lower)]
    }

    /// What a revocation changes.
    fn revoking() -> (changes: Changes)
        ensures
            changes@ == Self::revocation(),
            changes.laid_out() == Form::Tight,
    {
        let changes = Changes::new(Form::Tight).now_once("revoked_at", Spelling::Lower);
        assert(changes@ =~= Self::revocation());
        changes
    }

    /// Revokes one of the application's credentials, keeping an earlier
    /// revocation, and returns when it was revoked.
    pub fn revoke_in_application(
        organization_id: Uuid,
        project_id: Uuid,
        application_id: Uuid,
        credential_id: Uuid,
    ) -> (statement: Statement)
        ensures
            statement@ == StatementView::optional(
                tenant::application_text(
                    Self::REVOKE_IN_APPLICATION@ + update::all_text(
                        Self::revocation(),
                        Form::Tight,
                    ) + " "@,
                    Before::Where,
                    ""@,
                    Layout::Tight,
                    After::And,
                    Self::REVOKE_IN_APPLICATION_TAIL@,
                ),
                seq![
                    organization_id.bound(),
                    project_id.bound(),
                    application_id.bound(),
                    credential_id.bound(),
                ],
            ),
            tenant::filters_by_application(statement@, organization_id, project_id, application_id),
    {
        let changes = Self::revoking().into_text();
        let head = text::join(Self::REVOKE_IN_APPLICATION, changes.as_str()).concat(" ");
        let text = tenant::application(
            head.as_str(),
            Before::Where,
            "",
            Layout::Tight,
            After::And,
            Self::REVOKE_IN_APPLICATION_TAIL,
        );
        Statement::optional(text.as_str())
            .bind(organization_id)
            .bind(project_id)
            .bind(application_id)
            .bind(credential_id)
    }

    pub const AUTHENTICATE: &'static str = "UPDATE application_ingestion_credentials SET ";

    pub const AUTHENTICATE_TAIL: &'static str =
        " RETURNING id,organization_id,project_id,application_id";

    /// What an authentication changes.
    pub open spec fn recorded_use() -> Seq<Change> {
        seq![Change::Now("last_used_at"@)]
    }

    /// The conditions that a credential authenticates by.
    pub open spec fn unrevoked() -> Seq<Condition> {
        seq![
            Condition::Compared("credential_hash"@, Test::Equal, 1),
            Condition::Null("revoked_at"@),
        ]
    }

    /// Resolves an unrevoked credential by its hash into its id and tenant
    /// path, recording that it was used.
    pub fn authenticate(credential_hash: &[u8]) -> (statement: Statement)
        ensures
            statement@ == StatementView::optional(
                Self::AUTHENTICATE@ + update::all_text(Self::recorded_use(), Form::Tight)
                    + " WHERE "@ + condition::all_text(Self::unrevoked())
                    + Self::AUTHENTICATE_TAIL@,
                seq![credential_hash.bound()],
            ),
    {
        let changes = Changes::new(Form::Tight).now("last_used_at");
        let conditions = Conditions::new()
            .compared("credential_hash", Test::Equal, 1)
            .is_null("revoked_at");
        assert(changes@ =~= Self::recorded_use());
        assert(conditions@ =~= Self::unrevoked());
        let text = text::join(Self::AUTHENTICATE, changes.into_text().as_str())
            .concat(" WHERE ")
            .concat(conditions.into_text().as_str())
            .concat(Self::AUTHENTICATE_TAIL);
        Statement::optional(text.as_str()).bind(credential_hash)
    }

    pub const IS_ACTIVE: &'static str =
        "SELECT EXISTS(SELECT 1 FROM application_ingestion_credentials WHERE id=$1 ";

    pub const IS_ACTIVE_TAIL: &'static str = ")";

    /// The conditions on an active credential, besides its path and id.
    pub open spec fn still_active() -> Seq<Condition> {
        seq![Condition::Null("revoked_at"@)]
    }

    /// Reports whether the credential still belongs to the application and
    /// is not revoked.
    pub fn is_active(
        credential_id: Uuid,
        organization_id: Uuid,
        project_id: Uuid,
        application_id: Uuid,
    ) -> (statement: Statement)
        ensures
            statement@ == StatementView::one(
                tenant::application_text_from(
                    Start::Second,
                    Self::IS_ACTIVE@,
                    Before::And,
                    ""@,
                    Layout::Tight,
                    After::And,
                    condition::all_text(Self::still_active()) + Self::IS_ACTIVE_TAIL@,
                ),
                seq![
                    credential_id.bound(),
                    organization_id.bound(),
                    project_id.bound(),
                    application_id.bound(),
                ],
            ),
            tenant::filters_by_application_from(
                statement@,
                Start::Second,
                organization_id,
                project_id,
                application_id,
            ),
    {
        let conditions = Conditions::new().is_null("revoked_at");
        assert(conditions@ =~= Self::still_active());
        let tail = conditions.into_text().concat(Self::IS_ACTIVE_TAIL);
        let text = tenant::application_from(
            Start::Second,
            Self::IS_ACTIVE,
            Before::And,
            "",
            Layout::Tight,
            After::And,
            tail.as_str(),
        );
        Statement::one(text.as_str())
            .bind(credential_id)
            .bind(organization_id)
            .bind(project_id)
            .bind(application_id)
    }

    pub const REVOKE: &'static str = "UPDATE application_ingestion_credentials SET ";

    pub const REVOKE_TAIL: &'static str = " WHERE id=$1";

    /// Revokes a credential, keeping an earlier revocation time.
    pub fn revoke(credential_id: Uuid) -> (statement: Statement)
        ensures
            statement@ == StatementView::affected(
                Self::REVOKE@ + update::all_text(Self::revocation(), Form::Tight)
                    + Self::REVOKE_TAIL@,
                seq![credential_id.bound()],
            ),
    {
        let changes = Self::revoking().into_text();
        let text = text::join(Self::REVOKE, changes.as_str()).concat(Self::REVOKE_TAIL);
        Statement::affected(text.as_str()).bind(credential_id)
    }
}

/// The first revocation of a credential stays: a credential that is revoked
/// already is left as it is, and another is revoked now.
pub proof fn first_revocation_stays(credential: Record, parameters: Seq<Bound>, database: Database)
    requires
        !condition::is_null(database.now),
    ensures
        ({
            let after = update::changed(
                ApplicationCredentialRepository::revocation(),
                credential,
                parameters,
                database,
            );
            if condition::lacks(credential, "revoked_at"@) {
                after == credential.insert("revoked_at"@, database.now)
            } else {
                after == credential
            }
        }),
{
    let changes = ApplicationCredentialRepository::revocation();
    assert(changes.drop_last() =~= Seq::<Change>::empty());
    reveal_with_fuel(update::changed, 2);
    let after = update::changed(changes, credential, parameters, database);
    if !condition::lacks(credential, "revoked_at"@) {
        assert(after =~= credential);
    }
}

/// A credential authenticates by its hash until it is revoked, and never after.
pub proof fn credential_authenticates_until_revoked(
    credential: Record,
    credential_hash: &[u8],
    parameters: Seq<Bound>,
    database: Database,
)
    requires
        !condition::is_null(database.now),
    ensures
        ({
            let conditions = ApplicationCredentialRepository::unrevoked();
            let hash: Seq<Bound> = seq![credential_hash.bound()];
            let revoked = update::changed(
                ApplicationCredentialRepository::revocation(),
                credential,
                parameters,
                database,
            );
            &&& condition::selects(conditions, credential, hash, database) <==> {
                &&& condition::has(credential, "credential_hash"@, credential_hash.bound())
                &&& condition::lacks(credential, "revoked_at"@)
            }
            &&& !condition::selects(conditions, revoked, hash, database)
        }),
{
    let conditions = ApplicationCredentialRepository::unrevoked();
    let hash: Seq<Bound> = seq![credential_hash.bound()];
    let revoked = update::changed(
        ApplicationCredentialRepository::revocation(),
        credential,
        parameters,
        database,
    );
    first_revocation_stays(credential, parameters, database);
    assert(!condition::lacks(revoked, "revoked_at"@));
    assert(!conditions[1].holds(revoked, hash, database));
    if condition::has(credential, "credential_hash"@, credential_hash.bound())
        && condition::lacks(credential, "revoked_at"@) {
        assert(conditions[0].holds(credential, hash, database));
        assert(conditions[1].holds(credential, hash, database));
    } else {
        assert(!conditions[0].holds(credential, hash, database) || !conditions[1].holds(
            credential,
            hash,
            database,
        ));
    }
}

/// An authentication records when the credential was used, and nothing else.
pub proof fn authentication_records_use(
    credential: Record,
    parameters: Seq<Bound>,
    database: Database,
)
    ensures
        update::changed(
            ApplicationCredentialRepository::recorded_use(),
            credential,
            parameters,
            database,
        ) == credential.insert("last_used_at"@, database.now),
{
    let changes = ApplicationCredentialRepository::recorded_use();
    assert(changes.drop_last() =~= Seq::<Change>::empty());
    reveal_with_fuel(update::changed, 2);
}

/// A credential is active exactly where nobody revoked it.
pub proof fn active_credential_is_not_revoked(
    credential: Record,
    credential_id: Uuid,
    organization_id: Uuid,
    project_id: Uuid,
    application_id: Uuid,
    database: Database,
)
    ensures
        ({
            let values: Seq<Bound> = seq![
                credential_id.bound(),
                organization_id.bound(),
                project_id.bound(),
                application_id.bound(),
            ];
            condition::selects(
                ApplicationCredentialRepository::still_active(),
                credential,
                values,
                database,
            ) <==> {
                &&& condition::lacks(credential, "revoked_at"@)
            }
        }),
{
    let values: Seq<Bound> = seq![
        credential_id.bound(),
        organization_id.bound(),
        project_id.bound(),
        application_id.bound(),
    ];
    let conditions = ApplicationCredentialRepository::still_active();
    assert(condition::selects(conditions, credential, values, database) <==> {
        &&& conditions[0].holds(credential, values, database)
    });
}

} // verus!
