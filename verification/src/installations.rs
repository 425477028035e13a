//! Agent installations: the Helm installations an application's owners set
//! up, each holding one ingestion credential, and the status the installed
//! agents report back.

use serde_json::Value;
use uuid::Uuid;
use vstd::prelude::*;

#[allow(unused_imports)]
use crate::statement::Bind;
use crate::condition::{Condition, Conditions, Database, Record, Test};
use crate::condition;
use crate::insert::{Row, Style};
use crate::insert;
use crate::statement::{Bound, Fetch, Statement, StatementView, Timestamp};
use crate::tenant::{After, Before, Layout};
use crate::tenant;
use crate::text;
use crate::update::{Change, Changes, Form};
use crate::update;

verus! {

broadcast use {tenant::known_aliases_name_tables, condition::known_words_are_plain};

/// Agent installations and the evidence of their connection.
#[derive(Clone, Copy, Debug)]
pub struct InstallationRepository;

impl InstallationRepository {
    /// The installation projection the endpoints read.
    pub const INSTALLATION_COLUMNS: &'static str =
        "id,application_id,credential_id,cluster_name,workload_namespace,workload_kind,workload_name,workload_labels,chart_version,configuration_schema_version,created_at,updated_at";

    pub const RECORD_STATUS: &'static str =
        "INSERT INTO application_installation_status(installation_id,node_name,state,reason,observed_at) SELECT i.id,$4,$5,$6,$7 FROM application_installations i ";

    pub const RECORD_STATUS_TAIL: &'static str =
        "i.created_at DESC LIMIT 1 ON CONFLICT(installation_id,node_name) DO UPDATE SET state=EXCLUDED.state,reason=EXCLUDED.reason,observed_at=EXCLUDED.observed_at,updated_at=now() WHERE application_installation_status.observed_at<=EXCLUDED.observed_at";

    /// Records the onboarding status a node reports for the application's
    /// installations.
    pub fn record_status(
        organization_id: Uuid,
        project_id: Uuid,
        application_id: Uuid,
        node_name: &str,
        state: &str,
        reason: Option<&str>,
        observed_at: Timestamp,
    ) -> (statement: Statement)
        ensures
            statement@ == StatementView::affected(
                tenant::application_text(
                    Self::RECORD_STATUS@,
                    Before::Where,
                    "i."@,
                    Layout::Tight,
                    After::OrderBy,
                    Self::RECORD_STATUS_TAIL@,
                ),
                seq![
                    organization_id.bound(),
                    project_id.bound(),
                    application_id.bound(),
                    node_name.bound(),
                    state.bound(),
                    reason.bound(),
                    observed_at.bound(),
                ],
            ),
            tenant::filters_by_application(statement@, organization_id, project_id, application_id),
    {
        let text = tenant::application(
            Self::RECORD_STATUS,
            Before::Where,
            "i.",
            Layout::Tight,
            After::OrderBy,
            Self::RECORD_STATUS_TAIL,
        );
        Statement::affected(text.as_str())
            .bind(organization_id)
            .bind(project_id)
            .bind(application_id)
            .bind(node_name)
            .bind(state)
            .bind(reason)
            .bind(observed_at)
    }

    pub const FOR_APPLICATION: &'static str = "application_installations ";

    pub const FOR_APPLICATION_TAIL: &'static str = "created_at,id";

    /// The application's installations, oldest first, with the columns of
    /// [`Self::INSTALLATION_COLUMNS`].
    pub fn for_application(
        organization_id: Uuid,
        project_id: Uuid,
        application_id: Uuid,
    ) -> (statement: Statement)
        ensures
            statement@ == StatementView::all(
                text::select_text(
                    Self::INSTALLATION_COLUMNS@,
                    tenant::application_text(
                        Self::FOR_APPLICATION@,
                        Before::Where,
                        ""@,
                        Layout::Tight,
                        After::OrderBy,
                        Self::FOR_APPLICATION_TAIL@,
                    ),
                ),
                seq![organization_id.bound(), project_id.bound(), application_id.bound()],
            ),
            tenant::filters_by_application(statement@, organization_id, project_id, application_id),
            text::gives(statement@.text, Self::INSTALLATION_COLUMNS@),
    {
        let rows = tenant::application(
            Self::FOR_APPLICATION,
            Before::Where,
            "",
            Layout::Tight,
            After::OrderBy,
            Self::FOR_APPLICATION_TAIL,
        );
        let text = text::select(Self::INSTALLATION_COLUMNS, rows.as_str());
        Statement::all(text.as_str()).bind(organization_id).bind(project_id).bind(application_id)
    }

    pub const GET: &'static str = "application_installations ";

    pub const GET_TAIL: &'static str = "id=$4";

    /// One installation of the application, with the columns of
    /// [`Self::INSTALLATION_COLUMNS`].
    pub fn get(
        organization_id: Uuid,
        project_id: Uuid,
        application_id: Uuid,
        installation_id: Uuid,
    ) -> (statement: Statement)
        ensures
            statement@ == StatementView::optional(
                text::select_text(
                    Self::INSTALLATION_COLUMNS@,
                    tenant::application_text(
                        Self::GET@,
                        Before::Where,
                        ""@,
                        Layout::Tight,
                        After::And,
                        Self::GET_TAIL@,
                    ),
                ),
                seq![
                    organization_id.bound(),
                    project_id.bound(),
                    application_id.bound(),
                    installation_id.bound(),
                ],
            ),
            tenant::filters_by_application(statement@, organization_id, project_id, application_id),
            text::gives(statement@.text, Self::INSTALLATION_COLUMNS@),
    {
        let rows = tenant::application(
            Self::GET,
            Before::Where,
            "",
            Layout::Tight,
            After::And,
            Self::GET_TAIL,
        );
        let text = text::select(Self::INSTALLATION_COLUMNS, rows.as_str());
        Statement::optional(text.as_str())
            .bind(organization_id)
            .bind(project_id)
            .bind(application_id)
            .bind(installation_id)
    }

    pub const BY_IDEMPOTENCY_KEY: &'static str = "application_installations ";

    pub const BY_IDEMPOTENCY_KEY_TAIL: &'static str = "idempotency_key=$2";

    /// The organization's installation created under this idempotency key.
    ///
    /// Selects the columns of [`Self::INSTALLATION_COLUMNS`] and `request_hash`.
    pub fn by_idempotency_key(
        organization_id: Uuid,
        idempotency_key: &str,
    ) -> (statement: Statement)
        ensures
            statement@ == StatementView::optional(
                text::select_text(
                    Self::INSTALLATION_COLUMNS@ + ",request_hash"@,
                    tenant::organization_text(
                        Self::BY_IDEMPOTENCY_KEY@,
                        Before::Where,
                        ""@,
                        Layout::Tight,
                        After::And,
                        Self::BY_IDEMPOTENCY_KEY_TAIL@,
                    ),
                ),
                seq![organization_id.bound(), idempotency_key.bound()],
            ),
            tenant::filters_by_organization(statement@, organization_id),
            text::gives(statement@.text, Self::INSTALLATION_COLUMNS@ + ",request_hash"@),
    {
        let rows = tenant::organization(
            Self::BY_IDEMPOTENCY_KEY,
            Before::Where,
            "",
            Layout::Tight,
            After::And,
            Self::BY_IDEMPOTENCY_KEY_TAIL,
        );
        let text = text::select(
            text::join(Self::INSTALLATION_COLUMNS, ",request_hash").as_str(),
            rows.as_str(),
        );
        Statement::optional(text.as_str()).bind(organization_id).bind(idempotency_key)
    }

    /// Records a new installation and returns it with the columns of
    /// [`Self::INSTALLATION_COLUMNS`]. A repeated idempotency key violates a unique index.
    pub fn insert(
        id: Uuid,
        organization_id: Uuid,
        project_id: Uuid,
        application_id: Uuid,
        credential_id: Uuid,
        idempotency_key: &str,
        request_hash: &[u8],
        cluster_name: &str,
        workload_namespace: &str,
        workload_kind: &str,
        workload_name: Option<&str>,
        workload_labels: Option<Value>,
        chart_version: &str,
        configuration_schema_version: i32,
    ) -> (statement: Statement)
        ensures
            statement@ == insert::row(Style::Tight, "application_installations"@)
                .set("id"@, id.bound())
                .set("organization_id"@, organization_id.bound())
                .set("project_id"@, project_id.bound())
                .set("application_id"@, application_id.bound())
                .set("credential_id"@, credential_id.bound())
                .set("idempotency_key"@, idempotency_key.bound())
                .set("request_hash"@, request_hash.bound())
                .set("cluster_name"@, cluster_name.bound())
                .set("workload_namespace"@, workload_namespace.bound())
                .set("workload_kind"@, workload_kind.bound())
                .set("workload_name"@, workload_name.bound())
                .set("workload_labels"@, workload_labels.bound())
                .set("chart_version"@, chart_version.bound())
                .set("configuration_schema_version"@, configuration_schema_version.bound())
                .returning(Self::INSTALLATION_COLUMNS@, Fetch::One),
            text::gives(statement@.text, Self::INSTALLATION_COLUMNS@),
    {
        Row::new(Style::Tight, "application_installations")
            .set("id", id)
            .set("organization_id", organization_id)
            .set("project_id", project_id)
            .set("application_id", application_id)
            .set("credential_id", credential_id)
            .set("idempotency_key", idempotency_key)
            .set("request_hash", request_hash)
            .set("cluster_name", cluster_name)
            .set("workload_namespace", workload_namespace)
            .set("workload_kind", workload_kind)
            .set("workload_name", workload_name)
            .set("workload_labels", workload_labels)
            .set("chart_version", chart_version)
            .set("configuration_schema_version", configuration_schema_version)
            .returning(Self::INSTALLATION_COLUMNS, Fetch::One)
    }

    /// What a new intent changes in an installation.
    pub open spec fn intent() -> Seq<Change> {
        seq![
            Change::Given("cluster_name"@, 5),
            Change::Given("workload_namespace"@, 6),
            Change::Given("workload_kind"@, 7),
            Change::Given("workload_name"@, 8),
            Change::Given("workload_labels"@, 9),
            Change::Now("updated_at"@),
        ]
    }

    /// The conditions on the installation that is updated, besides the path.
    pub open spec fn updated_installation() -> Seq<Condition> {
        seq![Condition::Compared("id"@, Test::Equal, 4)]
    }

    /// Updates an installation's cluster and workload intent and returns it
    /// with the columns of [`Self::INSTALLATION_COLUMNS`]. `None` when there is no such
    /// installation in the application.
    pub fn update(
        organization_id: Uuid,
        project_id: Uuid,
        application_id: Uuid,
        installation_id: Uuid,
        cluster_name: &str,
        workload_namespace: &str,
        workload_kind: &str,
        workload_name: Option<&str>,
        workload_labels: Option<Value>,
    ) -> (statement: Statement)
        ensures
            statement@ == StatementView::optional(
                text::returning_text(
                    tenant::application_text(
                        "UPDATE application_installations SET "@ + update::all_text(Self::intent(), Form::Tight) + " "@,
                        Before::Where,
                        ""@,
                        Layout::Tight,
                        After::And,
                        condition::all_text(Self::updated_installation()),
                    ),
                    Self::INSTALLATION_COLUMNS@,
                ),
                seq![
                    organization_id.bound(),
                    project_id.bound(),
                    application_id.bound(),
                    installation_id.bound(),
                    cluster_name.bound(),
                    workload_namespace.bound(),
                    workload_kind.bound(),
                    workload_name.bound(),
                    workload_labels.bound(),
                ],
            ),
            tenant::filters_by_application(statement@, organization_id, project_id, application_id),
            text::gives(statement@.text, Self::INSTALLATION_COLUMNS@),
    {
        let changes = Changes::new(Form::Tight)
            .given("cluster_name", 5)
            .given("workload_namespace", 6)
            .given("workload_kind", 7)
            .given("workload_name", 8)
            .given("workload_labels", 9)
            .now("updated_at");
        let conditions = Conditions::new().compared("id", Test::Equal, 4);
        assert(changes@ =~= Self::intent());
        assert(conditions@ =~= Self::updated_installation());
        let head = text::join(
            "UPDATE application_installations SET ",
            changes.into_text().as_str(),
        ).concat(" ");
        let tail = conditions.into_text();
        let rows = tenant::application(
            head.as_str(),
            Before::Where,
            "",
            Layout::Tight,
            After::And,
            tail.as_str(),
        );
        let text = text::returning(rows.as_str(), Self::INSTALLATION_COLUMNS);
        Statement::optional(text.as_str())
            .bind(organization_id)
            .bind(project_id)
            .bind(application_id)
            .bind(installation_id)
            .bind(cluster_name)
            .bind(workload_namespace)
            .bind(workload_kind)
            .bind(workload_name)
            .bind(workload_labels)
    }

    pub const CREDENTIAL_FOR_UPDATE: &'static str =
        "SELECT credential_id FROM application_installations ";

    pub const CREDENTIAL_FOR_UPDATE_TAIL: &'static str = "id=$4 FOR UPDATE";

    /// Locks an installation in the application and returns its credential.
    pub fn credential_for_update(
        organization_id: Uuid,
        project_id: Uuid,
        application_id: Uuid,
        installation_id: Uuid,
    ) -> (statement: Statement)
        ensures
            statement@ == StatementView::optional(
                tenant::application_text(
                    Self::CREDENTIAL_FOR_UPDATE@,
                    Before::Where,
                    ""@,
                    Layout::Tight,
                    After::And,
                    Self::CREDENTIAL_FOR_UPDATE_TAIL@,
                ),
                seq![
                    organization_id.bound(),
                    project_id.bound(),
                    application_id.bound(),
                    installation_id.bound(),
                ],
            ),
            tenant::filters_by_application(statement@, organization_id, project_id, application_id),
    {
        let text = tenant::application(
            Self::CREDENTIAL_FOR_UPDATE,
            Before::Where,
            "",
            Layout::Tight,
            After::And,
            Self::CREDENTIAL_FOR_UPDATE_TAIL,
        );
        Statement::optional(text.as_str())
            .bind(organization_id)
            .bind(project_id)
            .bind(application_id)
            .bind(installation_id)
    }

    /// What a new credential changes in an installation.
    pub open spec fn recredentialing() -> Seq<Change> {
        seq![
            Change::Given("credential_id"@, 1),
            Change::Now("updated_at"@),
        ]
    }

    /// The conditions on the installation of an id.
    pub open spec fn by_id() -> Seq<Condition> {
        seq![Condition::Compared("id"@, Test::Equal, 2)]
    }

    /// Points an installation at a new credential.
    pub fn set_credential(credential_id: Uuid, installation_id: Uuid) -> (statement: Statement)
        ensures
            statement@ == StatementView::affected(
                "UPDATE application_installations SET "@ + update::all_text(Self::recredentialing(), Form::Tight)
                    + " WHERE "@ + condition::all_text(Self::by_id()),
                seq![credential_id.bound(), installation_id.bound()],
            ),
    {
        let changes = Changes::new(Form::Tight)
            .given("credential_id", 1)
            .now("updated_at");
        let conditions = Conditions::new().compared("id", Test::Equal, 2);
        assert(changes@ =~= Self::recredentialing());
        assert(conditions@ =~= Self::by_id());
        let text = text::join("UPDATE application_installations SET ", changes.into_text().as_str())
            .concat(" WHERE ")
            .concat(conditions.into_text().as_str());
        Statement::affected(text.as_str()).bind(credential_id).bind(installation_id)
    }

    pub const LATEST_CREDENTIAL_USE: &'static str =
        "SELECT c.last_used_at,c.revoked_at FROM application_installations i JOIN application_ingestion_credentials c ON c.id=i.credential_id ";

    pub const LATEST_CREDENTIAL_USE_TAIL: &'static str = "i.created_at DESC LIMIT 1";

    /// When the credential of the application's newest installation was last
    /// used and when it was revoked. `None` when there is no installation.
    pub fn latest_credential_use(
        organization_id: Uuid,
        project_id: Uuid,
        application_id: Uuid,
    ) -> (statement: Statement)
        ensures
            statement@ == StatementView::optional(
                tenant::application_text(
                    Self::LATEST_CREDENTIAL_USE@,
                    Before::Where,
                    "i."@,
                    Layout::Tight,
                    After::OrderBy,
                    Self::LATEST_CREDENTIAL_USE_TAIL@,
                ),
                seq![organization_id.bound(), project_id.bound(), application_id.bound()],
            ),
            tenant::filters_by_application(statement@, organization_id, project_id, application_id),
    {
        let text = tenant::application(
            Self::LATEST_CREDENTIAL_USE,
            Before::Where,
            "i.",
            Layout::Tight,
            After::OrderBy,
            Self::LATEST_CREDENTIAL_USE_TAIL,
        );
        Statement::optional(text.as_str())
            .bind(organization_id)
            .bind(project_id)
            .bind(application_id)
    }

    pub const LATEST_STATUS: &'static str =
        "SELECT s.state,s.reason,max(s.observed_at),count(*) FROM application_installation_status s JOIN application_installations i ON i.id=s.installation_id ";

    pub const LATEST_STATUS_TAIL: &'static str =
        "s.state,s.reason ORDER BY max(s.observed_at) DESC LIMIT 1";

    /// The most recently reported installation status of the application:
    /// its state and reason, when it was last reported, and by how many
    /// reports. `None` when nothing was reported.
    pub fn latest_status(
        organization_id: Uuid,
        project_id: Uuid,
        application_id: Uuid,
    ) -> (statement: Statement)
        ensures
            statement@ == StatementView::optional(
                tenant::application_text(
                    Self::LATEST_STATUS@,
                    Before::Where,
                    "i."@,
                    Layout::Tight,
                    After::GroupBy,
                    Self::LATEST_STATUS_TAIL@,
                ),
                seq![organization_id.bound(), project_id.bound(), application_id.bound()],
            ),
            tenant::filters_by_application(statement@, organization_id, project_id, application_id),
    {
        let text = tenant::application(
            Self::LATEST_STATUS,
            Before::Where,
            "i.",
            Layout::Tight,
            After::GroupBy,
            Self::LATEST_STATUS_TAIL,
        );
        Statement::optional(text.as_str())
            .bind(organization_id)
            .bind(project_id)
            .bind(application_id)
    }
}

/// The installation of the id has the credential, and nothing else of it
/// changes but when it did.
pub proof fn installation_has_the_credential(
    installation: Record,
    credential_id: Uuid,
    installation_id: Uuid,
    database: Database,
)
    ensures
        ({
            let values: Seq<Bound> = seq![
                credential_id.bound(),
                installation_id.bound(),
            ];
            &&& condition::selects(
                InstallationRepository::by_id(),
                installation,
                values,
                database,
            ) <==> {
                &&& condition::has(installation, "id"@, installation_id.bound())
            }
            &&& update::changed(
                InstallationRepository::recredentialing(),
                installation,
                values,
                database,
            ) == installation
                .insert("credential_id"@, credential_id.bound())
                .insert("updated_at"@, database.now)
        }),
{
    broadcast use update::first_changes;

    let values: Seq<Bound> = seq![
        credential_id.bound(),
        installation_id.bound(),
    ];
    let changes = InstallationRepository::recredentialing();
    assert(changes =~= changes.take(changes.len() as int));
    let conditions = InstallationRepository::by_id();
    assert(condition::selects(conditions, installation, values, database) <==> {
        &&& conditions[0].holds(installation, values, database)
    });
}

/// The application's installation of the id has the cluster and the workload
/// intent, and nothing else of it changes but when it did.
pub proof fn updated_installation_has_the_intent(
    installation: Record,
    organization_id: Uuid,
    project_id: Uuid,
    application_id: Uuid,
    installation_id: Uuid,
    cluster_name: &str,
    workload_namespace: &str,
    workload_kind: &str,
    workload_name: Option<&str>,
    workload_labels: Option<Value>,
    database: Database,
)
    ensures
        ({
            let values: Seq<Bound> = seq![
                organization_id.bound(),
                project_id.bound(),
                application_id.bound(),
                installation_id.bound(),
                cluster_name.bound(),
                workload_namespace.bound(),
                workload_kind.bound(),
                workload_name.bound(),
                workload_labels.bound(),
            ];
            &&& condition::selects(
                InstallationRepository::updated_installation(),
                installation,
                values,
                database,
            ) <==> {
                &&& condition::has(installation, "id"@, installation_id.bound())
            }
            &&& update::changed(
                InstallationRepository::intent(),
                installation,
                values,
                database,
            ) == installation
                .insert("cluster_name"@, cluster_name.bound())
                .insert("workload_namespace"@, workload_namespace.bound())
                .insert("workload_kind"@, workload_kind.bound())
                .insert("workload_name"@, workload_name.bound())
                .insert("workload_labels"@, workload_labels.bound())
                .insert("updated_at"@, database.now)
        }),
{
    broadcast use update::first_changes;

    let values: Seq<Bound> = seq![
        organization_id.bound(),
        project_id.bound(),
        application_id.bound(),
        installation_id.bound(),
        cluster_name.bound(),
        workload_namespace.bound(),
        workload_kind.bound(),
        workload_name.bound(),
        workload_labels.bound(),
    ];
    let changes = InstallationRepository::intent();
    assert(changes =~= changes.take(changes.len() as int));
    let conditions = InstallationRepository::updated_installation();
    assert(condition::selects(conditions, installation, values, database) <==> {
        &&& conditions[0].holds(installation, values, database)
    });
}

} // verus!
