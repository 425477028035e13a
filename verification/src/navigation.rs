//! Navigation reads: the organization a user is in, its projects and
//! applications with their summary counts, and the agents reporting runtime
//! events for an application.
//!
//! Every statement here is scoped by the caller's organization, and the
//! project and application listings page by `(created_at, id)`. The row shapes
//! belong to the navigation endpoints, so the listings document the columns
//! they select.

use uuid::Uuid;
use vstd::prelude::*;

#[allow(unused_imports)]
use crate::statement::Bind;
use crate::applications::aggregates as application_aggregates;
use crate::applications;
use crate::condition::{Condition, Conditions, Database, Kind, Record, Test};
use crate::condition;
use crate::event_groups::aggregates as group_aggregates;
use crate::statement::{Bound, Statement, StatementView, Timestamp};
use crate::tenant::{After, Before, Layout};
use crate::tenant;
use crate::text;

verus! {

broadcast use tenant::known_aliases_name_tables;

/// A project's own columns in a listing.
pub const PROJECT_COLUMNS: &'static str = "p.id,p.slug,p.name,p.created_at,p.archived_at,";

/// The columns of a project listing: the project's own, the number of its
/// applications as `application_count` and the number of its groups as
/// `runtime_group_count`.
pub open spec fn project_columns_text() -> Seq<char> {
    PROJECT_COLUMNS@ + application_aggregates::COUNT_FOR_PROJECT@ + " application_count,"@
        + group_aggregates::COUNT_ALL_FOR_PROJECT@ + " runtime_group_count"@
}

/// The columns of a project listing.
fn project_columns() -> (text: String)
    ensures
        text@ == project_columns_text(),
{
    text::join(PROJECT_COLUMNS, application_aggregates::COUNT_FOR_PROJECT)
        .concat(" application_count,")
        .concat(group_aggregates::COUNT_ALL_FOR_PROJECT)
        .concat(" runtime_group_count")
}

/// The columns of an application listing, over groups with evidence.
pub open spec fn application_columns_text(release_count: Seq<char>) -> Seq<char> {
    applications::listing_columns_text(
        release_count,
        group_aggregates::COUNT_WITH_EVIDENCE_FOR_APPLICATION@,
        group_aggregates::LATEST_SEEN_WITH_EVIDENCE_FOR_APPLICATION@,
    )
}

/// The columns of an application listing, over groups with evidence.
fn application_columns(release_count: &str) -> (text: String)
    ensures
        text@ == application_columns_text(release_count@),
{
    applications::listing_columns(
        release_count,
        group_aggregates::COUNT_WITH_EVIDENCE_FOR_APPLICATION,
        group_aggregates::LATEST_SEEN_WITH_EVIDENCE_FOR_APPLICATION,
    )
}

/// Reads behind the tenant navigation endpoints.
#[derive(Clone, Copy, Debug)]
pub struct NavigationRepository;

impl NavigationRepository {
    pub const ORGANIZATION: &'static str =
        "SELECT id,slug,name,created_at FROM organizations WHERE id=$1";

    /// The organization's `id`, `slug`, `name` and `created_at`.
    pub fn organization(organization_id: Uuid) -> (statement: Statement)
        ensures
            statement@ == StatementView::optional(
                Self::ORGANIZATION@,
                seq![organization_id.bound()],
            ),
    {
        Statement::optional(Self::ORGANIZATION).bind(organization_id)
    }

    pub const PROJECT_PAGE: &'static str = "projects p ";

    pub const PROJECT_PAGE_TAIL: &'static str = " ORDER BY p.created_at,p.id LIMIT $4";

    /// The conditions on a project of a page, besides its organization.
    pub open spec fn page_of_projects() -> Seq<Condition> {
        seq![
            Condition::PairIfGiven(
                "p.created_at"@,
                "p.id"@,
                Test::Greater,
                Kind::Timestamp,
                2,
                3,
            ),
        ]
    }

    /// A page of the organization's projects ordered by `(created_at, id)`,
    /// after the cursor when one is given.
    ///
    /// Selects `id`, `slug`, `name`, `created_at`, `archived_at`,
    /// `application_count` and `runtime_group_count`.
    pub fn project_page(
        organization_id: Uuid,
        cursor_created_at: Option<Timestamp>,
        cursor_id: Option<Uuid>,
        fetch_limit: i64,
    ) -> (statement: Statement)
        ensures
            statement@ == StatementView::all(
                text::select_text(
                    project_columns_text(),
                    tenant::organization_text(
                        Self::PROJECT_PAGE@,
                        Before::Where,
                        "p."@,
                        Layout::Tight,
                        After::And,
                        condition::all_text(Self::page_of_projects()) + Self::PROJECT_PAGE_TAIL@,
                    ),
                ),
                seq![
                    organization_id.bound(),
                    cursor_created_at.bound(),
                    cursor_id.bound(),
                    fetch_limit.bound(),
                ],
            ),
            tenant::filters_by_organization(statement@, organization_id),
            text::gives(statement@.text, project_columns_text()),
    {
        let conditions = Conditions::new()
            .pair_if_given("p.created_at", "p.id", Test::Greater, Kind::Timestamp, 2, 3);
        assert(conditions@ =~= Self::page_of_projects());
        let tail = conditions.into_text().concat(Self::PROJECT_PAGE_TAIL);
        let rows = tenant::organization(
            Self::PROJECT_PAGE,
            Before::Where,
            "p.",
            Layout::Tight,
            After::And,
            tail.as_str(),
        );
        let columns = project_columns();
        let text = text::select(columns.as_str(), rows.as_str());
        Statement::all(text.as_str())
            .bind(organization_id)
            .bind(cursor_created_at)
            .bind(cursor_id)
            .bind(fetch_limit)
    }

    pub const PROJECT: &'static str = "projects p ";

    pub const PROJECT_TAIL: &'static str = "p.id=$2";

    /// One project with the same columns as [`Self::project_page`].
    pub fn project(
        organization_id: Uuid,
        project_id: Uuid,
    ) -> (statement: Statement)
        ensures
            statement@ == StatementView::optional(
                text::select_text(
                    project_columns_text(),
                    tenant::organization_text(
                        Self::PROJECT@,
                        Before::Where,
                        "p."@,
                        Layout::Tight,
                        After::And,
                        Self::PROJECT_TAIL@,
                    ),
                ),
                seq![organization_id.bound(), project_id.bound()],
            ),
            tenant::filters_by_organization(statement@, organization_id),
            text::gives(statement@.text, project_columns_text()),
    {
        let rows = tenant::organization(
            Self::PROJECT,
            Before::Where,
            "p.",
            Layout::Tight,
            After::And,
            Self::PROJECT_TAIL,
        );
        let columns = project_columns();
        let text = text::select(columns.as_str(), rows.as_str());
        Statement::optional(text.as_str())
            .bind(organization_id)
            .bind(project_id)
    }

    pub const APPLICATION_PAGE: &'static str = "applications a ";

    pub const APPLICATION_PAGE_TAIL: &'static str = " ORDER BY a.created_at,a.id LIMIT $5";

    /// The conditions on an application of a page, besides the path.
    pub open spec fn page_of_applications() -> Seq<Condition> {
        seq![
            Condition::PairIfGiven(
                "a.created_at"@,
                "a.id"@,
                Test::Greater,
                Kind::Timestamp,
                3,
                4,
            ),
        ]
    }

    /// A page of a project's applications ordered by `(created_at, id)`,
    /// after the cursor when one is given.
    ///
    /// Selects `id`, `project_id`, `slug`, `name`, `created_at`,
    /// `release_count`, `runtime_group_count` and `latest_observed_at`.
    ///
    /// `release_count` is the subquery that counts an application's releases,
    /// with `applications` aliased as `a`.
    pub fn application_page(
        organization_id: Uuid,
        project_id: Uuid,
        cursor_created_at: Option<Timestamp>,
        cursor_id: Option<Uuid>,
        fetch_limit: i64,
        release_count: &str,
    ) -> (statement: Statement)
        ensures
            statement@ == StatementView::all(
                text::select_text(
                    application_columns_text(release_count@),
                    tenant::project_text(
                        Self::APPLICATION_PAGE@,
                        Before::Where,
                        "a."@,
                        Layout::Tight,
                        After::And,
                        condition::all_text(Self::page_of_applications())
                            + Self::APPLICATION_PAGE_TAIL@,
                    ),
                ),
                seq![
                    organization_id.bound(),
                    project_id.bound(),
                    cursor_created_at.bound(),
                    cursor_id.bound(),
                    fetch_limit.bound(),
                ],
            ),
            tenant::filters_by_project(statement@, organization_id, project_id),
            text::gives(statement@.text, application_columns_text(release_count@)),
    {
        let conditions = Conditions::new()
            .pair_if_given("a.created_at", "a.id", Test::Greater, Kind::Timestamp, 3, 4);
        assert(conditions@ =~= Self::page_of_applications());
        let tail = conditions.into_text().concat(Self::APPLICATION_PAGE_TAIL);
        let rows = tenant::project(
            Self::APPLICATION_PAGE,
            Before::Where,
            "a.",
            Layout::Tight,
            After::And,
            tail.as_str(),
        );
        let columns = application_columns(release_count);
        let text = text::select(columns.as_str(), rows.as_str());
        Statement::all(text.as_str())
            .bind(organization_id)
            .bind(project_id)
            .bind(cursor_created_at)
            .bind(cursor_id)
            .bind(fetch_limit)
    }

    pub const APPLICATION: &'static str = "applications a ";

    pub const APPLICATION_TAIL: &'static str = "a.id=$3";

    /// One application with the same columns as [`Self::application_page`].
    ///
    /// `release_count` is the subquery that counts an application's releases,
    /// with `applications` aliased as `a`.
    pub fn application(
        organization_id: Uuid,
        project_id: Uuid,
        application_id: Uuid,
        release_count: &str,
    ) -> (statement: Statement)
        ensures
            statement@ == StatementView::optional(
                text::select_text(
                    application_columns_text(release_count@),
                    tenant::project_text(
                        Self::APPLICATION@,
                        Before::Where,
                        "a."@,
                        Layout::Tight,
                        After::And,
                        Self::APPLICATION_TAIL@,
                    ),
                ),
                seq![organization_id.bound(), project_id.bound(), application_id.bound()],
            ),
            tenant::filters_by_project(statement@, organization_id, project_id),
            text::gives(statement@.text, application_columns_text(release_count@)),
    {
        let rows = tenant::project(
            Self::APPLICATION,
            Before::Where,
            "a.",
            Layout::Tight,
            After::And,
            Self::APPLICATION_TAIL,
        );
        let columns = application_columns(release_count);
        let text = text::select(columns.as_str(), rows.as_str());
        Statement::optional(text.as_str())
            .bind(organization_id)
            .bind(project_id)
            .bind(application_id)
    }

    pub const WORKER_CURSOR_IS_VALID: &'static str =
        "SELECT EXISTS(SELECT 1 FROM runtime_events ";

    pub const WORKER_CURSOR_IS_VALID_TAIL: &'static str =
        "agent_id=$4 GROUP BY agent_id HAVING max(observed_at)=$5)";

    /// Reports whether a worker-page cursor names an agent of this application
    /// whose latest event is exactly at the cursor's time.
    pub fn worker_cursor_is_valid(
        organization_id: Uuid,
        project_id: Uuid,
        application_id: Uuid,
        agent_id: Uuid,
        last_observed_at: Timestamp,
    ) -> (statement: Statement)
        ensures
            statement@ == StatementView::one(
                tenant::application_text(
                    Self::WORKER_CURSOR_IS_VALID@,
                    Before::Where,
                    ""@,
                    Layout::Tight,
                    After::And,
                    Self::WORKER_CURSOR_IS_VALID_TAIL@,
                ),
                seq![
                    organization_id.bound(),
                    project_id.bound(),
                    application_id.bound(),
                    agent_id.bound(),
                    last_observed_at.bound(),
                ],
            ),
            tenant::filters_by_application(statement@, organization_id, project_id, application_id),
    {
        let text = tenant::application(
            Self::WORKER_CURSOR_IS_VALID,
            Before::Where,
            "",
            Layout::Tight,
            After::And,
            Self::WORKER_CURSOR_IS_VALID_TAIL,
        );
        Statement::one(text.as_str())
            .bind(organization_id)
            .bind(project_id)
            .bind(application_id)
            .bind(agent_id)
            .bind(last_observed_at)
    }

    pub const WORKER_PAGE: &'static str =
        "WITH observed AS (SELECT agent_id,min(observed_at) first_observed_at,max(observed_at) last_observed_at FROM runtime_events ";

    pub const WORKER_PAGE_AGENTS: &'static str =
        "agent_id) SELECT a.id agent_id,a.cluster_id,c.name cluster_name,a.node_name,a.agent_version,a.architecture,a.kernel_release,o.first_observed_at,o.last_observed_at,a.last_seen_at agent_last_seen_at FROM observed o JOIN agents a ";

    pub const WORKER_PAGE_CLUSTERS: &'static str = "a.id=o.agent_id JOIN clusters c ";

    pub const WORKER_PAGE_TAIL: &'static str =
        "c.id=a.cluster_id WHERE ($4::timestamptz IS NULL OR (o.last_observed_at,o.agent_id)<($4,$5)) ORDER BY o.last_observed_at DESC,o.agent_id DESC LIMIT $6";

    /// A page of the agents that reported events for an application, most
    /// recently observed first, after the cursor when one is given.
    ///
    /// Selects the agent's identity and its `first_observed_at` and
    /// `last_observed_at` over the application's events.
    pub fn worker_page(
        organization_id: Uuid,
        project_id: Uuid,
        application_id: Uuid,
        cursor_last_observed_at: Option<Timestamp>,
        cursor_agent_id: Option<Uuid>,
        fetch_limit: i64,
    ) -> (statement: Statement)
        ensures
            statement@ == StatementView::all(
                tenant::application_text(
                    Self::WORKER_PAGE@,
                    Before::Where,
                    ""@,
                    Layout::Tight,
                    After::GroupBy,
                    tenant::organization_text(
                        Self::WORKER_PAGE_AGENTS@,
                        Before::On,
                        "a."@,
                        Layout::Tight,
                        After::And,
                        tenant::organization_text(
                            Self::WORKER_PAGE_CLUSTERS@,
                            Before::On,
                            "c."@,
                            Layout::Tight,
                            After::And,
                            Self::WORKER_PAGE_TAIL@,
                        ),
                    ),
                ),
                seq![
                    organization_id.bound(),
                    project_id.bound(),
                    application_id.bound(),
                    cursor_last_observed_at.bound(),
                    cursor_agent_id.bound(),
                    fetch_limit.bound(),
                ],
            ),
            tenant::filters_by_application(statement@, organization_id, project_id, application_id),
    {
        let rest = tenant::organization(
            Self::WORKER_PAGE_CLUSTERS,
            Before::On,
            "c.",
            Layout::Tight,
            After::And,
            Self::WORKER_PAGE_TAIL,
        );
        let rest = tenant::organization(
            Self::WORKER_PAGE_AGENTS,
            Before::On,
            "a.",
            Layout::Tight,
            After::And,
            rest.as_str(),
        );
        let text = tenant::application(
            Self::WORKER_PAGE,
            Before::Where,
            "",
            Layout::Tight,
            After::GroupBy,
            rest.as_str(),
        );
        Statement::all(text.as_str())
            .bind(organization_id)
            .bind(project_id)
            .bind(application_id)
            .bind(cursor_last_observed_at)
            .bind(cursor_agent_id)
            .bind(fetch_limit)
    }

    pub const PROJECT_CURSOR: &'static str = "SELECT created_at,id FROM projects ";

    pub const PROJECT_CURSOR_TAIL: &'static str = "id=$2";

    /// Resolves a project id used as a cursor into its `(created_at, id)`
    /// ordering key, within the organization.
    pub fn project_cursor(organization_id: Uuid, project_id: Uuid) -> (statement: Statement)
        ensures
            statement@ == StatementView::optional(
                tenant::organization_text(
                    Self::PROJECT_CURSOR@,
                    Before::Where,
                    ""@,
                    Layout::Tight,
                    After::And,
                    Self::PROJECT_CURSOR_TAIL@,
                ),
                seq![organization_id.bound(), project_id.bound()],
            ),
            tenant::filters_by_organization(statement@, organization_id),
    {
        let text = tenant::organization(
            Self::PROJECT_CURSOR,
            Before::Where,
            "",
            Layout::Tight,
            After::And,
            Self::PROJECT_CURSOR_TAIL,
        );
        Statement::optional(text.as_str()).bind(organization_id).bind(project_id)
    }

    pub const APPLICATION_CURSOR: &'static str = "SELECT created_at,id FROM applications ";

    pub const APPLICATION_CURSOR_TAIL: &'static str = "project_id=$2 AND id=$3";

    /// Resolves an application id used as a cursor into its `(created_at, id)`
    /// ordering key, within the organization and project.
    pub fn application_cursor(
        organization_id: Uuid,
        project_id: Option<Uuid>,
        application_id: Uuid,
    ) -> (statement: Statement)
        ensures
            statement@ == StatementView::optional(
                tenant::organization_text(
                    Self::APPLICATION_CURSOR@,
                    Before::Where,
                    ""@,
                    Layout::Tight,
                    After::And,
                    Self::APPLICATION_CURSOR_TAIL@,
                ),
                seq![organization_id.bound(), project_id.bound(), application_id.bound()],
            ),
            tenant::filters_by_organization(statement@, organization_id),
    {
        let text = tenant::organization(
            Self::APPLICATION_CURSOR,
            Before::Where,
            "",
            Layout::Tight,
            After::And,
            Self::APPLICATION_CURSOR_TAIL,
        );
        Statement::optional(text.as_str())
            .bind(organization_id)
            .bind(project_id)
            .bind(application_id)
    }
}

/// A project is listed with the number of its applications and of all its groups,
/// with evidence or without.
pub proof fn project_listing_counts_all()
    ensures
        project_columns_text() == "p.id,p.slug,p.name,p.created_at,p.archived_at,"@
                + application_aggregates::COUNT_FOR_PROJECT@ + " application_count,"@
                + group_aggregates::COUNT_ALL_FOR_PROJECT@ + " runtime_group_count"@,
{
    assert(project_columns_text() =~= "p.id,p.slug,p.name,p.created_at,p.archived_at,"@
            + application_aggregates::COUNT_FOR_PROJECT@ + " application_count,"@
            + group_aggregates::COUNT_ALL_FOR_PROJECT@ + " runtime_group_count"@);
}

/// An application is listed with the number and the latest sighting of its groups that
/// still have evidence.
pub proof fn application_listing_counts_evidence(release_count: Seq<char>)
    ensures
        application_columns_text(release_count)
            == "a.id,a.project_id,a.slug,a.name,a.created_at,"@ + release_count + " release_count,"@
                + group_aggregates::COUNT_WITH_EVIDENCE_FOR_APPLICATION@
                + " runtime_group_count,"@
                + group_aggregates::LATEST_SEEN_WITH_EVIDENCE_FOR_APPLICATION@
                + " latest_observed_at"@,
{
    assert(application_columns_text(release_count)
        =~= "a.id,a.project_id,a.slug,a.name,a.created_at,"@ + release_count + " release_count,"@
            + group_aggregates::COUNT_WITH_EVIDENCE_FOR_APPLICATION@ + " runtime_group_count,"@
            + group_aggregates::LATEST_SEEN_WITH_EVIDENCE_FOR_APPLICATION@
            + " latest_observed_at"@);
}

/// A project is on the page exactly where it comes behind the cursor, in the
/// order of the listing, or no cursor is given.
pub proof fn page_holds_the_projects_behind_the_cursor(
    project: Record,
    organization_id: Uuid,
    cursor_created_at: Option<Timestamp>,
    cursor_id: Option<Uuid>,
    fetch_limit: i64,
    database: Database,
)
    ensures
        ({
            let values: Seq<Bound> = seq![
                organization_id.bound(),
                cursor_created_at.bound(),
                cursor_id.bound(),
                fetch_limit.bound(),
            ];
            condition::selects(
                NavigationRepository::page_of_projects(),
                project,
                values,
                database,
            ) <==> {
                &&& cursor_created_at is Some ==> {
                    &&& !condition::lacks(project, "p.created_at"@)
                    &&& {
                        ||| {
                            &&& project["p.created_at"@] != cursor_created_at.bound()
                            &&& (database.less)(cursor_created_at.bound(), project["p.created_at"@])
                        }
                        ||| {
                            &&& project["p.created_at"@] == cursor_created_at.bound()
                            &&& cursor_id is Some
                            &&& !condition::lacks(project, "p.id"@)
                            &&& (database.less)(cursor_id.bound(), project["p.id"@])
                        }
                    }
                }
            }
        }),
{
    let values: Seq<Bound> = seq![
        organization_id.bound(),
        cursor_created_at.bound(),
        cursor_id.bound(),
        fetch_limit.bound(),
    ];
    let conditions = NavigationRepository::page_of_projects();
    assert(condition::selects(conditions, project, values, database) <==> {
        &&& conditions[0].holds(project, values, database)
    });
}

/// An application is on the page exactly where it comes behind the cursor, in
/// the order of the listing, or no cursor is given.
pub proof fn page_holds_the_applications_behind_the_cursor(
    application: Record,
    organization_id: Uuid,
    project_id: Uuid,
    cursor_created_at: Option<Timestamp>,
    cursor_id: Option<Uuid>,
    fetch_limit: i64,
    database: Database,
)
    ensures
        ({
            let values: Seq<Bound> = seq![
                organization_id.bound(),
                project_id.bound(),
                cursor_created_at.bound(),
                cursor_id.bound(),
                fetch_limit.bound(),
            ];
            condition::selects(
                NavigationRepository::page_of_applications(),
                application,
                values,
                database,
            ) <==> {
                &&& cursor_created_at is Some ==> {
                    &&& !condition::lacks(application, "a.created_at"@)
                    &&& {
                        ||| {
                            &&& application["a.created_at"@] != cursor_created_at.bound()
                            &&& (database.less)(
                                cursor_created_at.bound(),
                                application["a.created_at"@],
                            )
                        }
                        ||| {
                            &&& application["a.created_at"@] == cursor_created_at.bound()
                            &&& cursor_id is Some
                            &&& !condition::lacks(application, "a.id"@)
                            &&& (database.less)(cursor_id.bound(), application["a.id"@])
                        }
                    }
                }
            }
        }),
{
    let values: Seq<Bound> = seq![
        organization_id.bound(),
        project_id.bound(),
        cursor_created_at.bound(),
        cursor_id.bound(),
        fetch_limit.bound(),
    ];
    let conditions = NavigationRepository::page_of_applications();
    assert(condition::selects(conditions, application, values, database) <==> {
        &&& conditions[0].holds(application, values, database)
    });
}

} // verus!
