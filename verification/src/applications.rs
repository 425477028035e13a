//! Application-scoped persistence.

use uuid::Uuid;
use vstd::prelude::*;

#[allow(unused_imports)]
use crate::statement::Bind;
use crate::condition::{Condition, Conditions, Database, Kind, Record, Test};
use crate::condition;
use crate::event_groups::aggregates as group_aggregates;
use crate::insert::Style;
use crate::statement::{Bound, Fetch, Statement, StatementView, Timestamp};
use crate::tenant::{After, Before, Layout, Start};
use crate::tenant;
use crate::text;
use crate::upsert::{Table, Target, Upsert, UpsertView};
use crate::upsert;

pub mod aggregates;

verus! {

broadcast use tenant::known_aliases_name_tables;

/// An application's own columns in a listing.
pub const LISTING_COLUMNS: &'static str = "a.id,a.project_id,a.slug,a.name,a.created_at,";

/// The columns of an application listing: the application's own, the number of
/// its releases as `release_count`, the number of its groups as
/// `runtime_group_count` and its latest sighting as `latest_observed_at`.
pub open spec fn listing_columns_text(
    release_count: Seq<char>,
    group_count: Seq<char>,
    latest_seen: Seq<char>,
) -> Seq<char> {
    LISTING_COLUMNS@ + release_count + " release_count,"@ + group_count
        + " runtime_group_count,"@ + latest_seen + " latest_observed_at"@
}

/// The columns of an application listing, with the given subqueries.
pub fn listing_columns(release_count: &str, group_count: &str, latest_seen: &str) -> (text: String)
    ensures
        text@ == listing_columns_text(release_count@, group_count@, latest_seen@),
{
    text::join(LISTING_COLUMNS, release_count)
        .concat(" release_count,")
        .concat(group_count)
        .concat(" runtime_group_count,")
        .concat(latest_seen)
        .concat(" latest_observed_at")
}

/// An application row as stored.
#[derive(Debug, PartialEq)]
pub struct StoredApplication {
    pub id: Uuid,
    pub organization_id: Uuid,
    pub project_id: Uuid,
    pub slug: String,
    pub name: String,
    pub created_at: Timestamp,
}

impl Clone for StoredApplication {
    fn clone(&self) -> (copy: Self)
        ensures
            copy.id == self.id,
            copy.organization_id == self.organization_id,
            copy.project_id == self.project_id,
            copy.slug@ == self.slug@,
            copy.name@ == self.name@,
            copy.created_at == self.created_at,
    {
        StoredApplication {
            id: self.id,
            organization_id: self.organization_id,
            project_id: self.project_id,
            slug: self.slug.clone(),
            name: self.name.clone(),
            created_at: self.created_at,
        }
    }
}

/// Queries against the `applications` table.
///
/// A tenant's lookup takes the full tenant path (organization, project,
/// application). Narrowing it to fewer than all three columns would let a
/// caller reach an application owned by another tenant.
///
/// These take less. [`Self::insert`] names the project and takes the
/// organization from the project's own row, so the two can never disagree.
/// [`Self::summaries`], [`Self::summary`], [`Self::organization_of`] and
/// [`Self::platform_page`] ask by the project, without its organization.
#[derive(Clone, Copy, Debug)]
pub struct ApplicationRepository;

impl ApplicationRepository {
    /// The summary projection.
    pub const SUMMARY_COLUMNS: &'static str = "id,organization_id,project_id,slug,name,created_at";

    /// An application of a project by its slug, with its name.
    pub open spec fn named(
        id: Uuid,
        organization_id: Uuid,
        project_id: Uuid,
        slug: &str,
        name: &str,
    ) -> UpsertView {
        upsert::upsert(Style::Spaced, Target::Wide, "applications"@)
            .kept("id"@, id.bound())
            .kept("organization_id"@, organization_id.bound())
            .key("project_id"@, project_id.bound())
            .key("slug"@, slug.bound())
            .replaced("name"@, name.bound())
    }

    /// Records an application, or renames the project's one with this slug,
    /// and returns its id.
    pub fn upsert_by_slug(
        id: Uuid,
        organization_id: Uuid,
        project_id: Uuid,
        slug: &str,
        name: &str,
    ) -> (statement: Statement)
        ensures
            statement@ == Self::named(id, organization_id, project_id, slug, name).finish(
                " RETURNING id"@,
                Fetch::One,
            ),
    {
        Upsert::new(Style::Spaced, Target::Wide, "applications")
            .kept("id", id)
            .kept("organization_id", organization_id)
            .key("project_id", project_id)
            .key("slug", slug)
            .replaced("name", name)
            .finish(" RETURNING id", Fetch::One)
    }

    pub const SUMMARIES: &'static str =
        "applications WHERE ";

    pub const SUMMARIES_TAIL: &'static str = " ORDER BY created_at,id LIMIT 200";

    /// The conditions on an application that is summarized.
    pub open spec fn of_project() -> Seq<Condition> {
        seq![Condition::Compared("project_id"@, Test::Equal, 1)]
    }

    /// The project's first 200 applications, oldest first.
    ///
    /// Selects `id`, `organization_id`, `project_id`, `slug`, `name` and
    /// `created_at`.
    pub fn summaries(project_id: Uuid) -> (statement: Statement)
        ensures
            statement@ == StatementView::all(
                text::select_text(
                    Self::SUMMARY_COLUMNS@,
                    Self::SUMMARIES@ + condition::all_text(Self::of_project())
                        + Self::SUMMARIES_TAIL@,
                ),
                seq![project_id.bound()],
            ),
            text::gives(statement@.text, Self::SUMMARY_COLUMNS@),
    {
        let conditions = Conditions::new().compared("project_id", Test::Equal, 1);
        assert(conditions@ =~= Self::of_project());
        let rows = text::join(Self::SUMMARIES, conditions.into_text().as_str()).concat(
            Self::SUMMARIES_TAIL,
        );
        let text = text::select(Self::SUMMARY_COLUMNS, rows.as_str());
        Statement::all(text.as_str()).bind(project_id)
    }

    pub const SUMMARY: &'static str =
        "applications WHERE ";

    /// The conditions on the application that is summarized.
    pub open spec fn one_of_project() -> Seq<Condition> {
        seq![
            Condition::Compared("project_id"@, Test::Equal, 1),
            Condition::Compared("id"@, Test::Equal, 2),
        ]
    }

    /// One application of the project with the columns of
    /// [`Self::summaries`].
    pub fn summary(project_id: Uuid, application_id: Uuid) -> (statement: Statement)
        ensures
            statement@ == StatementView::optional(
                text::select_text(
                    Self::SUMMARY_COLUMNS@,
                    Self::SUMMARY@ + condition::all_text(Self::one_of_project()),
                ),
                seq![project_id.bound(), application_id.bound()],
            ),
            text::gives(statement@.text, Self::SUMMARY_COLUMNS@),
    {
        let conditions = Conditions::new()
            .compared("project_id", Test::Equal, 1)
            .compared("id", Test::Equal, 2);
        assert(conditions@ =~= Self::one_of_project());
        let rows = text::join(Self::SUMMARY, conditions.into_text().as_str());
        let text = text::select(Self::SUMMARY_COLUMNS, rows.as_str());
        Statement::optional(text.as_str()).bind(project_id).bind(application_id)
    }

    pub const ORGANIZATION_OF: &'static str =
        "SELECT organization_id FROM applications WHERE ";

    /// The conditions on the application whose organization is read.
    pub open spec fn named_in_project() -> Seq<Condition> {
        seq![
            Condition::Compared("project_id"@, Test::Equal, 1),
            Condition::Compared("id"@, Test::Equal, 2),
        ]
    }

    /// The organization of an application of the project.
    pub fn organization_of(project_id: Uuid, application_id: Uuid) -> (statement: Statement)
        ensures
            statement@ == StatementView::optional(
                Self::ORGANIZATION_OF@ + condition::all_text(Self::named_in_project()),
                seq![project_id.bound(), application_id.bound()],
            ),
    {
        let conditions = Conditions::new()
            .compared("project_id", Test::Equal, 1)
            .compared("id", Test::Equal, 2);
        assert(conditions@ =~= Self::named_in_project());
        let text = text::join(Self::ORGANIZATION_OF, conditions.into_text().as_str());
        Statement::optional(text.as_str()).bind(project_id).bind(application_id)
    }

    pub const PLATFORM_PAGE: &'static str =
        "applications a WHERE ";

    pub const PLATFORM_PAGE_TAIL: &'static str = " ORDER BY a.id LIMIT $3";

    /// The conditions on an application of a page.
    pub open spec fn platform_listing() -> Seq<Condition> {
        seq![
            Condition::Compared("a.project_id"@, Test::Equal, 1),
            Condition::ComparedIfGiven("a.id"@, Test::Greater, Kind::Uuid, 2),
        ]
    }

    /// A page of the project's applications by id, after the cursor when one
    /// is given, for platform administration, with their release and runtime
    /// group counts and latest observation.
    ///
    /// Selects `id`, `project_id`, `slug`, `name`, `created_at`,
    /// `release_count`, `runtime_group_count` and `latest_observed_at`.
    ///
    /// `release_count` is the subquery that counts an application's releases,
    /// with `applications` aliased as `a`.
    pub fn platform_page(
        project_id: Uuid,
        cursor: Option<Uuid>,
        fetch_limit: i64,
        release_count: &str,
    ) -> (statement: Statement)
        ensures
            statement@ == StatementView::all(
                text::select_text(
                    listing_columns_text(
                        release_count@,
                        group_aggregates::COUNT_ALL_FOR_APPLICATION@,
                        group_aggregates::LATEST_SEEN_ALL_FOR_APPLICATION@,
                    ),
                    Self::PLATFORM_PAGE@ + condition::all_text(Self::platform_listing())
                        + Self::PLATFORM_PAGE_TAIL@,
                ),
                seq![project_id.bound(), cursor.bound(), fetch_limit.bound()],
            ),
            text::gives(
                statement@.text,
                listing_columns_text(
                    release_count@,
                    group_aggregates::COUNT_ALL_FOR_APPLICATION@,
                    group_aggregates::LATEST_SEEN_ALL_FOR_APPLICATION@,
                ),
            ),
    {
        let columns = listing_columns(
            release_count,
            group_aggregates::COUNT_ALL_FOR_APPLICATION,
            group_aggregates::LATEST_SEEN_ALL_FOR_APPLICATION,
        );
        let conditions = Conditions::new()
            .compared("a.project_id", Test::Equal, 1)
            .compared_if_given("a.id", Test::Greater, Kind::Uuid, 2);
        assert(conditions@ =~= Self::platform_listing());
        let rows = text::join(Self::PLATFORM_PAGE, conditions.into_text().as_str()).concat(
            Self::PLATFORM_PAGE_TAIL,
        );
        let text = text::select(columns.as_str(), rows.as_str());
        Statement::all(text.as_str()).bind(project_id).bind(cursor).bind(fetch_limit)
    }

    pub const INSERT: &'static str = r#"
            INSERT INTO applications(id, organization_id, project_id, slug, name)
            SELECT $1, organization_id, id, $3, $4 FROM projects WHERE id = $2
            RETURNING id, organization_id, project_id, slug, name, created_at
            "#;

    /// Creates an application in a project, returning the stored row, or
    /// `None` when the project does not exist.
    ///
    /// The organization comes from the project row in the same statement.
    /// Supplying it separately would allow a mismatched pair, which the
    /// composite foreign key would reject as an internal error; deriving it
    /// makes that pair unrepresentable, and a project deleted after the caller
    /// looked yields `None` rather than a constraint violation. A duplicate
    /// slug within the project fails on the unique index.
    pub fn insert(id: Uuid, project_id: Uuid, slug: &str, name: &str) -> (statement: Statement)
        ensures
            statement@ == StatementView::optional(
                Self::INSERT@,
                seq![id.bound(), project_id.bound(), slug.bound(), name.bound()],
            ),
    {
        Statement::optional(Self::INSERT).bind(id).bind(project_id).bind(slug).bind(name)
    }

    pub const IS_KNOWN: &'static str = r#"
            SELECT EXISTS(
                SELECT 1 FROM applications
                "#;

    pub const IS_KNOWN_TAIL: &'static str = r#"id = $3
            )
            "#;

    /// The statement that looks an application up by its tenant path.
    pub open spec fn knowing(
        organization_id: Uuid,
        project_id: Uuid,
        application_id: Uuid,
    ) -> StatementView {
        StatementView::one(
            tenant::project_text(
                Self::IS_KNOWN@,
                Before::Where,
                ""@,
                Layout::DeepLines,
                After::And,
                Self::IS_KNOWN_TAIL@,
            ),
            seq![organization_id.bound(), project_id.bound(), application_id.bound()],
        )
    }

    /// Reports whether the application exists within the given tenant scope.
    ///
    /// A `false` result is indistinguishable from "exists but belongs to
    /// another tenant" by design: callers map both onto `404` so that the API
    /// does not disclose the existence of other tenants' applications.
    pub fn is_known(
        organization_id: Uuid,
        project_id: Uuid,
        application_id: Uuid,
    ) -> (statement: Statement)
        ensures
            statement@ == Self::knowing(organization_id, project_id, application_id),
            tenant::filters_by_project(statement@, organization_id, project_id),
    {
        let text = tenant::project(
            Self::IS_KNOWN,
            Before::Where,
            "",
            Layout::DeepLines,
            After::And,
            Self::IS_KNOWN_TAIL,
        );
        Statement::one(text.as_str()).bind(organization_id).bind(project_id).bind(application_id)
    }
}

/// The tenant path is three `Uuid`s, and only the right order of them asks for
/// an application: two paths that are looked up by the same statement are the
/// same path, so that any other order of different identifiers asks something
/// else.
pub proof fn only_the_right_order_asks(
    organization_id: Uuid,
    project_id: Uuid,
    application_id: Uuid,
    first: Uuid,
    second: Uuid,
    third: Uuid,
)
    requires
        ApplicationRepository::knowing(organization_id, project_id, application_id)
            == ApplicationRepository::knowing(first, second, third),
    ensures
        organization_id == first,
        project_id == second,
        application_id == third,
{
    let path = ApplicationRepository::knowing(organization_id, project_id, application_id);
    assert(path.parameters[0] == organization_id.bound() && path.parameters[0] == first.bound());
    assert(path.parameters[1] == project_id.bound() && path.parameters[1] == second.bound());
    assert(path.parameters[2] == application_id.bound() && path.parameters[2] == third.bound());
}

/// A project has one application of a slug. Where one has it, only its name
/// changes and its id stays; where none has, the application is added. Every
/// other application is as it was.
pub proof fn slug_keeps_one_application(
    table: Table,
    id: Uuid,
    organization_id: Uuid,
    project_id: Uuid,
    slug: &str,
    name: &str,
    less: spec_fn(Bound, Bound) -> bool,
)
    requires
        ({
            let key: Seq<Bound> = seq![project_id.bound(), slug.bound()];
            table.contains_key(key) ==> table[key].len() == 5
        }),
    ensures
        ({
            let key: Seq<Bound> = seq![project_id.bound(), slug.bound()];
            ApplicationRepository::named(id, organization_id, project_id, slug, name).applied(
                table,
                less,
            ) == table.insert(
                key,
                if table.contains_key(key) {
                    table[key].update(4, name.bound())
                } else {
                    seq![
                        id.bound(),
                        organization_id.bound(),
                        project_id.bound(),
                        slug.bound(),
                        name.bound(),
                    ]
                },
            )
        }),
{
    let key: Seq<Bound> = seq![project_id.bound(), slug.bound()];
    let written = ApplicationRepository::named(id, organization_id, project_id, slug, name);
    assert(written.key =~= key);
    if table.contains_key(key) {
        assert(written.over(table[key], less) =~= table[key].update(4, name.bound()));
    } else {
        assert(written.values =~= seq![
            id.bound(),
            organization_id.bound(),
            project_id.bound(),
            slug.bound(),
            name.bound(),
        ]);
    }
}

/// A listed application has its own columns, and under their names the counts and the
/// sighting that are given for it.
pub proof fn listing_names_its_counts(
    release_count: Seq<char>,
    group_count: Seq<char>,
    latest_seen: Seq<char>,
)
    ensures
        listing_columns_text(release_count, group_count, latest_seen)
            == "a.id,a.project_id,a.slug,a.name,a.created_at,"@ + release_count + " release_count,"@
                + group_count + " runtime_group_count,"@ + latest_seen + " latest_observed_at"@,
{
    assert(listing_columns_text(release_count, group_count, latest_seen)
        =~= "a.id,a.project_id,a.slug,a.name,a.created_at,"@ + release_count + " release_count,"@
            + group_count + " runtime_group_count,"@ + latest_seen + " latest_observed_at"@);
}

/// An application is known where a row has the organization, the project and the
/// id, and by nothing else.
pub proof fn known_application_has_the_whole_path(
    organization_id: Uuid,
    project_id: Uuid,
    application_id: Uuid,
)
    ensures
        ApplicationRepository::knowing(organization_id, project_id, application_id) == (
        StatementView {
            text: ApplicationRepository::IS_KNOWN@ + "WHERE "@ + tenant::project_filter(
                ""@,
                Layout::DeepLines,
                Start::First,
            ) + "\n                  AND "@ + ApplicationRepository::IS_KNOWN_TAIL@,
            parameters: seq![
                Bound::Uuid(Some(organization_id)),
                Bound::Uuid(Some(project_id)),
                Bound::Uuid(Some(application_id)),
            ],
            fetch: Fetch::One,
        }),
{
}

/// An application is on the platform's page exactly where it is one of the
/// project and comes behind the cursor, or no cursor is given.
pub proof fn platform_page_holds_the_applications_behind_the_cursor(
    application: Record,
    project_id: Uuid,
    cursor: Option<Uuid>,
    fetch_limit: i64,
    database: Database,
)
    ensures
        ({
            let values: Seq<Bound> = seq![project_id.bound(), cursor.bound(), fetch_limit.bound()];
            condition::selects(
                ApplicationRepository::platform_listing(),
                application,
                values,
                database,
            ) <==> {
                &&& condition::has(application, "a.project_id"@, project_id.bound())
                &&& cursor is Some ==> {
                    &&& !condition::lacks(application, "a.id"@)
                    &&& (database.less)(cursor.bound(), application["a.id"@])
                }
            }
        }),
{
    let values: Seq<Bound> = seq![project_id.bound(), cursor.bound(), fetch_limit.bound()];
    let conditions = ApplicationRepository::platform_listing();
    assert(condition::selects(conditions, application, values, database) <==> {
        &&& conditions[0].holds(application, values, database)
        &&& conditions[1].holds(application, values, database)
    });
}

/// An application is summarized exactly where it is one of the project.
pub proof fn summaries_are_of_the_project(
    application: Record,
    project_id: Uuid,
    database: Database,
)
    ensures
        ({
            let values: Seq<Bound> = seq![project_id.bound()];
            condition::selects(
                ApplicationRepository::of_project(),
                application,
                values,
                database,
            ) <==> {
                &&& condition::has(application, "project_id"@, project_id.bound())
            }
        }),
{
    let values: Seq<Bound> = seq![project_id.bound()];
    let conditions = ApplicationRepository::of_project();
    assert(condition::selects(conditions, application, values, database) <==> {
        &&& conditions[0].holds(application, values, database)
    });
}

/// The summary is that of the project's application of the id.
pub proof fn summary_is_of_the_application(
    application: Record,
    project_id: Uuid,
    application_id: Uuid,
    database: Database,
)
    ensures
        ({
            let values: Seq<Bound> = seq![project_id.bound(), application_id.bound()];
            condition::selects(
                ApplicationRepository::one_of_project(),
                application,
                values,
                database,
            ) <==> {
                &&& condition::has(application, "project_id"@, project_id.bound())
                &&& condition::has(application, "id"@, application_id.bound())
            }
        }),
{
    let values: Seq<Bound> = seq![project_id.bound(), application_id.bound()];
    let conditions = ApplicationRepository::one_of_project();
    assert(condition::selects(conditions, application, values, database) <==> {
        &&& conditions[0].holds(application, values, database)
        &&& conditions[1].holds(application, values, database)
    });
}

/// The organization is that of the project's application of the id.
pub proof fn organization_is_that_of_the_application(
    application: Record,
    project_id: Uuid,
    application_id: Uuid,
    database: Database,
)
    ensures
        ({
            let values: Seq<Bound> = seq![project_id.bound(), application_id.bound()];
            condition::selects(
                ApplicationRepository::named_in_project(),
                application,
                values,
                database,
            ) <==> {
                &&& condition::has(application, "project_id"@, project_id.bound())
                &&& condition::has(application, "id"@, application_id.bound())
            }
        }),
{
    let values: Seq<Bound> = seq![project_id.bound(), application_id.bound()];
    let conditions = ApplicationRepository::named_in_project();
    assert(condition::selects(conditions, application, values, database) <==> {
        &&& conditions[0].holds(application, values, database)
        &&& conditions[1].holds(application, values, database)
    });
}

} // verus!
