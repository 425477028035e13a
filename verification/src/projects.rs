//! Project-scoped persistence.
//!
//! A project is addressed by the pair `(organization_id, id)`. The id alone is
//! unique, but every tenant-facing lookup matches both, so a caller holding the
//! wrong organization finds nothing rather than someone else's project. Both
//! are `Uuid`, so a swapped pair would compile; the methods here take them as
//! named arguments.

use uuid::Uuid;
use vstd::prelude::*;

#[allow(unused_imports)]
use crate::statement::Bind;
use crate::organizations::OrganizationRepository;
use crate::statement::{Bound, Statement, StatementView, Timestamp};
use crate::tenant::{After, Before, Layout, Start};
use crate::tenant;

verus! {

broadcast use tenant::known_aliases_name_tables;

/// A project row as stored.
#[derive(Debug, PartialEq)]
pub struct StoredProject {
    pub id: Uuid,
    pub organization_id: Uuid,
    pub slug: String,
    pub name: String,
    pub created_at: Timestamp,
    pub archived_at: Option<Timestamp>,
}

impl Clone for StoredProject {
    fn clone(&self) -> (copy: Self)
        ensures
            copy.id == self.id,
            copy.organization_id == self.organization_id,
            copy.slug@ == self.slug@,
            copy.name@ == self.name@,
            copy.created_at == self.created_at,
            copy.archived_at == self.archived_at,
    {
        StoredProject {
            id: self.id,
            organization_id: self.organization_id,
            slug: self.slug.clone(),
            name: self.name.clone(),
            created_at: self.created_at,
            archived_at: self.archived_at,
        }
    }
}

/// A project held under an update lock, with the state lock-holders read.
#[derive(Clone, Copy, Debug, PartialEq, Eq)]
pub struct LockedProject {
    /// Raw runtime events observed before this instant have been compacted
    /// away by retention. Work that reconciles raw evidence must not treat
    /// their absence as the absence of the behaviour they recorded.
    pub runtime_closed_before: Option<Timestamp>,
}

/// How far the locking of a project has come.
#[derive(Clone, Copy, Debug, PartialEq, Eq)]
pub enum ProjectLock {
    /// The organization's share lock is to be taken.
    Organization { organization_id: Uuid, project_id: Uuid },
    /// The organization is locked, and the project is to be locked.
    Project { organization_id: Uuid, project_id: Uuid },
    /// Nothing is left to do. `None` when the project does not exist within
    /// the organization.
    Done(Option<LockedProject>),
}

/// What the statement that a [`ProjectLock`] asked for came back with.
#[derive(Clone, Copy, Debug, PartialEq, Eq)]
pub enum LockReply {
    /// Whether the organization exists.
    Organization { found: bool },
    /// The project's `runtime_closed_before`, if there is such a project.
    Project { row: Option<Option<Timestamp>> },
}

impl ProjectLock {
    /// The state after a reply. A reply to a statement that was not asked for
    /// changes nothing.
    pub open spec fn after(self, reply: LockReply) -> ProjectLock {
        match (self, reply) {
            (
                ProjectLock::Organization { organization_id, project_id },
                LockReply::Organization { found },
            ) => if found {
                ProjectLock::Project { organization_id, project_id }
            } else {
                ProjectLock::Done(None)
            },
            (ProjectLock::Project { .. }, LockReply::Project { row }) => ProjectLock::Done(
                match row {
                    Some(runtime_closed_before) => Some(LockedProject { runtime_closed_before }),
                    None => None,
                },
            ),
            _ => self,
        }
    }

    /// The statement to run in this state; none when nothing is left to do.
    pub open spec fn asks(self) -> Option<StatementView> {
        match self {
            ProjectLock::Organization { organization_id, .. } => Some(
                StatementView::present(
                    OrganizationRepository::LOCK_SHARED@,
                    seq![organization_id.bound()],
                ),
            ),
            ProjectLock::Project { organization_id, project_id } => Some(
                StatementView::optional(
                    ProjectRepository::lock_project_text(),
                    seq![organization_id.bound(), project_id.bound()],
                ),
            ),
            ProjectLock::Done(_) => None,
        }
    }

    /// The statement to run next; none when nothing is left to do.
    pub fn statement(&self) -> (statement: Option<Statement>)
        ensures
            match statement {
                Some(asked) => self.asks() == Some(asked@),
                None => self.asks() is None,
            },
    {
        match *self {
            ProjectLock::Organization { organization_id, .. } => Some(
                OrganizationRepository::lock_shared(organization_id),
            ),
            ProjectLock::Project { organization_id, project_id } => Some(
                ProjectRepository::lock_project(organization_id, project_id),
            ),
            ProjectLock::Done(_) => None,
        }
    }

    /// Takes the reply to the statement that was run.
    pub fn advance(self, reply: LockReply) -> (next: ProjectLock)
        ensures
            next == self.after(reply),
    {
        match (self, reply) {
            (
                ProjectLock::Organization { organization_id, project_id },
                LockReply::Organization { found },
            ) => {
                if found {
                    ProjectLock::Project { organization_id, project_id }
                } else {
                    ProjectLock::Done(None)
                }
            },
            (ProjectLock::Project { .. }, LockReply::Project { row }) => {
                match row {
                    Some(runtime_closed_before) => ProjectLock::Done(
                        Some(LockedProject { runtime_closed_before }),
                    ),
                    None => ProjectLock::Done(None),
                }
            },
            _ => self,
        }
    }
}

/// Queries against the `projects` table.
#[derive(Clone, Copy, Debug)]
pub struct ProjectRepository;

impl ProjectRepository {
    pub const EXISTS_IN: &'static str = "SELECT EXISTS(SELECT 1 FROM projects ";

    pub const EXISTS_IN_TAIL: &'static str = "id = $2)";

    /// The statement that looks a project up within its organization.
    pub open spec fn existing_in(organization_id: Uuid, project_id: Uuid) -> StatementView {
        StatementView::one(
            tenant::organization_text(
                Self::EXISTS_IN@,
                Before::Where,
                ""@,
                Layout::Spaced,
                After::And,
                Self::EXISTS_IN_TAIL@,
            ),
            seq![organization_id.bound(), project_id.bound()],
        )
    }

    /// Reports whether the project exists within the organization.
    ///
    /// `false` covers both "no such project" and "belongs to another
    /// organization" by design; callers map both onto `404`.
    pub fn exists_in(organization_id: Uuid, project_id: Uuid) -> (statement: Statement)
        ensures
            statement@ == Self::existing_in(organization_id, project_id),
            tenant::filters_by_organization(statement@, organization_id),
    {
        let text = tenant::organization(
            Self::EXISTS_IN,
            Before::Where,
            "",
            Layout::Spaced,
            After::And,
            Self::EXISTS_IN_TAIL,
        );
        Statement::one(text.as_str()).bind(organization_id).bind(project_id)
    }

    pub const LOCK_PROJECT: &'static str =
        "SELECT runtime_closed_before FROM projects \
             ";

    pub const LOCK_PROJECT_TAIL: &'static str = "id = $2 FOR UPDATE";

    /// Locks the project at `$2` of the organization at `$1` for update.
    pub open spec fn lock_project_text() -> Seq<char> {
        tenant::organization_text(
            Self::LOCK_PROJECT@,
            Before::Where,
            ""@,
            Layout::Spaced,
            After::And,
            Self::LOCK_PROJECT_TAIL@,
        )
    }

    /// Locks a project for update and reads what lock-holders need. The second
    /// half of the lock order: see [`Self::lock_for_update`].
    fn lock_project(organization_id: Uuid, project_id: Uuid) -> (statement: Statement)
        ensures
            statement@ == StatementView::optional(
                Self::lock_project_text(),
                seq![organization_id.bound(), project_id.bound()],
            ),
            tenant::filters_by_organization(statement@, organization_id),
    {
        let text = tenant::organization(
            Self::LOCK_PROJECT,
            Before::Where,
            "",
            Layout::Spaced,
            After::And,
            Self::LOCK_PROJECT_TAIL,
        );
        Statement::optional(text.as_str()).bind(organization_id).bind(project_id)
    }

    /// Locks a project for update, taking the organization's share lock first,
    /// and gives what lock-holders need to read. `None` when the project does
    /// not exist within the organization.
    ///
    /// This is the lock order every project-scoped writer must follow:
    /// organization `FOR SHARE`, then project `FOR UPDATE`. Taking them the
    /// other way round deadlocks against a writer that follows it.
    ///
    /// It takes up to two statements, to be run on one connection and in one
    /// transaction, since the locks last only as long as that.
    pub fn lock_for_update(organization_id: Uuid, project_id: Uuid) -> (lock: ProjectLock)
        ensures
            lock == (ProjectLock::Organization { organization_id, project_id }),
    {
        ProjectLock::Organization { organization_id, project_id }
    }

    pub const INSERT: &'static str = r#"
            INSERT INTO projects(id, organization_id, slug, name)
            SELECT $1, id, $3, $4 FROM organizations WHERE id = $2
            RETURNING id, organization_id, slug, name, created_at, archived_at
            "#;

    /// Creates a project in an organization, returning the stored row, or
    /// `None` when the organization does not exist.
    ///
    /// The organization check is part of the insert — `INSERT … SELECT` from
    /// `organizations` — so a project cannot be created under an organization
    /// deleted after the caller last looked. A duplicate slug within the
    /// organization fails on the unique index.
    pub fn insert(id: Uuid, organization_id: Uuid, slug: &str, name: &str) -> (statement: Statement)
        ensures
            statement@ == StatementView::optional(
                Self::INSERT@,
                seq![id.bound(), organization_id.bound(), slug.bound(), name.bound()],
            ),
    {
        Statement::optional(Self::INSERT).bind(id).bind(organization_id).bind(slug).bind(name)
    }

    pub const IDS_IN: &'static str = "SELECT id FROM projects ";

    pub const IDS_IN_TAIL: &'static str = "id";

    /// Returns the ids of every project in an organization, ordered by id.
    ///
    /// Used where access is inherited from an organization role, so every
    /// project is visible. The order is part of the contract, since callers
    /// page over the result.
    pub fn ids_in(organization_id: Uuid) -> (statement: Statement)
        ensures
            statement@ == StatementView::all(
                tenant::organization_text(
                    Self::IDS_IN@,
                    Before::Where,
                    ""@,
                    Layout::Spaced,
                    After::OrderBy,
                    Self::IDS_IN_TAIL@,
                ),
                seq![organization_id.bound()],
            ),
            tenant::filters_by_organization(statement@, organization_id),
    {
        let text = tenant::organization(
            Self::IDS_IN,
            Before::Where,
            "",
            Layout::Spaced,
            After::OrderBy,
            Self::IDS_IN_TAIL,
        );
        Statement::all(text.as_str()).bind(organization_id)
    }

    pub const ORGANIZATION_OF: &'static str = r#"
            SELECT organization_id FROM projects WHERE id = $1
            "#;

    /// Returns the organization owning the project, or `None` when no such
    /// project exists.
    ///
    /// This is the entry point for resolving a tenant from a project path
    /// segment. Callers authorize the resulting organization before using it;
    /// the lookup itself is deliberately unauthenticated, because the caller
    /// needs the organization in order to run that authorization.
    pub fn organization_of(project_id: Uuid) -> (statement: Statement)
        ensures
            statement@ == StatementView::optional(Self::ORGANIZATION_OF@, seq![project_id.bound()]),
    {
        Statement::optional(Self::ORGANIZATION_OF).bind(project_id)
    }
}

/// A project is only ever locked after its organization: the one way into the
/// state that locks the project is from the state that locked its
/// organization, once that was found.
pub proof fn organization_is_locked_first(lock: ProjectLock, reply: LockReply)
    requires
        lock.after(reply) is Project,
    ensures
        lock == lock.after(reply) || {
            &&& lock == (ProjectLock::Organization {
                organization_id: lock.after(reply)->Project_organization_id,
                project_id: lock.after(reply)->Project_project_id,
            })
            &&& reply == (LockReply::Organization { found: true })
        },
{
}

/// Where the organization is missing, the project is not locked at all: the
/// locking ends without a project and without another statement.
pub proof fn missing_organization_locks_nothing(organization_id: Uuid, project_id: Uuid)
    ensures
        (ProjectLock::Organization { organization_id, project_id }).after(
            LockReply::Organization { found: false },
        ) == ProjectLock::Done(None),
        ProjectLock::Done(None).asks() is None,
{
}

/// Locking a project that exists takes the two locks in order and ends with
/// what the project's row held.
pub proof fn locking_takes_both_locks_in_order(
    organization_id: Uuid,
    project_id: Uuid,
    runtime_closed_before: Option<Timestamp>,
)
    ensures
        ({
            let first = ProjectLock::Organization { organization_id, project_id };
            let second = first.after(LockReply::Organization { found: true });
            let last = second.after(LockReply::Project { row: Some(runtime_closed_before) });
            &&& first.asks() == Some(
                StatementView::present(
                    OrganizationRepository::LOCK_SHARED@,
                    seq![organization_id.bound()],
                ),
            )
            &&& second.asks() == Some(
                StatementView::optional(
                    ProjectRepository::lock_project_text(),
                    seq![organization_id.bound(), project_id.bound()],
                ),
            )
            &&& last == ProjectLock::Done(Some(LockedProject { runtime_closed_before }))
        }),
{
}

/// A locking that is done stays done, whatever is replied to it.
pub proof fn done_is_final(outcome: Option<LockedProject>, reply: LockReply)
    ensures
        ProjectLock::Done(outcome).after(reply) == ProjectLock::Done(outcome),
{
}

/// Both arguments are `Uuid`, and only one order of them asks for a project: a
/// swapped pair of different identifiers asks something else.
pub proof fn swapped_pair_asks_otherwise(organization_id: Uuid, project_id: Uuid)
    requires
        organization_id != project_id,
    ensures
        ProjectRepository::existing_in(organization_id, project_id)
            != ProjectRepository::existing_in(project_id, organization_id),
{
    let asked = ProjectRepository::existing_in(organization_id, project_id);
    let swapped = ProjectRepository::existing_in(project_id, organization_id);
    assert(asked.parameters[0] == organization_id.bound());
    assert(swapped.parameters[0] == project_id.bound());
}

/// A project is looked up and locked within its organization: by the
/// organization and its own id, and by nothing else.
pub proof fn project_is_read_within_its_organization(organization_id: Uuid, project_id: Uuid)
    ensures
        ProjectRepository::existing_in(organization_id, project_id) == StatementView::one(
            ProjectRepository::EXISTS_IN@ + "WHERE "@ + tenant::organization_filter(
                ""@,
                Layout::Spaced,
                Start::First,
            ) + " AND "@ + ProjectRepository::EXISTS_IN_TAIL@,
            seq![Bound::Uuid(Some(organization_id)), Bound::Uuid(Some(project_id))],
        ),
        (ProjectLock::Project { organization_id, project_id }).asks() == Some(
            StatementView::optional(
                ProjectRepository::LOCK_PROJECT@ + "WHERE "@ + tenant::organization_filter(
                    ""@,
                    Layout::Spaced,
                    Start::First,
                ) + " AND "@ + ProjectRepository::LOCK_PROJECT_TAIL@,
                seq![Bound::Uuid(Some(organization_id)), Bound::Uuid(Some(project_id))],
            ),
        ),
        (ProjectLock::Organization { organization_id, project_id }).asks() == Some(
            StatementView::present(
                OrganizationRepository::LOCK_SHARED@,
                seq![Bound::Uuid(Some(organization_id))],
            ),
        ),
{
}

} // verus!
