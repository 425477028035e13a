//! Persistence layer.
//!
//! Every SQL statement against a shared entity belongs in a repository here
//! rather than in an HTTP handler. Repositories own the statement text, the
//! row types, and the tenant-scoping predicates, so that `organization_id`
//! isolation is written once instead of being restated at each call site.
//!
//! A repository method gives a [`statement::Statement`]: the text, the values
//! of its placeholders, and what is asked back. It says in its contract what
//! all three are, for every argument. [`statement::Statement::arguments`]
//! turns the values into what the database driver takes. Running a statement
//! is the caller's part: on a pool for a standalone read, or in a transaction,
//! which a repository never opens or commits.
//!
//! # Texts
//!
//! The text of a statement is an associated constant that is named like its
//! method, or is put together from such constants. Where the statement
//! filters by a tenant path, the constant is what precedes the filter,
//! `.._TAIL` is what follows it and the other conditions, and the filter itself
//! comes from [`tenant`]; the method then states that its text holds the filter
//! as a condition, with the path bound to it. Statements that give back the same
//! columns share the constant that lists them, and state that they give them
//! back. A statement that inserts one row names each column beside what it is
//! given, as an [`insert::Row`], and one that merges it into a stored row says
//! beside each column what becomes of it, as an [`upsert::Upsert`]; what follows
//! is a constant, or stands in the method. Where a law speaks of the rows that a
//! statement selects, or of what it changes in them, its conditions come from
//! [`condition`] and its changes from [`update`], each with its meaning beside
//! its text. Every constant is held to its wording in [`wording`].
//!
//! # Projections shaped by their endpoint
//!
//! Some statements exist for one endpoint and select exactly the columns its
//! response carries. Those still belong here, but their row type does not: the
//! repository owns the statement and its tenant scoping, the endpoint owns the
//! shape. Each such method documents the columns it selects, because that list
//! is the contract between the two.

pub mod condition;
pub mod driver;
pub mod insert;
pub mod statement;
pub mod tenant;
pub mod text;
pub mod update;
pub mod upsert;
pub mod wording;

pub mod access_audit;
pub mod agent_health;
pub mod application_credentials;
pub mod applications;
pub mod attention;
pub mod clusters;
pub mod deployments;
pub mod dns_groups;
pub mod email_actions;
pub mod event_groups;
pub mod events;
pub mod installations;
pub mod inventory;
pub mod invitations;
pub mod memberships;
pub mod navigation;
pub mod notification_deliveries;
pub mod notification_recovery;
pub mod notification_retention;
pub mod organizations;
pub mod outbox;
pub mod policies;
pub mod projects;
pub mod provisioning;

pub use applications::ApplicationRepository;
pub use event_groups::{EventGroupRepository, GroupKey};
pub use events::{EventRepository, StoredEvent};
pub use memberships::MembershipRepository;
pub use organizations::{OrganizationRepository, OrganizationStatus, StoredOrganization};
pub use projects::{LockedProject, ProjectRepository, StoredProject};
