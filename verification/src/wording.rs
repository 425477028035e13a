//! The wording of the statements.
//!
//! What a statement does is what its text says, and most texts are constants of
//! the repositories. Their wording is written down here a second time and the
//! constants are held to it, so that no text changes unless that is meant. What
//! the texts that are put together from them say is stated in the repositories.

pub mod access_audit;
pub mod agent_health;
pub mod application_credentials;
pub mod applications;
pub mod applications_aggregates;
pub mod attention;
pub mod clusters;
pub mod deployments;
pub mod dns_groups;
pub mod email_actions;
pub mod event_groups;
pub mod event_groups_aggregates;
pub mod events;
pub mod installations;
pub mod inventory;
pub mod invitations;
pub mod memberships;
pub mod navigation;
pub mod notification_deliveries;
pub mod notification_recovery;
pub mod notification_retention;
pub mod organizations;
pub mod outbox;
pub mod policies;
pub mod projects;
pub mod provisioning;
