//! Scalar subqueries aggregating a tenant's groups.
//!
//! These are text fragments rather than methods on purpose. A statement embeds
//! the aggregate in a paginated listing that already selects the owning row; a
//! statement of its own would turn one query into a query per row. Sharing the
//! text is what keeps the definition in one place.
//!
//! Each fragment expects the owning table under a fixed alias, named in its
//! documentation, and carries the full tenant path even where a foreign key
//! makes part of it redundant: an aggregate that reads as tenant-scoped should
//! not depend on the reader knowing the schema to see that it is.
//!
//! # Two definitions of the same number
//!
//! Retention can leave a group row behind at `occurrence_count = 0`, which
//! splits every aggregate here in two: over all groups, or only over groups
//! that still have evidence.
//!
//! That count is not "raw events": it sums raw events and history snapshots,
//! so a compacted group keeps its count. It reaches zero only after the
//! snapshots expire too, leaving a group with no surviving record of any kind,
//! held in place by a policy revision, a suppression or an unprocessed outbox
//! message. Counting over all groups therefore yields neither a live total nor
//! a historical one, but live groups plus whatever residue policy happens to
//! pin.
//!
//! `runtime_group_count` is counted one way for a project and the other for
//! its applications, so one cannot be summed into the other.

use vstd::prelude::*;

verus! {

/// Counts every group of a project, evidence or not.
/// Expects `projects` aliased as `p`.
pub const COUNT_ALL_FOR_PROJECT: &'static str =
    "(SELECT count(*) FROM runtime_event_groups g \
         WHERE g.organization_id=p.organization_id AND g.project_id=p.id)";

/// Counts every group of an application, evidence or not.
/// Expects `applications` aliased as `a`.
pub const COUNT_ALL_FOR_APPLICATION: &'static str =
    "(SELECT count(*) FROM runtime_event_groups g \
         WHERE g.organization_id=a.organization_id AND g.project_id=a.project_id \
           AND g.application_id=a.id)";

/// Counts an application's groups that still have raw evidence behind them.
/// Expects `applications` aliased as `a`.
pub const COUNT_WITH_EVIDENCE_FOR_APPLICATION: &'static str =
    "(SELECT count(*) FROM runtime_event_groups g \
         WHERE g.organization_id=a.organization_id AND g.project_id=a.project_id \
           AND g.application_id=a.id AND g.occurrence_count>0)";

/// The most recent sighting across an application's groups, evidence or not.
/// Expects `applications` aliased as `a`.
pub const LATEST_SEEN_ALL_FOR_APPLICATION: &'static str =
    "(SELECT max(g.last_seen_at) FROM runtime_event_groups g \
         WHERE g.organization_id=a.organization_id AND g.project_id=a.project_id \
           AND g.application_id=a.id)";

/// The most recent sighting an application still holds evidence for.
/// Expects `applications` aliased as `a`.
pub const LATEST_SEEN_WITH_EVIDENCE_FOR_APPLICATION: &'static str =
    "(SELECT max(g.last_seen_at) FROM runtime_event_groups g \
         WHERE g.organization_id=a.organization_id AND g.project_id=a.project_id \
           AND g.application_id=a.id AND g.occurrence_count>0)";

} // verus!
