//! Scalar subqueries aggregating a project's applications.
//!
//! Fragments rather than methods, because a statement embeds them in a
//! paginated project listing, and a statement of their own would be one query
//! per row.

use vstd::prelude::*;

verus! {

/// Counts the applications of a project. Expects `projects` aliased as `p`.
///
/// Carries the full tenant path, so that a reader does not need the schema to
/// see that it is scoped.
pub const COUNT_FOR_PROJECT: &'static str =
    "(SELECT count(*) FROM applications a \
         WHERE a.organization_id=p.organization_id AND a.project_id=p.id)";

} // verus!
