//! The wording of the statements of [`crate::projects`].

use vstd::prelude::*;

use crate::projects::ProjectRepository;

verus! {

/// The texts of [`ProjectRepository`], word for word.
pub proof fn texts_are_worded_so()
    ensures
        ProjectRepository::EXISTS_IN@ == "SELECT EXISTS(SELECT 1 FROM projects "@,
        ProjectRepository::EXISTS_IN_TAIL@ == "id = $2)"@,
        ProjectRepository::LOCK_PROJECT@ == "SELECT runtime_closed_before FROM projects \
             "@,
        ProjectRepository::LOCK_PROJECT_TAIL@ == "id = $2 FOR UPDATE"@,
        ProjectRepository::INSERT@ == r#"
            INSERT INTO projects(id, organization_id, slug, name)
            SELECT $1, id, $3, $4 FROM organizations WHERE id = $2
            RETURNING id, organization_id, slug, name, created_at, archived_at
            "#@,
        ProjectRepository::IDS_IN@ == "SELECT id FROM projects "@,
        ProjectRepository::IDS_IN_TAIL@ == "id"@,
        ProjectRepository::ORGANIZATION_OF@ == r#"
            SELECT organization_id FROM projects WHERE id = $1
            "#@,
{
}

} // verus!
