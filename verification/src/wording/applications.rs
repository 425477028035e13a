//! The wording of the statements of [`crate::applications`].

use vstd::prelude::*;

use crate::applications::ApplicationRepository;
use crate::applications;

verus! {

/// The texts of [`crate::applications`], word for word.
pub proof fn fragments_are_worded_so()
    ensures
        applications::LISTING_COLUMNS@ == "a.id,a.project_id,a.slug,a.name,a.created_at,"@,
{
}

/// The texts of [`ApplicationRepository`], word for word.
pub proof fn texts_are_worded_so()
    ensures
        ApplicationRepository::SUMMARY_COLUMNS@ == "id,organization_id,project_id,slug,name,created_at"@,
        ApplicationRepository::SUMMARIES@ == "applications WHERE "@,
        ApplicationRepository::SUMMARIES_TAIL@ == " ORDER BY created_at,id LIMIT 200"@,
        ApplicationRepository::SUMMARY@ == "applications WHERE "@,
        ApplicationRepository::ORGANIZATION_OF@ == "SELECT organization_id FROM applications WHERE "@,
        ApplicationRepository::PLATFORM_PAGE@ == "applications a WHERE "@,
        ApplicationRepository::PLATFORM_PAGE_TAIL@ == " ORDER BY a.id LIMIT $3"@,
        ApplicationRepository::INSERT@ == r#"
            INSERT INTO applications(id, organization_id, project_id, slug, name)
            SELECT $1, organization_id, id, $3, $4 FROM projects WHERE id = $2
            RETURNING id, organization_id, project_id, slug, name, created_at
            "#@,
        ApplicationRepository::IS_KNOWN@ == r#"
            SELECT EXISTS(
                SELECT 1 FROM applications
                "#@,
        ApplicationRepository::IS_KNOWN_TAIL@ == r#"id = $3
            )
            "#@,
{
}

} // verus!
