//! The wording of the statements of [`crate::event_groups::aggregates`].

use vstd::prelude::*;

use crate::event_groups::aggregates;

verus! {

/// The texts of [`crate::event_groups::aggregates`], word for word.
pub proof fn fragments_are_worded_so()
    ensures
        aggregates::COUNT_ALL_FOR_PROJECT@ == "(SELECT count(*) FROM runtime_event_groups g \
         WHERE g.organization_id=p.organization_id AND g.project_id=p.id)"@,
        aggregates::COUNT_ALL_FOR_APPLICATION@ == "(SELECT count(*) FROM runtime_event_groups g \
         WHERE g.organization_id=a.organization_id AND g.project_id=a.project_id \
           AND g.application_id=a.id)"@,
        aggregates::COUNT_WITH_EVIDENCE_FOR_APPLICATION@ == "(SELECT count(*) FROM runtime_event_groups g \
         WHERE g.organization_id=a.organization_id AND g.project_id=a.project_id \
           AND g.application_id=a.id AND g.occurrence_count>0)"@,
        aggregates::LATEST_SEEN_ALL_FOR_APPLICATION@ == "(SELECT max(g.last_seen_at) FROM runtime_event_groups g \
         WHERE g.organization_id=a.organization_id AND g.project_id=a.project_id \
           AND g.application_id=a.id)"@,
        aggregates::LATEST_SEEN_WITH_EVIDENCE_FOR_APPLICATION@ == "(SELECT max(g.last_seen_at) FROM runtime_event_groups g \
         WHERE g.organization_id=a.organization_id AND g.project_id=a.project_id \
           AND g.application_id=a.id AND g.occurrence_count>0)"@,
{
}

} // verus!
