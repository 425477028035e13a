//! The wording of the statements of [`crate::outbox`].

use vstd::prelude::*;

use crate::outbox::OutboxRepository;

verus! {

/// The texts of [`OutboxRepository`], word for word.
pub proof fn texts_are_worded_so()
    ensures
        OutboxRepository::CLAIM_FIRST_SEEN@ == "SELECT id,organization_id,project_id,aggregate_id,source,payload,created_at FROM outbox_messages WHERE "@,
        OutboxRepository::CLAIM_FIRST_SEEN_TAIL@ == " ORDER BY created_at,id FOR UPDATE SKIP LOCKED LIMIT $1"@,
        OutboxRepository::NO_OPEN_DELIVERY@ == "NOT EXISTS (SELECT 1 FROM notification_deliveries d WHERE d.outbox_message_id=o.id AND d.status NOT IN ('succeeded','failed','suppressed','cancelled'))"@,
{
}

} // verus!
