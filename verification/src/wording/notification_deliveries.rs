//! The wording of the statements of [`crate::notification_deliveries`].

use vstd::prelude::*;

use crate::notification_deliveries::NotificationDeliveryRepository;

verus! {

/// The texts of [`NotificationDeliveryRepository`], word for word.
pub proof fn texts_are_worded_so()
    ensures
        NotificationDeliveryRepository::DELIVERY_COLUMNS@ == "d.id,d.project_id,d.destination_id,d.outbox_message_id,d.origin,d.source,d.event_name,d.payload,w.name destination_name,w.enabled destination_enabled,d.status,d.available_at,d.recovery_generation,d.attempt_count,(SELECT count(*) FROM notification_delivery_attempts a WHERE a.delivery_id=d.id) total_attempt_count,d.max_attempts,d.last_error_class,d.created_at,d.updated_at,d.terminal_at,d.last_recovery_operation_id"@,
        NotificationDeliveryRepository::DESTINATION_COUNT@ == "SELECT (SELECT count(*) FROM webhook_destinations "@,
        NotificationDeliveryRepository::QUEUE_SNAPSHOT@ == "enabled=true) enabled_destination_count, count(*) FILTER (WHERE status='pending') pending_count, count(*) FILTER (WHERE status='pending' AND available_at<=now()) due_count, count(*) FILTER (WHERE status='pending' AND attempt_count>0) retrying_count, count(*) FILTER (WHERE status='in_flight') in_flight_count, count(*) FILTER (WHERE status='in_flight' AND lease_expires_at<=now()) expired_lease_count, count(*) FILTER (WHERE status='failed') failed_count, CASE WHEN count(*) FILTER (WHERE status='pending' AND available_at<=now())=0 THEN NULL ELSE GREATEST(EXTRACT(EPOCH FROM (now()-min(available_at) FILTER (WHERE status='pending' AND available_at<=now())))::bigint,0) END oldest_due_age_seconds FROM notification_deliveries"@,
        NotificationDeliveryRepository::REQUEUE_FAILED@ == "UPDATE notification_deliveries SET "@,
        NotificationDeliveryRepository::CANCEL_PENDING@ == "UPDATE notification_deliveries SET "@,
        NotificationDeliveryRepository::FAILED@ == "notification_deliveries d JOIN webhook_destinations w ON w.organization_id=d.organization_id AND w.project_id=d.project_id AND w.id=d.destination_id "@,
        NotificationDeliveryRepository::RETRY_COLUMNS@ == "d.id,d.recovery_generation"@,
        NotificationDeliveryRepository::RETRY_ORDER@ == " ORDER BY d.terminal_at,d.created_at,d.id FOR UPDATE OF d SKIP LOCKED LIMIT $7"@,
        NotificationDeliveryRepository::LOCK_FOR_RECOVERY@ == "SELECT d.status,w.enabled destination_enabled,d.lease_expires_at,d.recovery_generation,d.attempt_count,(SELECT count(*) FROM notification_delivery_attempts a WHERE a.delivery_id=d.id) total_attempt_count FROM notification_deliveries d JOIN webhook_destinations w ON w.organization_id=d.organization_id AND w.project_id=d.project_id AND w.id=d.destination_id "@,
        NotificationDeliveryRepository::LOCK_FOR_RECOVERY_TAIL@ == "d.id=$3 FOR UPDATE OF d"@,
        NotificationDeliveryRepository::INSERT_FOR_OUTBOX@ == " ON CONFLICT (outbox_message_id,destination_id) WHERE outbox_message_id IS NOT NULL DO NOTHING"@,
        NotificationDeliveryRepository::CLAIM_DUE@ == "WITH candidates AS (SELECT id FROM notification_deliveries WHERE "@,
        NotificationDeliveryRepository::CLAIM_DUE_CHOSEN@ == " ORDER BY available_at,created_at FOR UPDATE SKIP LOCKED LIMIT $1), claimed AS (UPDATE notification_deliveries d SET "@,
        NotificationDeliveryRepository::CLAIM_DUE_TAIL@ == " FROM candidates c WHERE d.id=c.id RETURNING d.*) SELECT c.id,c.organization_id,c.project_id,c.destination_id,c.outbox_message_id,c.source,c.event_name,c.payload,c.recovery_generation,c.attempt_count,c.max_attempts,c.lease_owner,w.url,w.encrypted_secret,w.secret_nonce FROM claimed c JOIN webhook_destinations w ON w.id=c.destination_id AND w.organization_id=c.organization_id AND w.project_id=c.project_id WHERE w.enabled=true"@,
        NotificationDeliveryRepository::CURSOR@ == "SELECT created_at,id FROM notification_deliveries "@,
        NotificationDeliveryRepository::CURSOR_TAIL@ == "id=$3"@,
        NotificationDeliveryRepository::PAGE@ == "notification_deliveries d JOIN webhook_destinations w ON w.organization_id=d.organization_id AND w.project_id=d.project_id AND w.id=d.destination_id "@,
        NotificationDeliveryRepository::PAGE_TAIL@ == " ORDER BY d.created_at DESC,d.id DESC LIMIT $10"@,
        NotificationDeliveryRepository::ATTEMPTS@ == "SELECT id,recovery_generation,attempt_number,started_at,finished_at,duration_ms,outcome,http_status,error_class,response_excerpt FROM notification_delivery_attempts "@,
        NotificationDeliveryRepository::ATTEMPTS_TAIL@ == "delivery_id=$3 ORDER BY recovery_generation DESC,attempt_number DESC LIMIT 100"@,
        NotificationDeliveryRepository::GET@ == "notification_deliveries d JOIN webhook_destinations w ON w.organization_id=d.organization_id AND w.project_id=d.project_id AND w.id=d.destination_id "@,
        NotificationDeliveryRepository::GET_TAIL@ == "d.id=$3"@,
{
}

} // verus!
