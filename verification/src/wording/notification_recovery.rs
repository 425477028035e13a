//! The wording of the statements of [`crate::notification_recovery`].

use vstd::prelude::*;

use crate::notification_recovery::NotificationRecoveryRepository;

verus! {

/// The texts of [`NotificationRecoveryRepository`], word for word.
pub proof fn texts_are_worded_so()
    ensures
        NotificationRecoveryRepository::OPERATION_COLUMNS@ == "id,project_id,command_type,target_delivery_id,actor_kind,actor_id,request_id,outcome,selected_count,retried_count,cancelled_count,skipped_count,remaining_count,created_at,completed_at"@,
        NotificationRecoveryRepository::CURSOR@ == "SELECT created_at,id FROM notification_recovery_operations "@,
        NotificationRecoveryRepository::CURSOR_TAIL@ == "id=$3"@,
        NotificationRecoveryRepository::PAGE@ == "notification_recovery_operations "@,
        NotificationRecoveryRepository::PAGE_TAIL@ == " ORDER BY created_at DESC,id DESC LIMIT $6"@,
        NotificationRecoveryRepository::GET@ == "notification_recovery_operations "@,
        NotificationRecoveryRepository::GET_TAIL@ == "id=$3"@,
        NotificationRecoveryRepository::DELIVERIES@ == "SELECT delivery_id,recovery_generation,action,created_at FROM notification_recovery_operation_deliveries "@,
        NotificationRecoveryRepository::DELIVERIES_TAIL@ == "operation_id=$3 ORDER BY created_at,delivery_id LIMIT 200"@,
        NotificationRecoveryRepository::BY_IDEMPOTENCY_KEY_FOR_UPDATE@ == "SELECT request_fingerprint,result FROM notification_recovery_operations "@,
        NotificationRecoveryRepository::BY_IDEMPOTENCY_KEY_FOR_UPDATE_TAIL@ == "idempotency_key_hash=$3 FOR UPDATE"@,
{
}

} // verus!
