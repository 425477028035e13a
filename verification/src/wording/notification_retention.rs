//! The wording of the statements of [`crate::notification_retention`].

use vstd::prelude::*;

use crate::notification_retention::NotificationRetentionRepository;

verus! {

/// The texts of [`NotificationRetentionRepository`], word for word.
pub proof fn texts_are_worded_so()
    ensures
        NotificationRetentionRepository::INITIALIZE_ORGANIZATIONS@ == "UPDATE organizations SET "@,
        NotificationRetentionRepository::ORGANIZATION_POLICY@ == "SELECT notification_retention_enabled enabled,notification_retention_days history_days FROM organizations WHERE "@,
        NotificationRetentionRepository::PROJECT_POLICY@ == "SELECT p.notification_retention_enabled override_enabled,p.notification_retention_days override_days,e.enabled,e.history_days,o.notification_retention_enabled inherited_enabled,o.notification_retention_days inherited_days FROM projects p JOIN organizations o ON o.id=p.organization_id JOIN effective_notification_retention e ON e.project_id=p.id "@,
        NotificationRetentionRepository::PROJECT_POLICY_TAIL@ == "p.id=$2"@,
        NotificationRetentionRepository::TRY_LOCK@ == "SELECT pg_try_advisory_xact_lock(220022)"@,
        NotificationRetentionRepository::EXPIRED_DELIVERY_IDS@ == "SELECT d.id FROM notification_deliveries d JOIN effective_notification_retention e ON e.organization_id=d.organization_id AND e.project_id=d.project_id WHERE "@,
        NotificationRetentionRepository::EXPIRED_DELIVERY_IDS_TAIL@ == " ORDER BY d.terminal_at,d.id LIMIT $1 FOR UPDATE OF d SKIP LOCKED"@,
        NotificationRetentionRepository::HAS_ENDED@ == "d.status IN ('succeeded','failed','suppressed','cancelled')"@,
        NotificationRetentionRepository::IS_OUT_OF_HISTORY@ == "d.terminal_at < now()-make_interval(days=>e.history_days)"@,
        NotificationRetentionRepository::OPERATIONS_OF_DELIVERIES@ == "SELECT DISTINCT operation_id FROM notification_recovery_operation_deliveries WHERE "@,
        NotificationRetentionRepository::DELETE_OPERATIONS_TARGETING@ == "DELETE FROM notification_recovery_operations WHERE "@,
        NotificationRetentionRepository::DELETE_DELIVERIES@ == "DELETE FROM notification_deliveries WHERE "@,
        NotificationRetentionRepository::DELETE_UNLINKED_BULK_OPERATIONS@ == "DELETE FROM notification_recovery_operations o WHERE "@,
        NotificationRetentionRepository::IS_UNLINKED@ == "NOT EXISTS (SELECT 1 FROM notification_recovery_operation_deliveries l WHERE l.operation_id=o.id)"@,
        NotificationRetentionRepository::DELETE_EXPIRED_EMPTY_OPERATIONS@ == "WITH candidates AS (SELECT o.id FROM notification_recovery_operations o JOIN effective_notification_retention e ON e.organization_id=o.organization_id AND e.project_id=o.project_id WHERE e.enabled AND o.target_delivery_id IS NULL AND o.completed_at < now()-make_interval(days=>e.history_days) AND NOT EXISTS (SELECT 1 FROM notification_recovery_operation_deliveries l WHERE l.operation_id=o.id) ORDER BY o.completed_at,o.id LIMIT $1 FOR UPDATE OF o SKIP LOCKED) DELETE FROM notification_recovery_operations o USING candidates c WHERE o.id=c.id"@,
{
}

} // verus!
