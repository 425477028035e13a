//! Texts that are put together from parts, whole.

use chrono::DateTime;
use repository::agent_health::AgentHealthRepository;
use repository::application_credentials::ApplicationCredentialRepository;
use repository::applications::ApplicationRepository;
use repository::event_groups::EventGroupRepository;
use repository::events::EventRepository;
use repository::installations::InstallationRepository;
use repository::invitations::InvitationRepository;
use repository::memberships::MembershipRepository;
use repository::navigation::NavigationRepository;
use repository::notification_deliveries::NotificationDeliveryRepository;
use repository::organizations::OrganizationRepository;
use repository::policies::PolicyRepository;
use repository::projects::ProjectRepository;
use repository::statement::Timestamp;
use uuid::Uuid;

fn id(n: u128) -> Uuid {
    Uuid::from_u128(n)
}

fn at(seconds: i64) -> Timestamp {
    Timestamp { utc: DateTime::from_timestamp(seconds, 0).unwrap().naive_utc() }
}

#[test]
fn a_path_filter_stands_between_its_surroundings() {
    let statement = AgentHealthRepository::touch_heartbeat(id(1), id(2), id(3), id(4), at(5));
    assert_eq!(
        statement.text,
        "UPDATE application_agents SET last_heartbeat_at=$5 WHERE organization_id=$1 AND \
         project_id=$2 AND application_id=$3 AND agent_id=$4"
    );
}

#[test]
fn a_path_filter_can_end_a_text() {
    let statement = PolicyRepository::state_version(id(1), id(2), id(3));
    assert_eq!(
        statement.text,
        "SELECT state_version FROM runtime_policy_states WHERE organization_id=$1 AND \
         project_id=$2 AND application_id=$3"
    );
}

#[test]
fn a_path_filter_can_close_a_subquery() {
    let statement = EventGroupRepository::evidence_counts(id(1), id(2), id(3));
    assert_eq!(
        statement.text,
        "SELECT (SELECT count(*) FROM runtime_event_group_memberships WHERE organization_id=$1 \
         AND project_id=$2 AND application_id=$3)+(SELECT \
         COALESCE(sum(occurrence_count),0)::bigint FROM runtime_history_snapshots WHERE \
         organization_id=$1 AND project_id=$2 AND application_id=$3),(SELECT \
         COALESCE(sum(occurrence_count),0)::bigint FROM runtime_event_groups WHERE \
         organization_id=$1 AND project_id=$2 AND application_id=$3)"
    );
}

#[test]
fn an_application_is_known_by_its_whole_path() {
    let statement = ApplicationRepository::is_known(id(1), id(2), id(3));
    assert_eq!(
        statement.text,
        r#"
            SELECT EXISTS(
                SELECT 1 FROM applications
                WHERE organization_id = $1
                  AND project_id = $2
                  AND id = $3
            )
            "#
    );
}

#[test]
fn a_project_role_is_read_through_its_whole_path() {
    let statement = MembershipRepository::project_role(id(1), id(2), id(3));
    assert_eq!(
        statement.text,
        r#"
            SELECT role FROM project_memberships
            WHERE organization_id = $1
              AND project_id = $2
              AND user_id = $3
            "#
    );
}

#[test]
fn a_project_is_looked_up_within_its_organization() {
    let statement = ProjectRepository::exists_in(id(1), id(2));
    assert_eq!(
        statement.text,
        "SELECT EXISTS(SELECT 1 FROM projects WHERE organization_id = $1 AND id = $2)"
    );
}

#[test]
fn a_path_can_follow_another_value() {
    let statement = ApplicationCredentialRepository::is_active(id(1), id(2), id(3), id(4));
    assert_eq!(
        statement.text,
        "SELECT EXISTS(SELECT 1 FROM application_ingestion_credentials WHERE id=$1 AND \
         organization_id=$2 AND project_id=$3 AND application_id=$4 AND revoked_at IS NULL)"
    );
}

#[test]
fn a_role_counts_only_while_the_organization_is_active() {
    let statement = MembershipRepository::organization_role_when_active(id(1), id(2));
    assert_eq!(
        statement.text,
        r#"
            SELECT m.role FROM organization_memberships m
            JOIN organizations o ON o.id = m.organization_id
            WHERE m.user_id = $1
              AND m.organization_id = $2
              AND o.status = 'active'
            "#
    );
}

#[test]
fn credentials_are_selected_by_their_columns() {
    let statement = ApplicationCredentialRepository::list(id(1), id(2), id(3));
    assert_eq!(
        statement.text,
        "SELECT id,name,token_hint,created_at,last_used_at,revoked_at FROM \
         application_ingestion_credentials WHERE organization_id=$1 AND project_id=$2 AND \
         application_id=$3 ORDER BY created_at,id"
    );
}

#[test]
fn an_insert_returns_the_columns_of_the_list() {
    let statement = ApplicationCredentialRepository::insert(
        id(1),
        id(2),
        id(3),
        id(4),
        "s5",
        &[1, 6],
        "s7",
    );
    assert_eq!(
        statement.text,
        "INSERT INTO \
         application_ingestion_credentials(id,organization_id,project_id,application_id,name,credential_hash,token_hint) \
         VALUES($1,$2,$3,$4,$5,$6,$7) RETURNING \
         id,name,token_hint,created_at,last_used_at,revoked_at"
    );
}

#[test]
fn a_repeated_installation_is_found_with_its_request() {
    let statement = InstallationRepository::by_idempotency_key(id(1), "s2");
    assert_eq!(
        statement.text,
        "SELECT \
         id,application_id,credential_id,cluster_name,workload_namespace,workload_kind,workload_name,workload_labels,chart_version,configuration_schema_version,created_at,updated_at,request_hash \
         FROM application_installations WHERE organization_id=$1 AND idempotency_key=$2"
    );
}

#[test]
fn an_update_returns_the_columns_of_the_read() {
    let statement = InstallationRepository::update(
        id(1),
        id(2),
        id(3),
        id(4),
        "s5",
        "s6",
        "s7",
        Some("s8"),
        None,
    );
    assert_eq!(
        statement.text,
        "UPDATE application_installations SET \
         cluster_name=$5,workload_namespace=$6,workload_kind=$7,workload_name=$8,workload_labels=$9,updated_at=now() \
         WHERE organization_id=$1 AND project_id=$2 AND application_id=$3 AND id=$4 RETURNING \
         id,application_id,credential_id,cluster_name,workload_namespace,workload_kind,workload_name,workload_labels,chart_version,configuration_schema_version,created_at,updated_at"
    );
}

#[test]
fn the_organization_page_leaves_out_project_invitations() {
    let statement = InvitationRepository::organization_page(id(1), Some(id(2)), 3);
    assert_eq!(
        statement.text,
        "SELECT i.id,i.organization_id,o.name organization_name,i.project_id,p.name \
         project_name,i.recipient_email,i.role,u.display_name \
         inviter_display_name,i.locale,i.created_at,i.expires_at,i.accepted_at,i.accepted_by_user_id,i.revoked_at,i.replaced_at \
         FROM invitations i JOIN organizations o ON o.id=i.organization_id LEFT JOIN projects p \
         ON p.id=i.project_id JOIN users u ON u.id=i.inviter_user_id WHERE i.organization_id=$1 \
         AND i.project_id IS NULL AND ($2::uuid IS NULL OR (i.created_at,i.id)<(SELECT \
         created_at,id FROM invitations WHERE id=$2 AND organization_id=$1 AND project_id IS \
         NULL)) ORDER BY i.created_at DESC,i.id DESC LIMIT $3"
    );
}

#[test]
fn a_guarded_grant_leaves_an_existing_role() {
    let statement = MembershipRepository::grant_project_role_if_absent(id(1), id(2), id(3), "s4");
    assert_eq!(
        statement.text,
        r#"
            INSERT INTO project_memberships(organization_id, project_id, user_id, role)
            VALUES ($1, $2, $3, $4)
            ON CONFLICT (project_id, user_id) DO NOTHING
            "#
    );
}

#[test]
fn activation_moves_pending_to_active() {
    let statement = OrganizationRepository::activate_when_owned(id(1), "ACTIVE");
    assert_eq!(
        statement.text,
        "UPDATE organizations SET status = 'active', updated_at = now() WHERE id = $1 AND status \
         = 'pending_owner' AND EXISTS(SELECT 1 FROM organization_memberships m JOIN users u ON \
         u.id = m.user_id WHERE m.organization_id = $1 AND m.role = 'owner' AND ACTIVE)"
    );
}

#[test]
fn only_a_pending_organization_without_members_is_discarded() {
    let statement = OrganizationRepository::discard_unclaimed(id(1));
    assert_eq!(
        statement.text,
        r#"
            DELETE FROM organizations
            WHERE id = $1 AND status = 'pending_owner'
              AND NOT EXISTS(SELECT 1 FROM organization_memberships
                             WHERE organization_id = $1)
            "#
    );
}

#[test]
fn stragglers_are_counted_by_their_status() {
    let statement = OrganizationRepository::pending_owner_count();
    assert_eq!(
        statement.text,
        "SELECT count(*) FROM organizations WHERE status = 'pending_owner'"
    );
}

#[test]
fn the_count_reads_the_failed_deliveries() {
    let statement = NotificationDeliveryRepository::count_failed_for_retry(
        id(1),
        id(2),
        Some(id(3)),
        Some(at(4)),
        Some(at(5)),
        Some("s6"),
    );
    assert_eq!(
        statement.text,
        "SELECT count(*) FROM notification_deliveries d JOIN webhook_destinations w ON \
         w.organization_id=d.organization_id AND w.project_id=d.project_id AND \
         w.id=d.destination_id WHERE d.organization_id=$1 AND d.project_id=$2 AND \
         d.status='failed' AND w.enabled=true AND ($3::uuid IS NULL OR d.destination_id=$3) AND \
         ($4::timestamptz IS NULL OR d.terminal_at<$4) AND ($5::timestamptz IS NULL OR \
         d.terminal_at>=$5) AND ($6::text IS NULL OR d.last_error_class=$6)"
    );
}

#[test]
fn the_retry_selects_and_locks_the_failed_deliveries() {
    let statement = NotificationDeliveryRepository::failed_for_retry(
        id(1),
        id(2),
        Some(id(3)),
        Some(at(4)),
        Some(at(5)),
        Some("s6"),
        7,
    );
    assert_eq!(
        statement.text,
        "SELECT d.id,d.recovery_generation FROM notification_deliveries d JOIN \
         webhook_destinations w ON w.organization_id=d.organization_id AND \
         w.project_id=d.project_id AND w.id=d.destination_id WHERE d.organization_id=$1 AND \
         d.project_id=$2 AND d.status='failed' AND w.enabled=true AND ($3::uuid IS NULL OR \
         d.destination_id=$3) AND ($4::timestamptz IS NULL OR d.terminal_at<$4) AND \
         ($5::timestamptz IS NULL OR d.terminal_at>=$5) AND ($6::text IS NULL OR \
         d.last_error_class=$6) ORDER BY d.terminal_at,d.created_at,d.id FOR UPDATE OF d SKIP \
         LOCKED LIMIT $7"
    );
}

#[test]
fn a_project_is_listed_with_its_counts() {
    let statement = NavigationRepository::project(id(1), id(2));
    assert_eq!(
        statement.text,
        "SELECT p.id,p.slug,p.name,p.created_at,p.archived_at,(SELECT count(*) FROM applications \
         a WHERE a.organization_id=p.organization_id AND a.project_id=p.id) \
         application_count,(SELECT count(*) FROM runtime_event_groups g WHERE \
         g.organization_id=p.organization_id AND g.project_id=p.id) runtime_group_count FROM \
         projects p WHERE p.organization_id=$1 AND p.id=$2"
    );
}

#[test]
fn applications_are_listed_with_their_counts() {
    let statement = ApplicationRepository::platform_page(id(1), Some(id(2)), 3, "RELEASES");
    assert_eq!(
        statement.text,
        "SELECT a.id,a.project_id,a.slug,a.name,a.created_at,RELEASES release_count,(SELECT \
         count(*) FROM runtime_event_groups g WHERE g.organization_id=a.organization_id AND \
         g.project_id=a.project_id AND g.application_id=a.id) runtime_group_count,(SELECT \
         max(g.last_seen_at) FROM runtime_event_groups g WHERE \
         g.organization_id=a.organization_id AND g.project_id=a.project_id AND \
         g.application_id=a.id) latest_observed_at FROM applications a WHERE a.project_id=$1 AND \
         ($2::uuid IS NULL OR a.id>$2) ORDER BY a.id LIMIT $3"
    );
}

#[test]
fn recent_events_are_read_newest_first() {
    let statement = EventRepository::recent_for_application(id(1), id(2), id(3), "s4", at(5), 6);
    assert_eq!(
        statement.text,
        r#"
            SELECT event_id, organization_id, project_id, application_id,
                   event_kind, observed_at, payload
            FROM runtime_events
            WHERE organization_id = $1
              AND project_id = $2
              AND application_id = $3
              AND event_kind = $4
              AND observed_at >= $5
            ORDER BY observed_at DESC
            LIMIT $6
            "#
    );
}
