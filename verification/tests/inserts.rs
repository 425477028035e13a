//! Texts that write a row, whole.

use chrono::DateTime;
use repository::agent_health::AgentHealthRepository;
use repository::application_credentials::ApplicationCredentialRepository;
use repository::applications::ApplicationRepository;
use repository::clusters::ClusterRepository;
use repository::deployments::DeploymentRepository;
use repository::email_actions::EmailActionRepository;
use repository::event_groups::{EventGroupRepository, GroupKey};
use repository::installations::InstallationRepository;
use repository::inventory::InventoryRepository;
use repository::invitations::InvitationRepository;
use repository::memberships::MembershipRepository;
use repository::notification_deliveries::NotificationDeliveryRepository;
use repository::notification_recovery::NotificationRecoveryRepository;
use repository::organizations::{OrganizationRepository, OrganizationStatus};
use repository::policies::PolicyRepository;
use repository::provisioning::ProvisioningKeyRepository;
use repository::statement::Timestamp;
use serde_json::Value;
use uuid::Uuid;

fn id(n: u128) -> Uuid {
    Uuid::from_u128(n)
}

fn at(seconds: i64) -> Timestamp {
    Timestamp { utc: DateTime::from_timestamp(seconds, 0).unwrap().naive_utc() }
}

fn json(n: u64) -> Value {
    Value::from(n)
}

fn group_key() -> GroupKey<'static> {
    GroupKey {
        organization_id: id(9001),
        project_id: id(9002),
        application_id: id(9003),
        cluster_id: id(9005),
        namespace: "ns",
        workload_kind: "wk",
        workload_name: "wn",
        fingerprint_version: 8,
        fingerprint_digest: &[4, 5],
    }
}

#[test]
fn rows_of_agent_health_are_written_whole() {
    let statement = AgentHealthRepository::register_agent(
        id(4),
        id(5),
        id(6),
        id(7),
        id(8),
        json(9),
    );
    assert_eq!(
        statement.text,
        "INSERT INTO application_agents(organization_id,project_id,application_id,\
         cluster_id,agent_id,capabilities) VALUES($1,$2,$3,$4,$5,$6) ON \
         CONFLICT(organization_id,project_id,application_id,agent_id) DO UPDATE SET \
         cluster_id=EXCLUDED.cluster_id,capabilities=EXCLUDED.capabilities,\
         authenticated_at=now(),last_session_ended_at=NULL"
    );
    let statement = AgentHealthRepository::record_signal(
        id(15),
        id(16),
        id(17),
        id(18),
        at(19),
        at(20),
    );
    assert_eq!(
        statement.text,
        "INSERT INTO application_agent_signal_buckets(organization_id,project_id,\
         application_id,agent_id,bucket_at,first_received_at,last_received_at) VALUES($1,\
         $2,$3,$4,$5,$6,$6) ON CONFLICT(organization_id,project_id,application_id,agent_id,\
         bucket_at) DO UPDATE SET \
         received_count=LEAST(application_agent_signal_buckets.received_count+1,120),\
         last_received_at=GREATEST(application_agent_signal_buckets.last_received_at,\
         EXCLUDED.last_received_at)"
    );
    let statement = AgentHealthRepository::store_counter_baseline(
        id(26),
        id(27),
        id(28),
        id(29),
        id(30),
        at(31),
        json(32),
    );
    assert_eq!(
        statement.text,
        "INSERT INTO application_agent_counter_baselines(organization_id,project_id,\
         application_id,cluster_id,agent_id,sent_at,counters) VALUES($1,$2,$3,$4,$5,$6,$7) \
         ON CONFLICT(organization_id,project_id,application_id,cluster_id,agent_id) DO \
         UPDATE SET sent_at=EXCLUDED.sent_at,counters=EXCLUDED.counters"
    );
    let statement = AgentHealthRepository::add_diagnostic_deltas(
        id(33),
        id(34),
        id(35),
        id(36),
        id(37),
        at(38),
        true,
        40,
        41,
        42,
        43,
        44,
        45,
        46,
        47,
        48,
    );
    assert_eq!(
        statement.text,
        "INSERT INTO application_agent_diagnostic_buckets(organization_id,project_id,\
         application_id,cluster_id,agent_id,bucket_at,reset,dropped,rate_limited,\
         decode_failed,attribution_failed,capacity,kernel_lost,correlation,delivery_retry,\
         unsupported) VALUES($1,$2,$3,$4,$5,$6,$7,$8,$9,$10,$11,$12,$13,$14,$15,$16) ON \
         CONFLICT(organization_id,project_id,application_id,cluster_id,agent_id,bucket_at) \
         DO UPDATE SET reset=application_agent_diagnostic_buckets.reset OR EXCLUDED.reset,\
         dropped=application_agent_diagnostic_buckets.dropped+EXCLUDED.dropped,\
         rate_limited=application_agent_diagnostic_buckets.rate_limited+EXCLUDED.rate_limited,\
         decode_failed=application_agent_diagnostic_buckets.decode_failed+EXCLUDED.decode_failed,\
         attribution_failed=application_agent_diagnostic_buckets.attribution_failed+EXCLUDED.attribution_failed,\
         capacity=application_agent_diagnostic_buckets.capacity+EXCLUDED.capacity,\
         kernel_lost=application_agent_diagnostic_buckets.kernel_lost+EXCLUDED.kernel_lost,\
         correlation=application_agent_diagnostic_buckets.correlation+EXCLUDED.correlation,\
         delivery_retry=application_agent_diagnostic_buckets.delivery_retry+EXCLUDED.delivery_retry,\
         unsupported=application_agent_diagnostic_buckets.unsupported+EXCLUDED.unsupported"
    );
}

#[test]
fn rows_of_application_credentials_are_written_whole() {
    let statement = ApplicationCredentialRepository::insert(
        id(80),
        id(81),
        id(82),
        id(83),
        "s84",
        &[1u8, 85],
        "s86",
    );
    assert_eq!(
        statement.text,
        "INSERT INTO application_ingestion_credentials(id,organization_id,project_id,\
         application_id,name,credential_hash,token_hint) VALUES($1,$2,$3,$4,$5,$6,$7) \
         RETURNING id,name,token_hint,created_at,last_used_at,revoked_at"
    );
}

#[test]
fn rows_of_applications_are_written_whole() {
    let statement = ApplicationRepository::upsert_by_slug(
        id(100),
        id(101),
        id(102),
        "s103",
        "s104",
    );
    assert_eq!(
        statement.text,
        "INSERT INTO applications (id, organization_id, project_id, slug, name) VALUES \
         ($1, $2, $3, $4, $5) ON CONFLICT (project_id, slug) DO UPDATE SET name = \
         EXCLUDED.name RETURNING id"
    );
}

#[test]
fn rows_of_clusters_are_written_whole() {
    let statement = ClusterRepository::upsert(id(166), id(167), "s168", "s169");
    assert_eq!(
        statement.text,
        "INSERT INTO clusters (id, organization_id, external_id, name) VALUES ($1, $2, $3, \
         $4) ON CONFLICT (organization_id, external_id) DO UPDATE SET name = EXCLUDED.name \
         RETURNING id"
    );
    let statement = ClusterRepository::upsert_credential(id(170), id(171), id(172), vec![2u8, 173]);
    assert_eq!(
        statement.text,
        "INSERT INTO cluster_credentials (id, organization_id, cluster_id, \
         credential_hash) VALUES ($1, $2, $3, $4) ON CONFLICT (credential_hash) DO UPDATE \
         SET revoked_at = NULL"
    );
    let statement = ClusterRepository::upsert_by_external_id(
        id(174),
        id(175),
        "s176".to_owned(),
        Some("s177"),
    );
    assert_eq!(
        statement.text,
        "INSERT INTO clusters(id,organization_id,external_id,name) VALUES($1,$2,$3,\
         COALESCE($4,$3)) ON CONFLICT(organization_id,external_id) DO UPDATE SET \
         name=COALESCE($4,clusters.name) RETURNING id"
    );
    let statement = ClusterRepository::register_agent(
        id(178),
        id(179),
        id(180),
        "s181",
        "s182",
        Some("s183"),
        Some("s184"),
        json(185),
    );
    assert_eq!(
        statement.text,
        "INSERT INTO agents (id, organization_id, cluster_id, node_name, agent_version, \
         architecture, kernel_release, capabilities) VALUES ($1,$2,$3,$4,$5,$6,$7,$8) ON \
         CONFLICT (cluster_id, node_name) DO UPDATE SET \
         agent_version=EXCLUDED.agent_version, architecture=EXCLUDED.architecture, \
         kernel_release=EXCLUDED.kernel_release, capabilities=EXCLUDED.capabilities, \
         last_seen_at=now() RETURNING id"
    );
    let statement = ClusterRepository::open_session(id(186), id(187), id(188), id(189), 190);
    assert_eq!(
        statement.text,
        "INSERT INTO agent_sessions (id, organization_id, cluster_id, agent_id, \
         protocol_version) VALUES ($1,$2,$3,$4,$5)"
    );
}

#[test]
fn rows_of_deployments_are_written_whole() {
    let statement = DeploymentRepository::insert_revision(
        id(192),
        id(193),
        id(194),
        id(195),
        id(196),
        id(197),
        198,
        &[1u8, 199],
        "s200",
        "s201",
        "s202",
        "s203",
        "s204",
        "s205",
        Some("s206"),
        at(207),
    );
    assert_eq!(
        statement.text,
        "INSERT INTO kubernetes_workload_revisions(id,organization_id,project_id,\
         application_id,cluster_id,release_id,identity_version,identity_digest,namespace,\
         workload_uid,workload_kind,workload_name,replica_set_uid,replica_set_name,\
         pod_template_hash,first_observed_at,last_observed_at) VALUES($1,$2,$3,$4,$5,$6,$7,\
         $8,$9,$10,$11,$12,$13,$14,$15,$16,$16) ON CONFLICT(application_id,cluster_id,\
         workload_uid,replica_set_uid) DO UPDATE SET \
         last_observed_at=GREATEST(kubernetes_workload_revisions.last_observed_at,\
         EXCLUDED.last_observed_at) WHERE \
         kubernetes_workload_revisions.release_id=EXCLUDED.release_id AND \
         kubernetes_workload_revisions.identity_digest=EXCLUDED.identity_digest RETURNING \
         id"
    );
    let statement = DeploymentRepository::insert_episode(
        id(216),
        id(217),
        id(218),
        id(219),
        id(220),
        id(221),
        id(222),
        223,
        "s224",
        at(225),
    );
    assert_eq!(
        statement.text,
        "INSERT INTO deployment_episodes(id,organization_id,project_id,application_id,\
         cluster_id,release_id,revision_id,occurrence_number,state,transition_kind,\
         first_observed_at,first_ready_at,last_observed_at) VALUES($1,$2,$3,$4,$5,$6,$7,$8,\
         'active',$9,$10,$10,$10)"
    );
    let statement = DeploymentRepository::link_predecessor(
        id(226),
        id(227),
        id(228),
        id(229),
        id(230),
        at(231),
    );
    assert_eq!(
        statement.text,
        "INSERT INTO deployment_episode_predecessors(organization_id,project_id,\
         application_id,episode_id,predecessor_episode_id,observed_at,concurrent) \
         VALUES($1,$2,$3,$4,$5,$6,true) ON CONFLICT DO NOTHING"
    );
    let statement = DeploymentRepository::insert_snapshot(
        id(237),
        id(238),
        id(239),
        id(240),
        id(241),
        "s242",
        at(243),
        true,
        true,
        246,
        247,
        248,
    );
    assert_eq!(
        statement.text,
        "INSERT INTO kubernetes_revision_snapshots(organization_id,project_id,\
         application_id,cluster_id,revision_id,snapshot_id,observed_at,initialized,\
         continuous,pod_count,ready_pod_count,workload_ready_pod_count) VALUES($1,$2,$3,$4,\
         $5,$6,$7,$8,$9,$10,$11,$12) ON CONFLICT DO NOTHING"
    );
}

#[test]
fn rows_of_email_actions_are_written_whole() {
    let statement = EmailActionRepository::insert(id(271), id(272), "s273", vec![2u8, 24], at(275));
    assert_eq!(
        statement.text,
        "INSERT INTO user_email_actions(id,user_id,purpose,token_digest,expires_at) \
         VALUES($1,$2,$3,$4,$5)"
    );
}

#[test]
fn rows_of_event_groups_are_written_whole() {
    let statement = EventGroupRepository::add_release_membership(
        id(282),
        id(283),
        id(284),
        id(285),
        id(286),
        287,
        Some(id(288)),
    );
    assert_eq!(
        statement.text,
        "INSERT INTO runtime_event_group_memberships (organization_id, project_id, \
         application_id, event_id, group_id, fingerprint_version, release_id) VALUES ($1,\
         $2,$3,$4,$5,$6,$7) ON CONFLICT (event_id, fingerprint_version) DO NOTHING \
         RETURNING event_id"
    );
    let statement = EventGroupRepository::record_release_occurrence(
        id(289),
        id(290),
        id(291),
        id(292),
        id(293),
        at(294),
        id(295),
    );
    assert_eq!(
        statement.text,
        "INSERT INTO runtime_event_group_releases (organization_id,project_id,\
         application_id,release_id,group_id,occurrence_count,first_seen_at,last_seen_at,\
         representative_event_id) VALUES ($1,$2,$3,$4,$5,1,$6,$6,$7) ON CONFLICT \
         (release_id,group_id) DO UPDATE SET \
         representative_event_id=CASE WHEN \
         runtime_event_group_releases.representative_event_id IS NULL OR \
         EXCLUDED.last_seen_at>=runtime_event_group_releases.last_seen_at THEN \
         EXCLUDED.representative_event_id ELSE \
         runtime_event_group_releases.representative_event_id END,\
         occurrence_count=runtime_event_group_releases.occurrence_count+1,\
         first_seen_at=LEAST(runtime_event_group_releases.first_seen_at,\
         EXCLUDED.first_seen_at),\
         last_seen_at=GREATEST(runtime_event_group_releases.last_seen_at,\
         EXCLUDED.last_seen_at),updated_at=now()"
    );
    let statement = EventGroupRepository::add_membership(
        id(299),
        id(300),
        id(301),
        id(302),
        id(303),
        304,
    );
    assert_eq!(
        statement.text,
        "INSERT INTO runtime_event_group_memberships (organization_id,project_id,\
         application_id,event_id,group_id,fingerprint_version) VALUES ($1,$2,$3,$4,$5,$6) \
         ON CONFLICT DO NOTHING"
    );
    let statement = EventGroupRepository::insert_if_absent(
        id(359),
        group_key(),
        "s360",
        &json(361),
        at(362),
        id(363),
    );
    assert_eq!(
        statement.text,
        r#"
            INSERT INTO runtime_event_groups (
                id, organization_id, project_id, cluster_id, application_id,
                namespace, workload_kind, workload_name,
                fingerprint_version, fingerprint_digest,
                event_kind, semantic_summary,
                first_seen_at, last_seen_at, occurrence_count,
                representative_event_id, first_seen_event_id)
            VALUES ($1,$2,$3,$4,$5,$6,$7,$8,$9,$10,$11,$12,$13,$13,1,$14,$14)
            ON CONFLICT (organization_id, project_id, application_id, cluster_id,
                         namespace, workload_kind, workload_name,
                         fingerprint_version, fingerprint_digest)
            DO NOTHING
            RETURNING id
            "#
    );
    let statement = EventGroupRepository::upsert_derived(
        id(367),
        group_key(),
        "s368",
        &json(369),
        at(370),
        id(371),
    );
    assert_eq!(
        statement.text,
        r#"
            INSERT INTO runtime_event_groups (
                id, organization_id, project_id, cluster_id, application_id,
                namespace, workload_kind, workload_name,
                fingerprint_version, fingerprint_digest,
                event_kind, semantic_summary,
                first_seen_at, last_seen_at, occurrence_count,
                representative_event_id, first_seen_event_id)
            VALUES ($1,$2,$3,$4,$5,$6,$7,$8,$9,$10,$11,$12,$13,$13,1,$14,$14)
            ON CONFLICT (organization_id, project_id, application_id, cluster_id,
                         namespace, workload_kind, workload_name,
                         fingerprint_version, fingerprint_digest)
            DO UPDATE SET
                semantic_summary = EXCLUDED.semantic_summary,
                last_seen_at = GREATEST(runtime_event_groups.last_seen_at,
                                        EXCLUDED.last_seen_at),
                representative_event_id = EXCLUDED.representative_event_id,
                updated_at = now()
            RETURNING id
            "#
    );
}

#[test]
fn rows_of_installations_are_written_whole() {
    let statement = InstallationRepository::insert(
        id(403),
        id(404),
        id(405),
        id(406),
        id(407),
        "s408",
        &[1u8, 159],
        "s410",
        "s411",
        "s412",
        Some("s413"),
        Some(json(414)),
        "s415",
        416,
    );
    assert_eq!(
        statement.text,
        "INSERT INTO application_installations(id,organization_id,project_id,\
         application_id,credential_id,idempotency_key,request_hash,cluster_name,\
         workload_namespace,workload_kind,workload_name,workload_labels,chart_version,\
         configuration_schema_version) VALUES($1,$2,$3,$4,$5,$6,$7,$8,$9,$10,$11,$12,$13,\
         $14) RETURNING id,application_id,credential_id,cluster_name,workload_namespace,\
         workload_kind,workload_name,workload_labels,chart_version,\
         configuration_schema_version,created_at,updated_at"
    );
}

#[test]
fn rows_of_inventory_are_written_whole() {
    let statement = InventoryRepository::insert_item(
        id(453),
        id(454),
        id(455),
        id(456),
        "s457",
        458,
        &[1u8, 209],
        &json(460),
        at(461),
    );
    assert_eq!(
        statement.text,
        "INSERT INTO runtime_inventory_items(id,organization_id,project_id,application_id,\
         inventory_kind,identity_version,identity_digest,semantic_summary,first_seen_at,\
         last_seen_at,occurrence_count) VALUES($1,$2,$3,$4,$5,$6,$7,$8,$9,$9,1) ON \
         CONFLICT (organization_id,project_id,application_id,inventory_kind,\
         identity_version,identity_digest) DO NOTHING RETURNING id"
    );
    let statement = InventoryRepository::add_event_membership(
        id(468),
        id(469),
        id(470),
        id(471),
        id(472),
        473,
    );
    assert_eq!(
        statement.text,
        "INSERT INTO runtime_inventory_event_memberships(organization_id,project_id,\
         application_id,event_id,item_id,identity_version) VALUES($1,$2,$3,$4,$5,$6) ON \
         CONFLICT (event_id,identity_version) DO NOTHING RETURNING event_id"
    );
    let statement = InventoryRepository::link_group(id(480), id(481), id(482), id(483), id(484));
    assert_eq!(
        statement.text,
        "INSERT INTO runtime_inventory_group_links(organization_id,project_id,\
         application_id,item_id,group_id) VALUES($1,$2,$3,$4,$5) ON CONFLICT (item_id,\
         group_id) DO NOTHING"
    );
    let statement = InventoryRepository::record_release_occurrence(
        id(485),
        id(486),
        id(487),
        id(488),
        id(489),
        at(490),
    );
    assert_eq!(
        statement.text,
        "INSERT INTO runtime_inventory_releases(organization_id,project_id,application_id,\
         item_id,release_id,occurrence_count,first_seen_at,last_seen_at) VALUES($1,$2,$3,\
         $4,$5,1,$6,$6) ON CONFLICT (item_id,release_id) DO UPDATE SET \
         occurrence_count=runtime_inventory_releases.occurrence_count+1,\
         first_seen_at=LEAST(runtime_inventory_releases.first_seen_at,\
         EXCLUDED.first_seen_at),\
         last_seen_at=GREATEST(runtime_inventory_releases.last_seen_at,\
         EXCLUDED.last_seen_at),updated_at=now()"
    );
    let statement = InventoryRepository::record_sighting(
        id(491),
        id(492),
        id(493),
        id(494),
        id(495),
        "s496",
        "s497",
        "s498",
        "s499",
        "s500",
        "s501",
        at(502),
    );
    assert_eq!(
        statement.text,
        "INSERT INTO runtime_inventory_sightings(organization_id,project_id,application_id,\
         item_id,cluster_id,namespace,workload_kind,workload_name,pod_uid,pod_name,\
         container_name,occurrence_count,first_seen_at,last_seen_at) VALUES($1,$2,$3,$4,$5,\
         $6,$7,$8,$9,$10,$11,1,$12,$12) ON CONFLICT (item_id,cluster_id,namespace,\
         workload_kind,workload_name,pod_uid,container_name) DO UPDATE SET \
         occurrence_count=runtime_inventory_sightings.occurrence_count+1,\
         first_seen_at=LEAST(runtime_inventory_sightings.first_seen_at,\
         EXCLUDED.first_seen_at),\
         last_seen_at=GREATEST(runtime_inventory_sightings.last_seen_at,\
         EXCLUDED.last_seen_at),pod_name=EXCLUDED.pod_name,updated_at=now()"
    );
}

#[test]
fn rows_of_invitations_are_written_whole() {
    let statement = InvitationRepository::insert(
        id(630),
        id(631),
        Some(id(632)),
        "s633",
        "s634",
        id(635),
        "s636",
        vec![2u8, 137],
        at(638),
    );
    assert_eq!(
        statement.text,
        "INSERT INTO invitations(id,organization_id,project_id,recipient_email,role,\
         inviter_user_id,locale,token_digest,expires_at,retain_until) VALUES($1,$2,$3,$4,\
         $5,$6,$7,$8,$9,$9+interval '365 days')"
    );
}

#[test]
fn rows_of_memberships_are_written_whole() {
    let statement = MembershipRepository::insert_organization_role(id(664), id(665), "s666");
    assert_eq!(
        statement.text,
        r#"
            INSERT INTO organization_memberships(organization_id, user_id, role)
            VALUES ($1, $2, $3)
            "#
    );
    let statement = MembershipRepository::grant_organization_role_if_absent(
        id(667),
        id(668),
        "s669",
    );
    assert_eq!(
        statement.text,
        r#"
            INSERT INTO organization_memberships(organization_id, user_id, role)
            VALUES ($1, $2, $3)
            ON CONFLICT (organization_id, user_id) DO NOTHING
            "#
    );
    let statement = MembershipRepository::insert_project_role(id(670), id(671), id(672), "s673");
    assert_eq!(
        statement.text,
        r#"
            INSERT INTO project_memberships(organization_id, project_id, user_id, role)
            VALUES ($1, $2, $3, $4)
            "#
    );
    let statement = MembershipRepository::grant_project_role_if_absent(
        id(674),
        id(675),
        id(676),
        "s677",
    );
    assert_eq!(
        statement.text,
        r#"
            INSERT INTO project_memberships(organization_id, project_id, user_id, role)
            VALUES ($1, $2, $3, $4)
            ON CONFLICT (project_id, user_id) DO NOTHING
            "#
    );
}

#[test]
fn rows_of_notification_deliveries_are_written_whole() {
    let statement = NotificationDeliveryRepository::insert_for_outbox(
        id(740),
        id(741),
        id(742),
        id(743),
        id(744),
        "s745",
        json(746),
        "s747",
        748,
        Some(at(749)),
        Some("s750"),
        Some("s751"),
    );
    assert_eq!(
        statement.text,
        "INSERT INTO notification_deliveries (id,organization_id,project_id,destination_id,\
         outbox_message_id,origin,source,event_name,payload,status,max_attempts,\
         terminal_at,last_error_class,last_error) VALUES ($1,$2,$3,$4,$5,'outbox',$6,\
         'runtime_group.first_seen',$7,$8,$9,$10,$11,$12) ON CONFLICT (outbox_message_id,\
         destination_id) WHERE outbox_message_id IS NOT NULL DO NOTHING"
    );
    let statement = NotificationDeliveryRepository::insert_test(
        id(755),
        id(756),
        id(757),
        id(758),
        &json(759),
        id(760),
        761,
    );
    assert_eq!(
        statement.text,
        "INSERT INTO notification_deliveries (id,organization_id,project_id,destination_id,\
         origin,source,event_name,payload,status,lease_owner,lease_expires_at,\
         max_attempts) VALUES ($1,$2,$3,$4,'test','test','okoscope.test',$5,'in_flight',$6,\
         now()+make_interval(secs=>$7),1)"
    );
    let statement = NotificationDeliveryRepository::insert_attempt(
        id(781),
        id(782),
        id(783),
        id(784),
        785,
        786,
        at(787),
        788,
        "s789",
        Some(790),
        Some("s791"),
        Some("s792".to_owned()),
    );
    assert_eq!(
        statement.text,
        "INSERT INTO notification_delivery_attempts (id,organization_id,project_id,\
         delivery_id,recovery_generation,attempt_number,started_at,finished_at,duration_ms,\
         outcome,http_status,error_class,response_excerpt) VALUES ($1,$2,$3,$4,$5,$6,$7,\
         now(),$8,$9,$10,$11,$12)"
    );
}

#[test]
fn rows_of_notification_recovery_are_written_whole() {
    let statement = NotificationRecoveryRepository::insert(
        id(824),
        id(825),
        id(826),
        "s827",
        Some(id(828)),
        id(829),
        "s830",
        &[1u8, 81],
        &[1u8, 82],
        json(833),
        834,
        835,
        836,
        837,
        838,
        json(839),
        at(840),
    );
    assert_eq!(
        statement.text,
        "INSERT INTO notification_recovery_operations (id,organization_id,project_id,\
         command_type,target_delivery_id,actor_kind,actor_id,request_id,\
         idempotency_key_hash,request_fingerprint,safe_filters,outcome,selected_count,\
         retried_count,cancelled_count,skipped_count,remaining_count,result,completed_at) \
         VALUES ($1,$2,$3,$4,$5,'user',$6,$7,$8,$9,$10,'completed',$11,$12,$13,$14,$15,$16,\
         $17)"
    );
    let statement = NotificationRecoveryRepository::link_delivery(
        id(841),
        id(842),
        id(843),
        id(844),
        845,
        "s846",
    );
    assert_eq!(
        statement.text,
        "INSERT INTO notification_recovery_operation_deliveries (operation_id,\
         organization_id,project_id,delivery_id,recovery_generation,action) VALUES ($1,$2,\
         $3,$4,$5,$6)"
    );
}

#[test]
fn rows_of_organizations_are_written_whole() {
    let statement = OrganizationRepository::upsert_by_slug(id(867), "s868", "s869");
    assert_eq!(
        statement.text,
        "INSERT INTO organizations (id, slug, name) VALUES ($1, $2, $3) ON CONFLICT (slug) \
         DO UPDATE SET name = EXCLUDED.name RETURNING id"
    );
    let statement = OrganizationRepository::insert(
        id(875),
        "s876",
        "s877",
        OrganizationStatus::PendingOwner,
    );
    assert_eq!(
        statement.text,
        r#"
            INSERT INTO organizations(id, slug, name, status)
            VALUES ($1, $2, $3, $4)
            RETURNING id, slug, name, status, created_at, updated_at
            "#
    );
}

#[test]
fn rows_of_policies_are_written_whole() {
    let statement = PolicyRepository::store_group_evaluation(
        id(902),
        id(903),
        id(904),
        id(905),
        906,
        907,
        "s908",
        "s909",
        Some(id(910)),
        &json(911),
    );
    assert_eq!(
        statement.text,
        "INSERT INTO runtime_group_policy_evaluations(organization_id,project_id,\
         application_id,group_id,policy_state_version,evaluator_version,verdict,\
         reason_code,winning_revision_id,explanation) VALUES($1,$2,$3,$4,$5,$6,$7,$8,$9,\
         $10) ON CONFLICT(group_id) DO UPDATE SET \
         policy_state_version=EXCLUDED.policy_state_version,\
         evaluator_version=EXCLUDED.evaluator_version,verdict=EXCLUDED.verdict,\
         reason_code=EXCLUDED.reason_code,winning_revision_id=EXCLUDED.winning_revision_id,\
         explanation=EXCLUDED.explanation,evaluated_at=now()"
    );
    let statement = PolicyRepository::store_sighting_evaluation(
        id(912),
        id(913),
        id(914),
        id(915),
        id(916),
        "s917",
        "s918",
        "s919",
        "s920",
        "s921",
        922,
        923,
        "s924",
        "s925",
        Some(id(926)),
        &json(927),
    );
    assert_eq!(
        statement.text,
        "INSERT INTO runtime_sighting_policy_evaluations(organization_id,project_id,\
         application_id,item_id,cluster_id,namespace,workload_kind,workload_name,pod_uid,\
         container_name,policy_state_version,evaluator_version,verdict,reason_code,\
         winning_revision_id,explanation) VALUES($1,$2,$3,$4,$5,$6,$7,$8,$9,$10,$11,$12,\
         $13,$14,$15,$16) ON CONFLICT(item_id,cluster_id,namespace,workload_kind,\
         workload_name,pod_uid,container_name) DO UPDATE SET \
         policy_state_version=EXCLUDED.policy_state_version,\
         evaluator_version=EXCLUDED.evaluator_version,verdict=EXCLUDED.verdict,\
         reason_code=EXCLUDED.reason_code,winning_revision_id=EXCLUDED.winning_revision_id,\
         explanation=EXCLUDED.explanation,evaluated_at=now()"
    );
    let statement = PolicyRepository::record_command(
        id(978),
        id(979),
        id(980),
        id(981),
        id(982),
        "s983",
        &[1u8, 234],
        id(985),
        id(986),
        json(987),
    );
    assert_eq!(
        statement.text,
        "INSERT INTO runtime_policy_commands(id,organization_id,project_id,application_id,\
         idempotency_key,command_kind,request_digest,actor_user_id,result_resource_id,\
         result) VALUES($1,$2,$3,$4,$5,$6,$7,$8,$9,$10)"
    );
    let statement = PolicyRepository::bump_state_version(id(988), id(989), id(990));
    assert_eq!(
        statement.text,
        "INSERT INTO runtime_policy_states(organization_id,project_id,application_id,\
         state_version) VALUES($1,$2,$3,1) ON CONFLICT(organization_id,project_id,\
         application_id) DO UPDATE SET state_version=runtime_policy_states.state_version+1,\
         updated_at=now() RETURNING state_version"
    );
    let statement = PolicyRepository::current_state_version(id(991), id(992), id(993));
    assert_eq!(
        statement.text,
        "INSERT INTO runtime_policy_states(organization_id,project_id,application_id) \
         VALUES($1,$2,$3) ON CONFLICT(organization_id,project_id,application_id) DO UPDATE \
         SET updated_at=runtime_policy_states.updated_at RETURNING state_version"
    );
    let statement = PolicyRepository::insert(id(994), id(995), id(996), id(997), "s998", id(999));
    assert_eq!(
        statement.text,
        "INSERT INTO runtime_policies(id,organization_id,project_id,application_id,name,\
         created_by_user_id) VALUES($1,$2,$3,$4,$5,$6)"
    );
    let statement = PolicyRepository::insert_revision(
        id(1000),
        id(1001),
        id(1002),
        id(1003),
        id(1004),
        1005,
        Some(id(1006)),
        true,
        "s1008",
        1009,
        &[1u8, 10],
        json(1011),
        vec![id(1012)],
        vec!["b1013".to_owned(), "x".to_owned()],
        vec!["b1014".to_owned(), "x".to_owned()],
        vec!["b1015".to_owned(), "x".to_owned()],
        "s1016",
        Some("s1017"),
        id(1018),
        Some(id(1019)),
        id(1020),
    );
    assert_eq!(
        statement.text,
        "INSERT INTO runtime_policy_revisions(id,policy_id,organization_id,project_id,\
         application_id,revision_number,prior_revision_id,enabled,inventory_kind,\
         identity_version,identity_digest,behavior_matcher,cluster_ids,namespaces,\
         workload_kinds,workload_names,inside_effect,outside_effect,\
         source_inventory_item_id,source_runtime_group_id,created_by_user_id) VALUES($1,$2,\
         $3,$4,$5,$6,$7,$8,$9,$10,$11,$12,$13,$14,$15,$16,$17,$18,$19,$20,$21)"
    );
    let statement = PolicyRepository::request_recomputation(
        id(1026),
        id(1027),
        id(1028),
        id(1029),
        1030,
        &[1u8, 31],
        id(1032),
    );
    assert_eq!(
        statement.text,
        "INSERT INTO runtime_policy_recomputations(id,organization_id,project_id,\
         application_id,identity_version,identity_digest,requested_policy_revision_id) \
         VALUES($1,$2,$3,$4,$5,$6,$7)"
    );
    let statement = PolicyRepository::insert_suppression(
        id(1060),
        id(1061),
        id(1062),
        id(1063),
        "s1064",
        1065,
        &[1u8, 66],
        json(1067),
        vec![id(1068)],
        vec!["b1069".to_owned(), "x".to_owned()],
        vec!["b1070".to_owned(), "x".to_owned()],
        vec!["b1071".to_owned(), "x".to_owned()],
        "s1072",
        at(1073),
        id(1074),
        Some(id(1075)),
        id(1076),
        at(1077),
    );
    assert_eq!(
        statement.text,
        "INSERT INTO runtime_policy_suppressions(id,organization_id,project_id,\
         application_id,inventory_kind,identity_version,identity_digest,behavior_matcher,\
         cluster_ids,namespaces,workload_kinds,workload_names,reason,expires_at,\
         source_inventory_item_id,source_runtime_group_id,created_by_user_id,created_at) \
         VALUES($1,$2,$3,$4,$5,$6,$7,$8,$9,$10,$11,$12,$13,$14,$15,$16,$17,$18)"
    );
}

#[test]
fn rows_of_provisioning_are_written_whole() {
    let statement = ProvisioningKeyRepository::reserve(id(1091), "s1092", &[1u8, 93], &[1u8, 94]);
    assert_eq!(
        statement.text,
        "INSERT INTO provisioning_idempotency_keys(id,operation,key_hash,\
         request_fingerprint) VALUES($1,$2,$3,$4) ON CONFLICT(operation,key_hash) DO \
         NOTHING RETURNING id"
    );
}
