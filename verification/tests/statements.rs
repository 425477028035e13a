//! What every statement binds and asks back, and that its text names exactly
//! the values it binds.

use chrono::DateTime;
use repository::access_audit::AccessAuditRepository;
use repository::agent_health::AgentHealthRepository;
use repository::application_credentials::ApplicationCredentialRepository;
use repository::applications::ApplicationRepository;
use repository::attention::AttentionRepository;
use repository::clusters::ClusterRepository;
use repository::deployments::DeploymentRepository;
use repository::dns_groups::{DnsGroupFilter, DnsGroupRepository, Versions};
use repository::email_actions::EmailActionRepository;
use repository::event_groups::{EventGroupRepository, GroupKey};
use repository::events::EventRepository;
use repository::installations::InstallationRepository;
use repository::inventory::{FacetColumn, InventoryFilter, InventoryRepository};
use repository::invitations::InvitationRepository;
use repository::memberships::MembershipRepository;
use repository::navigation::NavigationRepository;
use repository::notification_deliveries::NotificationDeliveryRepository;
use repository::notification_recovery::NotificationRecoveryRepository;
use repository::notification_retention::NotificationRetentionRepository;
use repository::organizations::{OrganizationRepository, OrganizationStatus};
use repository::outbox::OutboxRepository;
use repository::policies::PolicyRepository;
use repository::projects::ProjectRepository;
use repository::provisioning::ProvisioningKeyRepository;
use repository::statement::{Fetch, Parameter, Statement, Timestamp};
use serde_json::Value;
use uuid::Uuid;

fn id(n: u128) -> Uuid {
    Uuid::from_u128(n)
}

fn at(seconds: i64) -> Timestamp {
    Timestamp { utc: DateTime::from_timestamp(seconds, 0).unwrap().naive_utc() }
}

fn json(n: u64) -> Value {
    Value::from(n)
}

fn uuid(n: u128) -> Parameter {
    Parameter::Uuid(Some(id(n)))
}

fn text(value: &str) -> Parameter {
    Parameter::Text(Some(value.to_owned()))
}

fn bigint(value: i64) -> Parameter {
    Parameter::BigInt(Some(value))
}

fn integer(value: i32) -> Parameter {
    Parameter::Integer(Some(value))
}

fn smallint(value: i16) -> Parameter {
    Parameter::SmallInt(Some(value))
}

fn boolean(value: bool) -> Parameter {
    Parameter::Boolean(Some(value))
}

fn bytes(value: &[u8]) -> Parameter {
    Parameter::Bytes(Some(value.to_vec()))
}

fn timestamp(seconds: i64) -> Parameter {
    Parameter::Timestamp(Some(at(seconds)))
}

fn document(n: u64) -> Parameter {
    Parameter::Json(Some(json(n)))
}

fn versions() -> Versions {
    Versions { identity: 41, evaluator: 42 }
}

fn group_key() -> GroupKey<'static> {
    GroupKey {
        organization_id: id(9001),
        project_id: id(9002),
        application_id: id(9003),
        cluster_id: id(9005),
        namespace: "ns",
        workload_kind: "wk",
        workload_name: "wn",
        fingerprint_version: 8,
        fingerprint_digest: &[4, 5],
    }
}

fn dns_filter() -> DnsGroupFilter<'static> {
    DnsGroupFilter {
        organization_id: id(9001),
        project_id: id(9002),
        application_id: id(9003),
        release_id: Some(id(9004)),
        cluster_id: Some(id(9005)),
        namespace: Some("ns"),
        workload_kind: Some("wk"),
        workload_name: Some("wn"),
        container_name: Some("cn"),
        observed_from: Some(at(9006)),
        observed_to: Some(at(9007)),
        verdict: Some("ve"),
        suppressed: Some(true),
        evaluation_pending: Some(false),
    }
}

fn inventory_filter() -> InventoryFilter<'static> {
    InventoryFilter {
        organization_id: id(9001),
        project_id: id(9002),
        application_id: id(9003),
        release_id: Some(id(9004)),
        cluster_id: Some(id(9005)),
        namespace: Some("ns"),
        workload_kind: Some("wk"),
        workload_name: Some("wn"),
        container_name: Some("cn"),
        observed_from: Some(at(9006)),
        observed_to: Some(at(9007)),
        operation: Some("op"),
        search: Some("se"),
    }
}

/// The numbers of the placeholders in a text, each once, in order.
fn placeholders(text: &str) -> Vec<usize> {
    let mut numbers: Vec<usize> = text
        .split('$')
        .skip(1)
        .map(|rest| {
            let digits: String = rest.chars().take_while(char::is_ascii_digit).collect();
            digits.parse().unwrap()
        })
        .collect();
    numbers.sort();
    numbers.dedup();
    numbers
}

fn check(statement: Statement, fetch: Fetch, parameters: Vec<Parameter>) {
    let bound: Vec<usize> = (1..=parameters.len()).collect();
    assert_eq!(placeholders(&statement.text), bound, "{}", statement.text);
    assert_eq!(statement.parameters, parameters, "{}", statement.text);
    assert_eq!(statement.fetch, fetch, "{}", statement.text);
    assert!(statement.arguments().is_ok(), "{}", statement.text);
}

#[test]
fn access_audit_statements() {
    check(
        AccessAuditRepository::page(Some(id(1)), Some(id(2)), 3),
        Fetch::All,
        vec![uuid(1), uuid(2), bigint(3)],
    );
}

#[test]
fn agent_health_statements() {
    check(
        AgentHealthRepository::register_agent(id(1), id(2), id(3), id(4), id(5), json(6)),
        Fetch::Affected,
        vec![uuid(1), uuid(2), uuid(3), uuid(4), uuid(5), document(6)],
    );
    check(
        AgentHealthRepository::touch_heartbeat(id(1), id(2), id(3), id(4), at(5)),
        Fetch::Affected,
        vec![uuid(1), uuid(2), uuid(3), uuid(4), timestamp(5)],
    );
    check(
        AgentHealthRepository::record_signal(id(1), id(2), id(3), id(4), at(5), at(6)),
        Fetch::Affected,
        vec![uuid(1), uuid(2), uuid(3), uuid(4), timestamp(5), timestamp(6)],
    );
    check(
        AgentHealthRepository::counter_baseline(id(1), id(2), id(3), id(4), id(5)),
        Fetch::Optional,
        vec![uuid(1), uuid(2), uuid(3), uuid(4), uuid(5)],
    );
    check(
        AgentHealthRepository::store_counter_baseline(
            id(1), id(2), id(3), id(4), id(5), at(6), json(7),
        ),
        Fetch::Affected,
        vec![uuid(1), uuid(2), uuid(3), uuid(4), uuid(5), timestamp(6), document(7)],
    );
    check(
        AgentHealthRepository::add_diagnostic_deltas(
            id(1), id(2), id(3), id(4), id(5), at(6), true, 8, 9, 10, 11, 12, 13, 14, 15, 16,
        ),
        Fetch::Affected,
        vec![
            uuid(1), uuid(2), uuid(3), uuid(4), uuid(5), timestamp(6), boolean(true), bigint(8),
            bigint(9), bigint(10), bigint(11), bigint(12), bigint(13), bigint(14), bigint(15),
            bigint(16),
        ],
    );
    check(
        AgentHealthRepository::end_session(id(1), at(2)),
        Fetch::Affected,
        vec![uuid(1), timestamp(2)],
    );
    check(
        AgentHealthRepository::record_session_end(id(1), id(2), id(3), id(4), at(5)),
        Fetch::Affected,
        vec![uuid(1), uuid(2), uuid(3), uuid(4), timestamp(5)],
    );
    check(
        AgentHealthRepository::cursor_is_valid(id(1), id(2), id(3), id(4), at(5)),
        Fetch::One,
        vec![uuid(1), uuid(2), uuid(3), uuid(4), timestamp(5)],
    );
    check(
        AgentHealthRepository::application_visible(id(1), id(2), id(3), true, id(5)),
        Fetch::One,
        vec![uuid(1), uuid(2), uuid(3), boolean(true), uuid(5)],
    );
    check(
        AgentHealthRepository::agent_page(id(1), id(2), id(3), Some(at(4)), Some(id(5)), 6),
        Fetch::All,
        vec![uuid(1), uuid(2), uuid(3), timestamp(4), uuid(5), bigint(6)],
    );
    check(
        AgentHealthRepository::buckets(id(1), id(2), id(3), id(4), id(5), 6, at(7), at(8)),
        Fetch::All,
        vec![uuid(1), uuid(2), uuid(3), uuid(4), uuid(5), bigint(6), timestamp(7), timestamp(8)],
    );
}

#[test]
fn application_credentials_statements() {
    check(
        ApplicationCredentialRepository::insert(id(1), id(2), id(3), id(4), "s5", &[1, 6], "s7"),
        Fetch::One,
        vec![uuid(1), uuid(2), uuid(3), uuid(4), text("s5"), bytes(&[1, 6]), text("s7")],
    );
    check(
        ApplicationCredentialRepository::list(id(1), id(2), id(3)),
        Fetch::All,
        vec![uuid(1), uuid(2), uuid(3)],
    );
    check(
        ApplicationCredentialRepository::revoke_in_application(id(1), id(2), id(3), id(4)),
        Fetch::Optional,
        vec![uuid(1), uuid(2), uuid(3), uuid(4)],
    );
    check(
        ApplicationCredentialRepository::authenticate(&[1, 1]),
        Fetch::Optional,
        vec![bytes(&[1, 1])],
    );
    check(
        ApplicationCredentialRepository::is_active(id(1), id(2), id(3), id(4)),
        Fetch::One,
        vec![uuid(1), uuid(2), uuid(3), uuid(4)],
    );
    check(
        ApplicationCredentialRepository::revoke(id(1)),
        Fetch::Affected,
        vec![uuid(1)],
    );
}

#[test]
fn applications_statements() {
    check(
        ApplicationRepository::upsert_by_slug(id(1), id(2), id(3), "s4", "s5"),
        Fetch::One,
        vec![uuid(1), uuid(2), uuid(3), text("s4"), text("s5")],
    );
    check(
        ApplicationRepository::summaries(id(1)),
        Fetch::All,
        vec![uuid(1)],
    );
    check(
        ApplicationRepository::summary(id(1), id(2)),
        Fetch::Optional,
        vec![uuid(1), uuid(2)],
    );
    check(
        ApplicationRepository::organization_of(id(1), id(2)),
        Fetch::Optional,
        vec![uuid(1), uuid(2)],
    );
    check(
        ApplicationRepository::platform_page(id(1), Some(id(2)), 3, "RELEASES"),
        Fetch::All,
        vec![uuid(1), uuid(2), bigint(3)],
    );
    check(
        ApplicationRepository::insert(id(1), id(2), "s3", "s4"),
        Fetch::Optional,
        vec![uuid(1), uuid(2), text("s3"), text("s4")],
    );
    check(
        ApplicationRepository::is_known(id(1), id(2), id(3)),
        Fetch::One,
        vec![uuid(1), uuid(2), uuid(3)],
    );
}

#[test]
fn attention_statements() {
    check(
        AttentionRepository::changed(id(1), &[id(2), id(7)], 3),
        Fetch::All,
        vec![uuid(1), Parameter::Uuids(vec![id(2), id(7)]), bigint(3)],
    );
    check(
        AttentionRepository::application_changed(id(1), vec![id(2)], id(3)),
        Fetch::Optional,
        vec![uuid(1), Parameter::Uuids(vec![id(2)]), uuid(3)],
    );
    check(
        AttentionRepository::organization_totals(id(1), &[id(2), id(7)], at(3), at(4)),
        Fetch::One,
        vec![uuid(1), Parameter::Uuids(vec![id(2), id(7)]), timestamp(3), timestamp(4)],
    );
    check(
        AttentionRepository::resource_findings(id(1), &[id(2), id(7)], Some(id(3)), at(4), 5),
        Fetch::All,
        vec![uuid(1), Parameter::Uuids(vec![id(2), id(7)]), uuid(3), timestamp(4), bigint(5)],
    );
    check(
        AttentionRepository::largest_changes(vec![id(1)], vec![id(2)], vec![id(3)], 4),
        Fetch::All,
        vec![
            Parameter::Uuids(vec![id(1)]), Parameter::Uuids(vec![id(2)]),
            Parameter::Uuids(vec![id(3)]), bigint(4),
        ],
    );
    check(
        AttentionRepository::discoveries(id(1), &[id(2), id(7)], Some(id(3)), at(4), at(5), 6, 7),
        Fetch::All,
        vec![
            uuid(1), Parameter::Uuids(vec![id(2), id(7)]), uuid(3), timestamp(4), timestamp(5),
            bigint(6), smallint(7),
        ],
    );
    check(
        AttentionRepository::notification_problems(id(1), &[id(2), id(7)], at(3), true, 5),
        Fetch::All,
        vec![uuid(1), Parameter::Uuids(vec![id(2), id(7)]), timestamp(3), boolean(true), bigint(5)],
    );
    check(
        AttentionRepository::new_discovery_scopes(id(1), &[id(2), id(7)], at(3), at(4), 5),
        Fetch::All,
        vec![uuid(1), Parameter::Uuids(vec![id(2), id(7)]), timestamp(3), timestamp(4), bigint(5)],
    );
    check(
        AttentionRepository::application_identity(id(1), id(2), id(3)),
        Fetch::Optional,
        vec![uuid(1), uuid(2), uuid(3)],
    );
    check(
        AttentionRepository::application_discovery_counts(id(1), id(2), at(3), at(4)),
        Fetch::One,
        vec![uuid(1), uuid(2), timestamp(3), timestamp(4)],
    );
    check(
        AttentionRepository::application_policy_summary(id(1), id(2), 3),
        Fetch::One,
        vec![uuid(1), uuid(2), smallint(3)],
    );
}

#[test]
fn clusters_statements() {
    check(
        ClusterRepository::upsert(id(1), id(2), "s3", "s4"),
        Fetch::One,
        vec![uuid(1), uuid(2), text("s3"), text("s4")],
    );
    check(
        ClusterRepository::upsert_credential(id(1), id(2), id(3), vec![2u8, 4]),
        Fetch::Affected,
        vec![uuid(1), uuid(2), uuid(3), bytes(&[2, 4])],
    );
    check(
        ClusterRepository::upsert_by_external_id(id(1), id(2), "s3".to_owned(), Some("s4")),
        Fetch::One,
        vec![uuid(1), uuid(2), text("s3"), text("s4")],
    );
    check(
        ClusterRepository::register_agent(
            id(1), id(2), id(3), "s4", "s5", Some("s6"), Some("s7"), json(8),
        ),
        Fetch::One,
        vec![
            uuid(1), uuid(2), uuid(3), text("s4"), text("s5"), text("s6"), text("s7"), document(8),
        ],
    );
    check(
        ClusterRepository::open_session(id(1), id(2), id(3), id(4), 5),
        Fetch::Affected,
        vec![uuid(1), uuid(2), uuid(3), uuid(4), integer(5)],
    );
    check(
        ClusterRepository::touch_agent(id(1)),
        Fetch::Affected,
        vec![uuid(1)],
    );
}

#[test]
fn deployments_statements() {
    check(
        DeploymentRepository::insert_revision(
            id(1), id(2), id(3), id(4), id(5), id(6), 7, &[1, 8], "s9", "s10", "s11", "s12", "s13",
            "s14", Some("s15"), at(16),
        ),
        Fetch::Optional,
        vec![
            uuid(1), uuid(2), uuid(3), uuid(4), uuid(5), uuid(6), smallint(7), bytes(&[1, 8]),
            text("s9"), text("s10"), text("s11"), text("s12"), text("s13"), text("s14"),
            text("s15"), timestamp(16),
        ],
    );
    check(
        DeploymentRepository::lock_revision("s1".to_owned()),
        Fetch::Affected,
        vec![text("s1")],
    );
    check(
        DeploymentRepository::episode_count(id(1)),
        Fetch::One,
        vec![uuid(1)],
    );
    check(
        DeploymentRepository::open_episode(id(1)),
        Fetch::Optional,
        vec![uuid(1)],
    );
    check(
        DeploymentRepository::touch_episode(id(1), at(2)),
        Fetch::Affected,
        vec![uuid(1), timestamp(2)],
    );
    check(
        DeploymentRepository::active_episodes(id(1), id(2), id(3)),
        Fetch::All,
        vec![uuid(1), uuid(2), uuid(3)],
    );
    check(
        DeploymentRepository::insert_episode(
            id(1), id(2), id(3), id(4), id(5), id(6), id(7), 8, "s9", at(10),
        ),
        Fetch::Affected,
        vec![
            uuid(1), uuid(2), uuid(3), uuid(4), uuid(5), uuid(6), uuid(7), bigint(8), text("s9"),
            timestamp(10),
        ],
    );
    check(
        DeploymentRepository::link_predecessor(id(1), id(2), id(3), id(4), id(5), at(6)),
        Fetch::Affected,
        vec![uuid(1), uuid(2), uuid(3), uuid(4), uuid(5), timestamp(6)],
    );
    check(
        DeploymentRepository::revision_by_digest(id(1), id(2), id(3), id(4), &[1, 5]),
        Fetch::Optional,
        vec![uuid(1), uuid(2), uuid(3), uuid(4), bytes(&[1, 5])],
    );
    check(
        DeploymentRepository::insert_snapshot(
            id(1), id(2), id(3), id(4), id(5), "s6", at(7), true, true, 10, 11, 12,
        ),
        Fetch::Affected,
        vec![
            uuid(1), uuid(2), uuid(3), uuid(4), uuid(5), text("s6"), timestamp(7), boolean(true),
            boolean(true), integer(10), integer(11), integer(12),
        ],
    );
    check(
        DeploymentRepository::end_episode(id(1), 2, at(3), 4),
        Fetch::Affected,
        vec![uuid(1), integer(2), timestamp(3), bigint(4)],
    );
    check(
        DeploymentRepository::record_episode_pods(id(1), 2, 3, 4, at(5)),
        Fetch::Affected,
        vec![uuid(1), integer(2), integer(3), integer(4), timestamp(5)],
    );
}

#[test]
fn dns_groups_statements() {
    check(
        DnsGroupRepository::groups(
            dns_filter(), versions(), Some("s1".to_owned()), Some(at(2)), Some("s3"), Some("s4"),
            5,
        ),
        Fetch::All,
        vec![
            uuid(9001), uuid(9002), uuid(9003), smallint(41), uuid(9004), uuid(9005), text("ns"),
            text("wk"), text("wn"), text("cn"), timestamp(9006), timestamp(9007), text("ve"),
            boolean(true), boolean(false), smallint(42), text("s1"), timestamp(2), text("s3"),
            text("s4"), bigint(5),
        ],
    );
    check(
        DnsGroupRepository::distribution(dns_filter(), versions(), Some("s1".to_owned()), 2),
        Fetch::All,
        vec![
            uuid(9001), uuid(9002), uuid(9003), smallint(41), uuid(9004), uuid(9005), text("ns"),
            text("wk"), text("wn"), text("cn"), timestamp(9006), timestamp(9007), text("ve"),
            boolean(true), boolean(false), smallint(42), text("s1"), bigint(2),
        ],
    );
    check(
        DnsGroupRepository::variants(dns_filter(), versions(), "s1", "s2", Some(id(3)), 4),
        Fetch::All,
        vec![
            uuid(9001), uuid(9002), uuid(9003), smallint(41), uuid(9004), uuid(9005), text("ns"),
            text("wk"), text("wn"), text("cn"), timestamp(9006), timestamp(9007), text("ve"),
            boolean(true), boolean(false), smallint(42), text("s1"), text("s2"), uuid(3),
            bigint(4),
        ],
    );
}

#[test]
fn email_actions_statements() {
    check(
        EmailActionRepository::revoke_pending(id(1), "s2"),
        Fetch::Affected,
        vec![uuid(1), text("s2")],
    );
    check(
        EmailActionRepository::insert(id(1), id(2), "s3", vec![2u8, 4], at(5)),
        Fetch::Affected,
        vec![uuid(1), uuid(2), text("s3"), bytes(&[2, 4]), timestamp(5)],
    );
    let cooling = EmailActionRepository::cooling_down(id(1), "s2");
    assert_eq!(placeholders(&cooling.text), vec![1, 2, 3]);
    assert_eq!(cooling.parameters, vec![uuid(1), text("s2")]);
    assert_eq!(cooling.fetch, Fetch::One);
    check(
        EmailActionRepository::revoke_pending_verifications(id(1)),
        Fetch::Affected,
        vec![uuid(1)],
    );
    check(
        EmailActionRepository::consume(vec![2u8, 1], "s2"),
        Fetch::Optional,
        vec![bytes(&[2, 1]), text("s2")],
    );
    check(
        EmailActionRepository::revoke_all_pending(id(1)),
        Fetch::Affected,
        vec![uuid(1)],
    );
}

#[test]
fn event_groups_statements() {
    check(
        EventGroupRepository::add_release_membership(
            id(1), id(2), id(3), id(4), id(5), 6, Some(id(7)),
        ),
        Fetch::Optional,
        vec![uuid(1), uuid(2), uuid(3), uuid(4), uuid(5), smallint(6), uuid(7)],
    );
    check(
        EventGroupRepository::record_release_occurrence(
            id(1), id(2), id(3), id(4), id(5), at(6), id(7),
        ),
        Fetch::Affected,
        vec![uuid(1), uuid(2), uuid(3), uuid(4), uuid(5), timestamp(6), uuid(7)],
    );
    check(
        EventGroupRepository::evidence_counts(id(1), id(2), id(3)),
        Fetch::One,
        vec![uuid(1), uuid(2), uuid(3)],
    );
    check(
        EventGroupRepository::release_rollup_count(),
        Fetch::One,
        vec![],
    );
    check(
        EventGroupRepository::add_membership(id(1), id(2), id(3), id(4), id(5), 6),
        Fetch::Affected,
        vec![uuid(1), uuid(2), uuid(3), uuid(4), uuid(5), smallint(6)],
    );
    check(
        EventGroupRepository::notification_eligibility(id(1), id(2), 3),
        Fetch::One,
        vec![uuid(1), uuid(2), smallint(3)],
    );
    check(
        EventGroupRepository::user_labels_json(id(1), id(2)),
        Fetch::One,
        vec![uuid(1), uuid(2)],
    );
    check(
        EventGroupRepository::user_labels(id(1), vec![id(2)]),
        Fetch::All,
        vec![uuid(1), Parameter::Uuids(vec![id(2)])],
    );
    check(
        EventGroupRepository::policy_states(id(1), &[id(2), id(7)], 3),
        Fetch::All,
        vec![uuid(1), Parameter::Uuids(vec![id(2), id(7)]), smallint(3)],
    );
    check(
        EventGroupRepository::list_cursor(id(1), id(2), id(3), id(4)),
        Fetch::Optional,
        vec![uuid(1), uuid(2), uuid(3), uuid(4)],
    );
    check(
        EventGroupRepository::summary_page(
            id(1), id(2), id(3), Some("s4".to_owned()), Some("s5".to_owned()),
            Some("s6".to_owned()), Some("s7".to_owned()), Some("s8".to_owned()), Some(at(9)),
            Some(at(10)), Some(at(11)), Some(at(12)), Some(id(13)), Some(at(14)), Some(id(15)), 16,
        ),
        Fetch::All,
        vec![
            uuid(1), uuid(2), uuid(3), text("s4"), text("s5"), text("s6"), text("s7"), text("s8"),
            timestamp(9), timestamp(10), timestamp(11), timestamp(12), uuid(13), timestamp(14),
            uuid(15), bigint(16),
        ],
    );
    check(
        EventGroupRepository::summary(id(1), id(2)),
        Fetch::Optional,
        vec![uuid(1), uuid(2)],
    );
    check(
        EventGroupRepository::occurrence_cursor(id(1), id(2), id(3)),
        Fetch::Optional,
        vec![uuid(1), uuid(2), uuid(3)],
    );
    check(
        EventGroupRepository::occurrence_page(
            id(1), id(2), Some(at(3)), Some(at(4)), Some(id(5)), 6,
        ),
        Fetch::All,
        vec![uuid(1), uuid(2), timestamp(3), timestamp(4), uuid(5), bigint(6)],
    );
    check(
        EventGroupRepository::set_status(id(1), id(2), "s3", id(4), &["c5", "y"]),
        Fetch::Optional,
        vec![
            uuid(1), uuid(2), text("s3"), uuid(4),
            Parameter::Texts(vec!["c5".to_owned(), "y".to_owned()]),
        ],
    );
    check(
        EventGroupRepository::status(id(1), id(2)),
        Fetch::Optional,
        vec![uuid(1), uuid(2)],
    );
    check(
        EventGroupRepository::notification_summary(id(1), id(2)),
        Fetch::Optional,
        vec![uuid(1), uuid(2)],
    );
    check(
        EventGroupRepository::related_evidence(id(1), id(2), 3),
        Fetch::All,
        vec![uuid(1), uuid(2), bigint(3)],
    );
    check(
        EventGroupRepository::tenant_of(id(1)),
        Fetch::Optional,
        vec![uuid(1)],
    );
    check(
        EventGroupRepository::insert_if_absent(id(1), group_key(), "s2", &json(3), at(4), id(5)),
        Fetch::Optional,
        vec![
            uuid(1), uuid(9001), uuid(9002), uuid(9005), uuid(9003), text("ns"), text("wk"),
            text("wn"), smallint(8), bytes(&[4, 5]), text("s2"), document(3), timestamp(4),
            uuid(5),
        ],
    );
    check(
        EventGroupRepository::lock_existing(group_key()),
        Fetch::One,
        vec![
            uuid(9001), uuid(9002), uuid(9003), uuid(9005), text("ns"), text("wk"), text("wn"),
            smallint(8), bytes(&[4, 5]),
        ],
    );
    check(
        EventGroupRepository::record_occurrence(id(1), at(2), id(3)),
        Fetch::Nothing,
        vec![uuid(1), timestamp(2), uuid(3)],
    );
    check(
        EventGroupRepository::upsert_derived(id(1), group_key(), "s2", &json(3), at(4), id(5)),
        Fetch::One,
        vec![
            uuid(1), uuid(9001), uuid(9002), uuid(9005), uuid(9003), text("ns"), text("wk"),
            text("wn"), smallint(8), bytes(&[4, 5]), text("s2"), document(3), timestamp(4),
            uuid(5),
        ],
    );
    check(
        EventGroupRepository::increment_occurrence(id(1)),
        Fetch::Nothing,
        vec![uuid(1)],
    );
}

#[test]
fn events_statements() {
    check(
        EventRepository::received_window(id(1), id(2), id(3)),
        Fetch::One,
        vec![uuid(1), uuid(2), uuid(3)],
    );
    check(
        EventRepository::occurrence(id(1), id(2)),
        Fetch::Optional,
        vec![uuid(1), uuid(2)],
    );
    check(
        EventRepository::related_evidence(id(1), id(2), 3),
        Fetch::All,
        vec![uuid(1), uuid(2), bigint(3)],
    );
    check(
        EventRepository::recent_for_application(id(1), id(2), id(3), "s4", at(5), 6),
        Fetch::All,
        vec![uuid(1), uuid(2), uuid(3), text("s4"), timestamp(5), bigint(6)],
    );
}

#[test]
fn installations_statements() {
    check(
        InstallationRepository::record_status(id(1), id(2), id(3), "s4", "s5", Some("s6"), at(7)),
        Fetch::Affected,
        vec![uuid(1), uuid(2), uuid(3), text("s4"), text("s5"), text("s6"), timestamp(7)],
    );
    check(
        InstallationRepository::for_application(id(1), id(2), id(3)),
        Fetch::All,
        vec![uuid(1), uuid(2), uuid(3)],
    );
    check(
        InstallationRepository::get(id(1), id(2), id(3), id(4)),
        Fetch::Optional,
        vec![uuid(1), uuid(2), uuid(3), uuid(4)],
    );
    check(
        InstallationRepository::by_idempotency_key(id(1), "s2"),
        Fetch::Optional,
        vec![uuid(1), text("s2")],
    );
    check(
        InstallationRepository::insert(
            id(1), id(2), id(3), id(4), id(5), "s6", &[1, 7], "s8", "s9", "s10", Some("s11"),
            Some(json(12)), "s13", 14,
        ),
        Fetch::One,
        vec![
            uuid(1), uuid(2), uuid(3), uuid(4), uuid(5), text("s6"), bytes(&[1, 7]), text("s8"),
            text("s9"), text("s10"), text("s11"), document(12), text("s13"), integer(14),
        ],
    );
    check(
        InstallationRepository::update(
            id(1), id(2), id(3), id(4), "s5", "s6", "s7", Some("s8"), Some(json(9)),
        ),
        Fetch::Optional,
        vec![
            uuid(1), uuid(2), uuid(3), uuid(4), text("s5"), text("s6"), text("s7"), text("s8"),
            document(9),
        ],
    );
    check(
        InstallationRepository::credential_for_update(id(1), id(2), id(3), id(4)),
        Fetch::Optional,
        vec![uuid(1), uuid(2), uuid(3), uuid(4)],
    );
    check(
        InstallationRepository::set_credential(id(1), id(2)),
        Fetch::Affected,
        vec![uuid(1), uuid(2)],
    );
    check(
        InstallationRepository::latest_credential_use(id(1), id(2), id(3)),
        Fetch::Optional,
        vec![uuid(1), uuid(2), uuid(3)],
    );
    check(
        InstallationRepository::latest_status(id(1), id(2), id(3)),
        Fetch::Optional,
        vec![uuid(1), uuid(2), uuid(3)],
    );
}

#[test]
fn inventory_statements() {
    check(
        InventoryRepository::projection_backfill_page(
            id(1), id(2), Some(id(3)), 4, Some(id(5)), id(6), 7,
        ),
        Fetch::All,
        vec![uuid(1), uuid(2), uuid(3), smallint(4), uuid(5), uuid(6), bigint(7)],
    );
    check(
        InventoryRepository::reconciliation(id(1), id(2), id(3), 4),
        Fetch::One,
        vec![uuid(1), uuid(2), uuid(3), smallint(4)],
    );
    check(
        InventoryRepository::item_count_and_staleness(),
        Fetch::One,
        vec![],
    );
    check(
        InventoryRepository::identity_key(id(1), id(2), id(3), id(4)),
        Fetch::One,
        vec![uuid(1), uuid(2), uuid(3), uuid(4)],
    );
    check(
        InventoryRepository::insert_item(
            id(1), id(2), id(3), id(4), "s5", 6, &[1, 7], &json(8), at(9),
        ),
        Fetch::Optional,
        vec![
            uuid(1), uuid(2), uuid(3), uuid(4), text("s5"), smallint(6), bytes(&[1, 7]),
            document(8), timestamp(9),
        ],
    );
    check(
        InventoryRepository::item_id_by_identity(id(1), id(2), id(3), "s4", 5, &[1, 6]),
        Fetch::One,
        vec![uuid(1), uuid(2), uuid(3), text("s4"), smallint(5), bytes(&[1, 6])],
    );
    check(
        InventoryRepository::add_event_membership(id(1), id(2), id(3), id(4), id(5), 6),
        Fetch::Optional,
        vec![uuid(1), uuid(2), uuid(3), uuid(4), uuid(5), smallint(6)],
    );
    check(
        InventoryRepository::record_inbound_occurrence(id(1), at(2), true, true),
        Fetch::Affected,
        vec![uuid(1), timestamp(2), boolean(true), boolean(true)],
    );
    check(
        InventoryRepository::record_occurrence(id(1), at(2)),
        Fetch::Affected,
        vec![uuid(1), timestamp(2)],
    );
    check(
        InventoryRepository::link_group(id(1), id(2), id(3), id(4), id(5)),
        Fetch::Affected,
        vec![uuid(1), uuid(2), uuid(3), uuid(4), uuid(5)],
    );
    check(
        InventoryRepository::record_release_occurrence(id(1), id(2), id(3), id(4), id(5), at(6)),
        Fetch::Affected,
        vec![uuid(1), uuid(2), uuid(3), uuid(4), uuid(5), timestamp(6)],
    );
    check(
        InventoryRepository::record_sighting(
            id(1), id(2), id(3), id(4), id(5), "s6", "s7", "s8", "s9", "s10", "s11", at(12),
        ),
        Fetch::Affected,
        vec![
            uuid(1), uuid(2), uuid(3), uuid(4), uuid(5), text("s6"), text("s7"), text("s8"),
            text("s9"), text("s10"), text("s11"), timestamp(12),
        ],
    );
    check(
        InventoryRepository::link_event_items_to_group(id(1), id(2), id(3), id(4), id(5), 6),
        Fetch::Affected,
        vec![uuid(1), uuid(2), uuid(3), uuid(4), uuid(5), smallint(6)],
    );
    check(
        InventoryRepository::kind_summary(inventory_filter(), 1),
        Fetch::All,
        vec![
            uuid(9001), uuid(9002), uuid(9003), smallint(1), uuid(9004), uuid(9005), text("ns"),
            text("wk"), text("wn"), text("cn"), timestamp(9006), timestamp(9007), text("op"),
            text("se"),
        ],
    );
    check(
        InventoryRepository::distribution(inventory_filter(), 1, "s2", 3),
        Fetch::All,
        vec![
            uuid(9001), uuid(9002), uuid(9003), smallint(1), text("s2"), uuid(9004), uuid(9005),
            text("ns"), text("wk"), text("wn"), text("cn"), timestamp(9006), timestamp(9007),
            text("op"), text("se"), bigint(3),
        ],
    );
    check(
        InventoryRepository::facet_options(
            FacetColumn::Cluster, inventory_filter(), 1, Some("s2"), Some("s3"), Some(4),
            Some("s5"), Some("s6"), 7,
        ),
        Fetch::All,
        vec![
            uuid(9001), uuid(9002), uuid(9003), smallint(1), text("s2"), uuid(9004), uuid(9005),
            text("ns"), text("wk"), text("wn"), text("cn"), timestamp(9006), timestamp(9007),
            text("op"), text("se"), text("s3"), bigint(4), text("s5"), text("s6"), bigint(7),
        ],
    );
    check(
        InventoryRepository::item_page(
            inventory_filter(), 1, Some("s2"), Some(id(3)), Some(vec![3u8, 4]), Some("s5"),
            Some(false), Some(false), 8, Some(at(9)), Some(id(10)), 11,
        ),
        Fetch::All,
        vec![
            uuid(9001), uuid(9002), uuid(9003), smallint(1), text("s2"), uuid(9004), uuid(9005),
            text("ns"), text("wk"), text("wn"), text("cn"), timestamp(9006), timestamp(9007),
            text("op"), text("se"), uuid(3), bytes(&[3, 4]), text("s5"), boolean(false),
            boolean(false), smallint(8), timestamp(9), uuid(10), bigint(11),
        ],
    );
    check(
        InventoryRepository::put_user_label(
            id(1), id(2), id(3), id(4), "s5".to_owned(), id(6), Some(at(7)),
        ),
        Fetch::Optional,
        vec![uuid(1), uuid(2), uuid(3), uuid(4), text("s5"), uuid(6), timestamp(7)],
    );
    check(
        InventoryRepository::delete_user_label(id(1), id(2), id(3), id(4), Some(at(5))),
        Fetch::Affected,
        vec![uuid(1), uuid(2), uuid(3), uuid(4), timestamp(5)],
    );
    check(
        InventoryRepository::user_label_exists(id(1)),
        Fetch::One,
        vec![uuid(1)],
    );
    check(
        InventoryRepository::is_known(id(1), id(2), id(3), id(4), 5),
        Fetch::One,
        vec![uuid(1), uuid(2), uuid(3), uuid(4), smallint(5)],
    );
    check(
        InventoryRepository::item_cursor(id(1), id(2), id(3), id(4), 5),
        Fetch::Optional,
        vec![uuid(1), uuid(2), uuid(3), uuid(4), smallint(5)],
    );
    check(
        InventoryRepository::item(id(1), id(2), id(3), id(4), 5),
        Fetch::Optional,
        vec![uuid(1), uuid(2), uuid(3), uuid(4), smallint(5)],
    );
    check(
        InventoryRepository::placement_summary(id(1), id(2), id(3), id(4), 5),
        Fetch::One,
        vec![uuid(1), uuid(2), uuid(3), uuid(4), smallint(5)],
    );
    check(
        InventoryRepository::release_presence_page(
            id(1), id(2), id(3), id(4), Some(at(5)), Some(id(6)), 7,
        ),
        Fetch::All,
        vec![uuid(1), uuid(2), uuid(3), uuid(4), timestamp(5), uuid(6), bigint(7)],
    );
    check(
        InventoryRepository::sighting_page(
            id(1), id(2), id(3), id(4), Some(at(5)), Some(id(6)), Some("s7"), Some("s8"),
            Some("s9"), Some("s10"), Some("s11"), 12, 13,
        ),
        Fetch::All,
        vec![
            uuid(1), uuid(2), uuid(3), uuid(4), timestamp(5), uuid(6), text("s7"), text("s8"),
            text("s9"), text("s10"), text("s11"), bigint(12), smallint(13),
        ],
    );
    check(
        InventoryRepository::group_page(id(1), id(2), id(3), id(4), Some(id(5)), 6),
        Fetch::All,
        vec![uuid(1), uuid(2), uuid(3), uuid(4), uuid(5), bigint(6)],
    );
    check(
        InventoryRepository::occurrence_cursor(id(1), id(2), id(3), id(4), id(5)),
        Fetch::Optional,
        vec![uuid(1), uuid(2), uuid(3), uuid(4), uuid(5)],
    );
    check(
        InventoryRepository::occurrence_page(
            id(1), id(2), id(3), id(4), 5, Some(at(6)), Some(id(7)), 8,
        ),
        Fetch::All,
        vec![uuid(1), uuid(2), uuid(3), uuid(4), smallint(5), timestamp(6), uuid(7), bigint(8)],
    );
    check(
        InventoryRepository::identity(id(1), id(2), id(3), id(4)),
        Fetch::Optional,
        vec![uuid(1), uuid(2), uuid(3), uuid(4)],
    );
    check(
        InventoryRepository::group_seed(id(1), id(2), id(3), id(4)),
        Fetch::Optional,
        vec![uuid(1), uuid(2), uuid(3), uuid(4)],
    );
    check(
        InventoryRepository::item_linked_to_group(id(1), id(2), id(3), id(4), id(5)),
        Fetch::One,
        vec![uuid(1), uuid(2), uuid(3), uuid(4), uuid(5)],
    );
    check(
        InventoryRepository::linked_group_count(id(1)),
        Fetch::One,
        vec![uuid(1)],
    );
}

#[test]
fn invitations_statements() {
    check(
        InvitationRepository::delete_retained(),
        Fetch::Affected,
        vec![],
    );
    check(
        InvitationRepository::get(id(1)),
        Fetch::Optional,
        vec![uuid(1)],
    );
    check(
        InvitationRepository::get_for_update(id(1)),
        Fetch::Optional,
        vec![uuid(1)],
    );
    check(
        InvitationRepository::by_token_digest(vec![2u8, 1]),
        Fetch::Optional,
        vec![bytes(&[2, 1])],
    );
    check(
        InvitationRepository::by_token_digest_for_update(vec![2u8, 1]),
        Fetch::Optional,
        vec![bytes(&[2, 1])],
    );
    check(
        InvitationRepository::page(Some(id(1)), 2),
        Fetch::All,
        vec![uuid(1), bigint(2)],
    );
    check(
        InvitationRepository::organization_page(id(1), Some(id(2)), 3),
        Fetch::All,
        vec![uuid(1), uuid(2), bigint(3)],
    );
    check(
        InvitationRepository::project_page(id(1), Some(id(2)), 3),
        Fetch::All,
        vec![uuid(1), uuid(2), bigint(3)],
    );
    check(
        InvitationRepository::pending_owner_invitation(id(1)),
        Fetch::Optional,
        vec![uuid(1)],
    );
    check(
        InvitationRepository::insert(
            id(1), id(2), Some(id(3)), "s4", "s5", id(6), "s7", vec![2u8, 8], at(9),
        ),
        Fetch::Affected,
        vec![
            uuid(1), uuid(2), uuid(3), text("s4"), text("s5"), uuid(6), text("s7"), bytes(&[2, 8]),
            timestamp(9),
        ],
    );
    check(
        InvitationRepository::recipient_is_project_member("s1", id(2)),
        Fetch::One,
        vec![text("s1"), uuid(2)],
    );
    check(
        InvitationRepository::recipient_is_organization_member("s1", id(2)),
        Fetch::One,
        vec![text("s1"), uuid(2)],
    );
    check(
        InvitationRepository::created_last_hour(id(1)),
        Fetch::One,
        vec![uuid(1)],
    );
    check(
        InvitationRepository::unresolved_equivalent_for_update(id(1), Some(id(2)), "s3"),
        Fetch::Optional,
        vec![uuid(1), uuid(2), text("s3")],
    );
    check(
        InvitationRepository::revoke(id(1)),
        Fetch::Affected,
        vec![uuid(1)],
    );
    check(
        InvitationRepository::mark_replaced(id(1), id(2)),
        Fetch::Affected,
        vec![uuid(1), uuid(2)],
    );
    check(
        InvitationRepository::mail_context(id(1), Some(id(2)), id(3)),
        Fetch::One,
        vec![uuid(1), uuid(2), uuid(3)],
    );
    check(
        InvitationRepository::resent_last_hour(id(1)),
        Fetch::One,
        vec![uuid(1)],
    );
    check(
        InvitationRepository::consume(id(1), id(2)),
        Fetch::Affected,
        vec![uuid(1), uuid(2)],
    );
}

#[test]
fn memberships_statements() {
    check(
        MembershipRepository::project_role(id(1), id(2), id(3)),
        Fetch::Optional,
        vec![uuid(1), uuid(2), uuid(3)],
    );
    check(
        MembershipRepository::organization_role_when_active(id(1), id(2)),
        Fetch::Optional,
        vec![uuid(1), uuid(2)],
    );
    check(
        MembershipRepository::accessible_project_ids(id(1), id(2)),
        Fetch::All,
        vec![uuid(1), uuid(2)],
    );
    check(
        MembershipRepository::organization_owner_count(id(1)),
        Fetch::One,
        vec![uuid(1)],
    );
    check(
        MembershipRepository::insert_organization_role(id(1), id(2), "s3"),
        Fetch::Nothing,
        vec![uuid(1), uuid(2), text("s3")],
    );
    check(
        MembershipRepository::grant_organization_role_if_absent(id(1), id(2), "s3"),
        Fetch::Nothing,
        vec![uuid(1), uuid(2), text("s3")],
    );
    check(
        MembershipRepository::insert_project_role(id(1), id(2), id(3), "s4"),
        Fetch::Nothing,
        vec![uuid(1), uuid(2), uuid(3), text("s4")],
    );
    check(
        MembershipRepository::grant_project_role_if_absent(id(1), id(2), id(3), "s4"),
        Fetch::Nothing,
        vec![uuid(1), uuid(2), uuid(3), text("s4")],
    );
    check(
        MembershipRepository::remove_organization_role(id(1), id(2)),
        Fetch::Changed,
        vec![uuid(1), uuid(2)],
    );
    check(
        MembershipRepository::remove_project_role(id(1), id(2)),
        Fetch::Changed,
        vec![uuid(1), uuid(2)],
    );
}

#[test]
fn navigation_statements() {
    check(
        NavigationRepository::organization(id(1)),
        Fetch::Optional,
        vec![uuid(1)],
    );
    check(
        NavigationRepository::project_page(id(1), Some(at(2)), Some(id(3)), 4),
        Fetch::All,
        vec![uuid(1), timestamp(2), uuid(3), bigint(4)],
    );
    check(
        NavigationRepository::project(id(1), id(2)),
        Fetch::Optional,
        vec![uuid(1), uuid(2)],
    );
    check(
        NavigationRepository::application_page(
            id(1), id(2), Some(at(3)), Some(id(4)), 5, "RELEASES",
        ),
        Fetch::All,
        vec![uuid(1), uuid(2), timestamp(3), uuid(4), bigint(5)],
    );
    check(
        NavigationRepository::application(id(1), id(2), id(3), "RELEASES"),
        Fetch::Optional,
        vec![uuid(1), uuid(2), uuid(3)],
    );
    check(
        NavigationRepository::worker_cursor_is_valid(id(1), id(2), id(3), id(4), at(5)),
        Fetch::One,
        vec![uuid(1), uuid(2), uuid(3), uuid(4), timestamp(5)],
    );
    check(
        NavigationRepository::worker_page(id(1), id(2), id(3), Some(at(4)), Some(id(5)), 6),
        Fetch::All,
        vec![uuid(1), uuid(2), uuid(3), timestamp(4), uuid(5), bigint(6)],
    );
    check(
        NavigationRepository::project_cursor(id(1), id(2)),
        Fetch::Optional,
        vec![uuid(1), uuid(2)],
    );
    check(
        NavigationRepository::application_cursor(id(1), Some(id(2)), id(3)),
        Fetch::Optional,
        vec![uuid(1), uuid(2), uuid(3)],
    );
}

#[test]
fn notification_deliveries_statements() {
    check(
        NotificationDeliveryRepository::project_queue_snapshot(id(1), id(2)),
        Fetch::One,
        vec![uuid(1), uuid(2)],
    );
    check(
        NotificationDeliveryRepository::queue_snapshot(),
        Fetch::One,
        vec![],
    );
    check(
        NotificationDeliveryRepository::requeue_failed(id(1), id(2), id(3), 4, id(5)),
        Fetch::Affected,
        vec![uuid(1), uuid(2), uuid(3), integer(4), uuid(5)],
    );
    check(
        NotificationDeliveryRepository::cancel_pending(id(1), id(2), id(3), id(4)),
        Fetch::Affected,
        vec![uuid(1), uuid(2), uuid(3), uuid(4)],
    );
    check(
        NotificationDeliveryRepository::failed_for_retry(
            id(1), id(2), Some(id(3)), Some(at(4)), Some(at(5)), Some("s6"), 7,
        ),
        Fetch::All,
        vec![uuid(1), uuid(2), uuid(3), timestamp(4), timestamp(5), text("s6"), bigint(7)],
    );
    check(
        NotificationDeliveryRepository::count_failed_for_retry(
            id(1), id(2), Some(id(3)), Some(at(4)), Some(at(5)), Some("s6"),
        ),
        Fetch::One,
        vec![uuid(1), uuid(2), uuid(3), timestamp(4), timestamp(5), text("s6")],
    );
    check(
        NotificationDeliveryRepository::lock_for_recovery(id(1), id(2), id(3)),
        Fetch::Optional,
        vec![uuid(1), uuid(2), uuid(3)],
    );
    check(
        NotificationDeliveryRepository::insert_for_outbox(
            id(1), id(2), id(3), id(4), id(5), "s6", json(7), "s8", 9, Some(at(10)), Some("s11"),
            Some("s12"),
        ),
        Fetch::Affected,
        vec![
            uuid(1), uuid(2), uuid(3), uuid(4), uuid(5), text("s6"), document(7), text("s8"),
            integer(9), timestamp(10), text("s11"), text("s12"),
        ],
    );
    check(
        NotificationDeliveryRepository::claim_due(1, id(2), 3),
        Fetch::All,
        vec![bigint(1), uuid(2), bigint(3)],
    );
    check(
        NotificationDeliveryRepository::insert_test(id(1), id(2), id(3), id(4), &json(5), id(6), 7),
        Fetch::Affected,
        vec![uuid(1), uuid(2), uuid(3), uuid(4), document(5), uuid(6), bigint(7)],
    );
    check(
        NotificationDeliveryRepository::cursor(id(1), id(2), id(3)),
        Fetch::Optional,
        vec![uuid(1), uuid(2), uuid(3)],
    );
    check(
        NotificationDeliveryRepository::page(
            id(1), id(2), Some(id(3)), Some("s4"), Some("s5"), Some("s6"), Some(at(7)),
            Some(at(8)), Some(id(9)), 10,
        ),
        Fetch::All,
        vec![
            uuid(1), uuid(2), uuid(3), text("s4"), text("s5"), text("s6"), timestamp(7),
            timestamp(8), uuid(9), bigint(10),
        ],
    );
    check(
        NotificationDeliveryRepository::attempts(id(1), id(2), id(3)),
        Fetch::All,
        vec![uuid(1), uuid(2), uuid(3)],
    );
    check(
        NotificationDeliveryRepository::get(id(1), id(2), id(3)),
        Fetch::Optional,
        vec![uuid(1), uuid(2), uuid(3)],
    );
    check(
        NotificationDeliveryRepository::insert_attempt(
            id(1), id(2), id(3), id(4), 5, 6, at(7), 8, "s9", Some(10), Some("s11"),
            Some("s12".to_owned()),
        ),
        Fetch::Affected,
        vec![
            uuid(1), uuid(2), uuid(3), uuid(4), integer(5), integer(6), timestamp(7), bigint(8),
            text("s9"), integer(10), text("s11"), text("s12"),
        ],
    );
    check(
        NotificationDeliveryRepository::schedule_retry(id(1), id(2), 3, 4, Some("s5")),
        Fetch::Affected,
        vec![uuid(1), uuid(2), integer(3), bigint(4), text("s5")],
    );
    check(
        NotificationDeliveryRepository::finish(id(1), id(2), "s3", 4, Some("s5")),
        Fetch::Affected,
        vec![uuid(1), uuid(2), text("s3"), integer(4), text("s5")],
    );
    check(
        NotificationDeliveryRepository::cancel_for_destination(id(1), id(2), id(3)),
        Fetch::Affected,
        vec![uuid(1), uuid(2), uuid(3)],
    );
}

#[test]
fn notification_recovery_statements() {
    check(
        NotificationRecoveryRepository::cursor(id(1), id(2), id(3)),
        Fetch::Optional,
        vec![uuid(1), uuid(2), uuid(3)],
    );
    check(
        NotificationRecoveryRepository::page(id(1), id(2), Some("s3"), Some(at(4)), Some(id(5)), 6),
        Fetch::All,
        vec![uuid(1), uuid(2), text("s3"), timestamp(4), uuid(5), bigint(6)],
    );
    check(
        NotificationRecoveryRepository::get(id(1), id(2), id(3)),
        Fetch::Optional,
        vec![uuid(1), uuid(2), uuid(3)],
    );
    check(
        NotificationRecoveryRepository::deliveries(id(1), id(2), id(3)),
        Fetch::All,
        vec![uuid(1), uuid(2), uuid(3)],
    );
    check(
        NotificationRecoveryRepository::by_idempotency_key_for_update(id(1), id(2), &[1, 3]),
        Fetch::Optional,
        vec![uuid(1), uuid(2), bytes(&[1, 3])],
    );
    check(
        NotificationRecoveryRepository::insert(
            id(1), id(2), id(3), "s4", Some(id(5)), id(6), "s7", &[1, 8], &[1, 9], json(10), 11,
            12, 13, 14, 15, json(16), at(17),
        ),
        Fetch::Affected,
        vec![
            uuid(1), uuid(2), uuid(3), text("s4"), uuid(5), uuid(6), text("s7"), bytes(&[1, 8]),
            bytes(&[1, 9]), document(10), integer(11), integer(12), integer(13), integer(14),
            integer(15), document(16), timestamp(17),
        ],
    );
    check(
        NotificationRecoveryRepository::link_delivery(id(1), id(2), id(3), id(4), 5, "s6"),
        Fetch::Affected,
        vec![uuid(1), uuid(2), uuid(3), uuid(4), integer(5), text("s6")],
    );
}

#[test]
fn notification_retention_statements() {
    check(
        NotificationRetentionRepository::initialize_organizations(true, 2),
        Fetch::Affected,
        vec![boolean(true), integer(2)],
    );
    check(
        NotificationRetentionRepository::organization_policy(id(1)),
        Fetch::Optional,
        vec![uuid(1)],
    );
    check(
        NotificationRetentionRepository::project_policy(id(1), id(2)),
        Fetch::Optional,
        vec![uuid(1), uuid(2)],
    );
    check(
        NotificationRetentionRepository::set_organization_policy(id(1), true, 3, id(4)),
        Fetch::Affected,
        vec![uuid(1), boolean(true), integer(3), uuid(4)],
    );
    check(
        NotificationRetentionRepository::set_project_override(
            id(1), id(2), Some(false), Some(4), id(5),
        ),
        Fetch::Affected,
        vec![uuid(1), uuid(2), boolean(false), integer(4), uuid(5)],
    );
    check(
        NotificationRetentionRepository::try_lock(),
        Fetch::One,
        vec![],
    );
    check(
        NotificationRetentionRepository::expired_delivery_ids(1),
        Fetch::All,
        vec![bigint(1)],
    );
    check(
        NotificationRetentionRepository::operations_of_deliveries(&[id(1), id(7)]),
        Fetch::All,
        vec![Parameter::Uuids(vec![id(1), id(7)])],
    );
    check(
        NotificationRetentionRepository::delete_operations_targeting(&[id(1), id(7)]),
        Fetch::Affected,
        vec![Parameter::Uuids(vec![id(1), id(7)])],
    );
    check(
        NotificationRetentionRepository::delete_deliveries(&[id(1), id(7)]),
        Fetch::Affected,
        vec![Parameter::Uuids(vec![id(1), id(7)])],
    );
    check(
        NotificationRetentionRepository::delete_unlinked_bulk_operations(&[id(1), id(7)]),
        Fetch::Affected,
        vec![Parameter::Uuids(vec![id(1), id(7)])],
    );
    check(
        NotificationRetentionRepository::delete_expired_empty_operations(1),
        Fetch::Affected,
        vec![bigint(1)],
    );
}

#[test]
fn organizations_statements() {
    check(
        OrganizationRepository::upsert_by_slug(id(1), "s2", "s3"),
        Fetch::One,
        vec![uuid(1), text("s2"), text("s3")],
    );
    check(
        OrganizationRepository::lock_for_update(id(1)),
        Fetch::One,
        vec![uuid(1)],
    );
    check(
        OrganizationRepository::summaries(),
        Fetch::All,
        vec![],
    );
    check(
        OrganizationRepository::summary(id(1)),
        Fetch::One,
        vec![uuid(1)],
    );
    check(
        OrganizationRepository::platform_page(Some(id(1)), 2),
        Fetch::All,
        vec![uuid(1), bigint(2)],
    );
    check(
        OrganizationRepository::platform_get(id(1)),
        Fetch::Optional,
        vec![uuid(1)],
    );
    check(
        OrganizationRepository::insert(id(1), "s2", "s3", OrganizationStatus::PendingOwner),
        Fetch::One,
        vec![uuid(1), text("s2"), text("s3"), text("pending_owner")],
    );
    check(
        OrganizationRepository::any_exists(),
        Fetch::One,
        vec![],
    );
    check(
        OrganizationRepository::lock_shared(id(1)),
        Fetch::Present,
        vec![uuid(1)],
    );
    check(
        OrganizationRepository::activate_when_owned(id(1), "ACTIVE"),
        Fetch::Changed,
        vec![uuid(1)],
    );
    check(
        OrganizationRepository::discard_unclaimed(id(1)),
        Fetch::Changed,
        vec![uuid(1)],
    );
    check(
        OrganizationRepository::pending_owner_count(),
        Fetch::One,
        vec![],
    );
    check(
        OrganizationRepository::is_known(id(1)),
        Fetch::One,
        vec![uuid(1)],
    );
}

#[test]
fn outbox_statements() {
    check(
        OutboxRepository::claim_first_seen(1),
        Fetch::All,
        vec![bigint(1)],
    );
    check(
        OutboxRepository::record_eligibility(id(1), "s2", at(3), Some(id(4)), Some(id(5))),
        Fetch::Affected,
        vec![uuid(1), text("s2"), timestamp(3), uuid(4), uuid(5)],
    );
    check(
        OutboxRepository::complete(id(1), "s2"),
        Fetch::Affected,
        vec![uuid(1), text("s2")],
    );
    check(
        OutboxRepository::complete_without_destinations(id(1)),
        Fetch::Affected,
        vec![uuid(1)],
    );
    check(
        OutboxRepository::complete_backfill_suppressed(id(1)),
        Fetch::Affected,
        vec![uuid(1)],
    );
    check(
        OutboxRepository::mark_materialized(id(1)),
        Fetch::Affected,
        vec![uuid(1)],
    );
    check(
        OutboxRepository::complete_if_deliveries_terminal(id(1)),
        Fetch::Affected,
        vec![uuid(1)],
    );
}

#[test]
fn policies_statements() {
    check(
        PolicyRepository::state_version(id(1), id(2), id(3)),
        Fetch::Optional,
        vec![uuid(1), uuid(2), uuid(3)],
    );
    check(
        PolicyRepository::enabled_revisions_for_identity(id(1), id(2), id(3), 4, &[1, 5]),
        Fetch::All,
        vec![uuid(1), uuid(2), uuid(3), smallint(4), bytes(&[1, 5])],
    );
    check(
        PolicyRepository::store_group_evaluation(
            id(1), id(2), id(3), id(4), 5, 6, "s7", "s8", Some(id(9)), &json(10),
        ),
        Fetch::Affected,
        vec![
            uuid(1), uuid(2), uuid(3), uuid(4), bigint(5), smallint(6), text("s7"), text("s8"),
            uuid(9), document(10),
        ],
    );
    check(
        PolicyRepository::store_sighting_evaluation(
            id(1), id(2), id(3), id(4), id(5), "s6", "s7", "s8", "s9", "s10", 11, 12, "s13", "s14",
            Some(id(15)), &json(16),
        ),
        Fetch::Affected,
        vec![
            uuid(1), uuid(2), uuid(3), uuid(4), uuid(5), text("s6"), text("s7"), text("s8"),
            text("s9"), text("s10"), bigint(11), smallint(12), text("s13"), text("s14"), uuid(15),
            document(16),
        ],
    );
    check(
        PolicyRepository::claim_recomputation(id(1)),
        Fetch::Optional,
        vec![uuid(1)],
    );
    check(
        PolicyRepository::groups_to_evaluate(id(1), id(2), id(3), 4, &[1, 5], 6, 7),
        Fetch::All,
        vec![uuid(1), uuid(2), uuid(3), smallint(4), bytes(&[1, 5]), smallint(6), bigint(7)],
    );
    check(
        PolicyRepository::sightings_to_evaluate(id(1), id(2), id(3), 4, &[1, 5], 6, 7),
        Fetch::All,
        vec![uuid(1), uuid(2), uuid(3), smallint(4), bytes(&[1, 5]), smallint(6), bigint(7)],
    );
    check(
        PolicyRepository::complete_recomputation(id(1), id(2)),
        Fetch::Affected,
        vec![uuid(1), uuid(2)],
    );
    check(
        PolicyRepository::release_recomputation(id(1), id(2)),
        Fetch::Affected,
        vec![uuid(1), uuid(2)],
    );
    check(
        PolicyRepository::backfill_recomputations(id(1), id(2), Some(id(3))),
        Fetch::Affected,
        vec![uuid(1), uuid(2), uuid(3)],
    );
    check(
        PolicyRepository::recomputation(id(1), id(2), id(3), id(4)),
        Fetch::Optional,
        vec![uuid(1), uuid(2), uuid(3), uuid(4)],
    );
    check(
        PolicyRepository::page(id(1), id(2), id(3), Some(id(4)), 5),
        Fetch::All,
        vec![uuid(1), uuid(2), uuid(3), uuid(4), bigint(5)],
    );
    check(
        PolicyRepository::get(id(1), id(2), id(3), id(4)),
        Fetch::Optional,
        vec![uuid(1), uuid(2), uuid(3), uuid(4)],
    );
    check(
        PolicyRepository::revision_page(id(1), id(2), id(3), id(4), Some(id(5)), 6),
        Fetch::All,
        vec![uuid(1), uuid(2), uuid(3), uuid(4), uuid(5), bigint(6)],
    );
    check(
        PolicyRepository::suppression_page(id(1), id(2), id(3), Some(id(4)), Some(false), 6),
        Fetch::All,
        vec![uuid(1), uuid(2), uuid(3), uuid(4), boolean(false), bigint(6)],
    );
    check(
        PolicyRepository::lock_command("s1".to_owned()),
        Fetch::Affected,
        vec![text("s1")],
    );
    check(
        PolicyRepository::command(id(1), id(2)),
        Fetch::Optional,
        vec![uuid(1), uuid(2)],
    );
    check(
        PolicyRepository::record_command(
            id(1), id(2), id(3), id(4), id(5), "s6", &[1, 7], id(8), id(9), json(10),
        ),
        Fetch::Affected,
        vec![
            uuid(1), uuid(2), uuid(3), uuid(4), uuid(5), text("s6"), bytes(&[1, 7]), uuid(8),
            uuid(9), document(10),
        ],
    );
    check(
        PolicyRepository::bump_state_version(id(1), id(2), id(3)),
        Fetch::One,
        vec![uuid(1), uuid(2), uuid(3)],
    );
    check(
        PolicyRepository::current_state_version(id(1), id(2), id(3)),
        Fetch::One,
        vec![uuid(1), uuid(2), uuid(3)],
    );
    check(
        PolicyRepository::insert(id(1), id(2), id(3), id(4), "s5", id(6)),
        Fetch::Affected,
        vec![uuid(1), uuid(2), uuid(3), uuid(4), text("s5"), uuid(6)],
    );
    check(
        PolicyRepository::insert_revision(
            id(1), id(2), id(3), id(4), id(5), 6, Some(id(7)), true, "s9", 10, &[1, 11], json(12),
            vec![id(13)], vec!["b14".to_owned(), "x".to_owned()],
            vec!["b15".to_owned(), "x".to_owned()], vec!["b16".to_owned(), "x".to_owned()], "s17",
            Some("s18"), id(19), Some(id(20)), id(21),
        ),
        Fetch::Affected,
        vec![
            uuid(1), uuid(2), uuid(3), uuid(4), uuid(5), bigint(6), uuid(7), boolean(true),
            text("s9"), smallint(10), bytes(&[1, 11]), document(12),
            Parameter::Uuids(vec![id(13)]),
            Parameter::Texts(vec!["b14".to_owned(), "x".to_owned()]),
            Parameter::Texts(vec!["b15".to_owned(), "x".to_owned()]),
            Parameter::Texts(vec!["b16".to_owned(), "x".to_owned()]), text("s17"), text("s18"),
            uuid(19), uuid(20), uuid(21),
        ],
    );
    check(
        PolicyRepository::set_current_revision(id(1), id(2), id(3), id(4), id(5)),
        Fetch::Affected,
        vec![uuid(1), uuid(2), uuid(3), uuid(4), uuid(5)],
    );
    check(
        PolicyRepository::request_recomputation(id(1), id(2), id(3), id(4), 5, &[1, 6], id(7)),
        Fetch::Affected,
        vec![uuid(1), uuid(2), uuid(3), uuid(4), smallint(5), bytes(&[1, 6]), uuid(7)],
    );
    check(
        PolicyRepository::preview_counts(
            id(1), &[id(2), id(7)], &["a3".to_owned()], &["a4".to_owned()], &["a5".to_owned()],
        ),
        Fetch::One,
        vec![
            uuid(1), Parameter::Uuids(vec![id(2), id(7)]), Parameter::Texts(vec!["a3".to_owned()]),
            Parameter::Texts(vec!["a4".to_owned()]), Parameter::Texts(vec!["a5".to_owned()]),
        ],
    );
    check(
        PolicyRepository::preview_group_ids(
            id(1), &[id(2), id(7)], &["a3".to_owned()], &["a4".to_owned()], &["a5".to_owned()],
            true,
        ),
        Fetch::All,
        vec![
            uuid(1), Parameter::Uuids(vec![id(2), id(7)]), Parameter::Texts(vec!["a3".to_owned()]),
            Parameter::Texts(vec!["a4".to_owned()]), Parameter::Texts(vec!["a5".to_owned()]),
            boolean(true),
        ],
    );
    check(
        PolicyRepository::preview_sightings(
            id(1), &[id(2), id(7)], &["a3".to_owned()], &["a4".to_owned()], &["a5".to_owned()],
            true,
        ),
        Fetch::All,
        vec![
            uuid(1), Parameter::Uuids(vec![id(2), id(7)]), Parameter::Texts(vec!["a3".to_owned()]),
            Parameter::Texts(vec!["a4".to_owned()]), Parameter::Texts(vec!["a5".to_owned()]),
            boolean(true),
        ],
    );
    check(
        PolicyRepository::current_revision_for_update(id(1), id(2), id(3), id(4)),
        Fetch::Optional,
        vec![uuid(1), uuid(2), uuid(3), uuid(4)],
    );
    check(
        PolicyRepository::current_revision_detail_for_update(id(1), id(2), id(3), id(4)),
        Fetch::Optional,
        vec![uuid(1), uuid(2), uuid(3), uuid(4)],
    );
    check(
        PolicyRepository::rename("s1", id(2)),
        Fetch::Affected,
        vec![text("s1"), uuid(2)],
    );
    check(
        PolicyRepository::insert_suppression(
            id(1), id(2), id(3), id(4), "s5", 6, &[1, 7], json(8), vec![id(9)],
            vec!["b10".to_owned(), "x".to_owned()], vec!["b11".to_owned(), "x".to_owned()],
            vec!["b12".to_owned(), "x".to_owned()], "s13", at(14), id(15), Some(id(16)), id(17),
            at(18),
        ),
        Fetch::Affected,
        vec![
            uuid(1), uuid(2), uuid(3), uuid(4), text("s5"), smallint(6), bytes(&[1, 7]),
            document(8), Parameter::Uuids(vec![id(9)]),
            Parameter::Texts(vec!["b10".to_owned(), "x".to_owned()]),
            Parameter::Texts(vec!["b11".to_owned(), "x".to_owned()]),
            Parameter::Texts(vec!["b12".to_owned(), "x".to_owned()]), text("s13"), timestamp(14),
            uuid(15), uuid(16), uuid(17), timestamp(18),
        ],
    );
    check(
        PolicyRepository::cancel_suppression(id(1), id(2), id(3), id(4), id(5)),
        Fetch::Affected,
        vec![uuid(1), uuid(2), uuid(3), uuid(4), uuid(5)],
    );
}

#[test]
fn projects_statements() {
    check(
        ProjectRepository::exists_in(id(1), id(2)),
        Fetch::One,
        vec![uuid(1), uuid(2)],
    );
    check(
        ProjectRepository::insert(id(1), id(2), "s3", "s4"),
        Fetch::Optional,
        vec![uuid(1), uuid(2), text("s3"), text("s4")],
    );
    check(
        ProjectRepository::ids_in(id(1)),
        Fetch::All,
        vec![uuid(1)],
    );
    check(
        ProjectRepository::organization_of(id(1)),
        Fetch::Optional,
        vec![uuid(1)],
    );
}

#[test]
fn provisioning_statements() {
    check(
        ProvisioningKeyRepository::reserve(id(1), "s2", &[1, 3], &[1, 4]),
        Fetch::Optional,
        vec![uuid(1), text("s2"), bytes(&[1, 3]), bytes(&[1, 4])],
    );
    check(
        ProvisioningKeyRepository::reservation("s1", &[1, 2]),
        Fetch::One,
        vec![text("s1"), bytes(&[1, 2])],
    );
    check(
        ProvisioningKeyRepository::complete(id(1), id(2)),
        Fetch::Affected,
        vec![uuid(1), uuid(2)],
    );
}
