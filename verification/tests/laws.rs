//! What holds across statements, on concrete values.

use chrono::DateTime;
use repository::agent_health::AgentHealthRepository;
use repository::applications::{ApplicationRepository, StoredApplication};
use repository::attention::AttentionRepository;
use repository::dns_groups::{DnsGroupFilter, DnsGroupRepository, Versions};
use repository::event_groups::{EventGroupRepository, GroupKey};
use repository::events::{EventRepository, StoredEvent};
use repository::insert::{Row, Style};
use repository::inventory::{FacetColumn, InventoryFilter, InventoryRepository};
use repository::invitations::InvitationRepository;
use repository::memberships::MembershipRepository;
use repository::notification_deliveries::NotificationDeliveryRepository;
use repository::organizations::{
    OrganizationRepository, OrganizationStatus, StoredOrganization,
};
use repository::policies::PolicyRepository;
use repository::projects::{
    LockReply, LockedProject, ProjectLock, ProjectRepository, StoredProject,
};
use repository::statement;
use repository::statement::{Fetch, Parameter, Statement, Timestamp};
use repository::tenant;
use repository::tenant::{After, Before, Layout, Start};
use serde_json::Value;
use uuid::Uuid;

fn id(n: u128) -> Uuid {
    Uuid::from_u128(n)
}

fn at(seconds: i64) -> Timestamp {
    Timestamp { utc: DateTime::from_timestamp(seconds, 0).unwrap().naive_utc() }
}

fn dns_filter() -> DnsGroupFilter<'static> {
    DnsGroupFilter {
        organization_id: id(1),
        project_id: id(2),
        application_id: id(3),
        release_id: None,
        cluster_id: None,
        namespace: None,
        workload_kind: None,
        workload_name: None,
        container_name: None,
        observed_from: None,
        observed_to: None,
        verdict: None,
        suppressed: None,
        evaluation_pending: None,
    }
}

fn inventory_filter() -> InventoryFilter<'static> {
    InventoryFilter {
        organization_id: id(1),
        project_id: id(2),
        application_id: id(3),
        release_id: None,
        cluster_id: None,
        namespace: None,
        workload_kind: None,
        workload_name: None,
        container_name: None,
        observed_from: None,
        observed_to: None,
        operation: None,
        search: None,
    }
}

fn key(digest: &[u8]) -> GroupKey<'_> {
    GroupKey {
        organization_id: id(1),
        project_id: id(2),
        application_id: id(3),
        cluster_id: id(4),
        namespace: "default",
        workload_kind: "Deployment",
        workload_name: "api",
        fingerprint_version: 1,
        fingerprint_digest: digest,
    }
}

#[test]
fn only_the_right_argument_order_asks_for_the_application() {
    let path = [id(1), id(2), id(3)];
    let right = ApplicationRepository::is_known(path[0], path[1], path[2]);
    for order in [[0, 2, 1], [1, 0, 2], [1, 2, 0], [2, 0, 1], [2, 1, 0]] {
        let other = ApplicationRepository::is_known(path[order[0]], path[order[1]], path[order[2]]);
        assert_ne!(right, other);
    }
    assert_eq!(right, ApplicationRepository::is_known(id(1), id(2), id(3)));
}

#[test]
fn a_swapped_pair_asks_for_another_project() {
    assert_ne!(
        ProjectRepository::exists_in(id(1), id(2)),
        ProjectRepository::exists_in(id(2), id(1)),
    );
}

#[test]
fn a_filtering_statement_holds_the_condition_and_binds_the_path() {
    let statement = PolicyRepository::page(id(1), id(2), id(3), None, 11);
    assert!(statement
        .text
        .contains("WHERE p.organization_id=$1 AND p.project_id=$2 AND p.application_id=$3 AND "));
    assert_eq!(
        statement.parameters[..3],
        [
            Parameter::Uuid(Some(id(1))),
            Parameter::Uuid(Some(id(2))),
            Parameter::Uuid(Some(id(3))),
        ],
    );
}

#[test]
fn a_filter_stands_between_its_keywords() {
    assert_eq!(
        tenant::project("A ", Before::Where, "x.", Layout::Tight, After::OrderBy, "B"),
        "A WHERE x.organization_id=$1 AND x.project_id=$2 ORDER BY B"
    );
    assert_eq!(
        tenant::organization("A ", Before::On, "x.", Layout::Spaced, After::And, "B"),
        "A ON x.organization_id = $1 AND B"
    );
    assert_eq!(
        tenant::organization("A ", Before::And, "", Layout::Tight, After::Parenthesis, "B"),
        "A AND organization_id=$1)B"
    );
    assert_eq!(
        tenant::organization("A ", Before::Where, "", Layout::Tight, After::GroupBy, "B"),
        "A WHERE organization_id=$1 GROUP BY B"
    );
    assert_eq!(
        tenant::organization("A ", Before::Where, "", Layout::Tight, After::Returning, "B"),
        "A WHERE organization_id=$1 RETURNING B"
    );
    assert_eq!(
        tenant::application_from(
            Start::Second,
            "A ",
            Before::Where,
            "",
            Layout::Lines,
            After::And,
            "B",
        ),
        "A WHERE organization_id = $2\n              AND project_id = $3\n              \
         AND application_id = $4\n              AND B"
    );
    assert_eq!(
        tenant::project("A ", Before::Where, "", Layout::DeepLines, After::End, ""),
        "A WHERE organization_id = $1\n                  AND project_id = $2"
    );
}

#[test]
fn every_read_of_a_statement_filters_by_the_path() {
    let filter = "organization_id=$1 AND project_id=$2 AND application_id=$3";
    let statement = EventGroupRepository::evidence_counts(id(1), id(2), id(3));
    assert_eq!(statement.text.matches(&format!("WHERE {filter})")).count(), 3);
    let statement = InventoryRepository::reconciliation(id(1), id(2), id(3), 4);
    assert_eq!(statement.text.matches(" FROM ").count(), 7);
    assert_eq!(statement.text.matches(filter).count(), 4);
    let aliased = "WHERE e.organization_id=$1 AND e.project_id=$2 AND e.application_id=$3)";
    assert_eq!(statement.text.matches(aliased).count(), 3);
}

#[test]
fn a_stored_row_is_copied_field_by_field() {
    let event = StoredEvent {
        event_id: id(1),
        organization_id: id(2),
        project_id: id(3),
        application_id: id(4),
        event_kind: "k".to_owned(),
        observed_at: at(5),
        payload: Value::from(6),
    };
    assert_eq!(event.clone(), event);
    let project = StoredProject {
        id: id(1),
        organization_id: id(2),
        slug: "s".to_owned(),
        name: "n".to_owned(),
        created_at: at(3),
        archived_at: Some(at(4)),
    };
    assert_eq!(project.clone(), project);
    let organization = StoredOrganization {
        id: id(1),
        slug: "s".to_owned(),
        name: "n".to_owned(),
        status: "active".to_owned(),
        created_at: at(2),
        updated_at: at(3),
    };
    assert_eq!(organization.clone(), organization);
    let application = StoredApplication {
        id: id(1),
        organization_id: id(2),
        project_id: id(3),
        slug: "s".to_owned(),
        name: "n".to_owned(),
        created_at: at(4),
    };
    assert_eq!(application.clone(), application);
}

#[test]
fn the_limit_is_clamped() {
    let limit = |limit: i64| {
        let statement =
            EventRepository::recent_for_application(id(1), id(2), id(3), "exec", at(4), limit);
        statement.parameters.into_iter().last().unwrap()
    };
    assert_eq!(limit(i64::MIN), Parameter::BigInt(Some(1)));
    assert_eq!(limit(0), Parameter::BigInt(Some(1)));
    assert_eq!(limit(1), Parameter::BigInt(Some(1)));
    assert_eq!(limit(250), Parameter::BigInt(Some(250)));
    assert_eq!(limit(1000), Parameter::BigInt(Some(1000)));
    assert_eq!(limit(1001), Parameter::BigInt(Some(1000)));
    assert_eq!(limit(i64::MAX), Parameter::BigInt(Some(1000)));
}

#[test]
fn both_bucket_tables_are_pruned_at_the_same_cutoff() {
    let statements = AgentHealthRepository::prune_buckets(at(9));
    let texts: Vec<&str> = statements.iter().map(|statement| statement.text.as_str()).collect();
    assert_eq!(
        texts,
        vec![
            "DELETE FROM application_agent_signal_buckets WHERE ctid IN (SELECT ctid FROM \
             application_agent_signal_buckets WHERE bucket_at<$1 ORDER BY bucket_at LIMIT 500)",
            "DELETE FROM application_agent_diagnostic_buckets WHERE ctid IN (SELECT ctid FROM \
             application_agent_diagnostic_buckets WHERE bucket_at<$1 ORDER BY bucket_at LIMIT 500)",
        ],
    );
    for statement in &statements {
        assert_eq!(statement.parameters, vec![Parameter::Timestamp(Some(at(9)))]);
        assert_eq!(statement.fetch, Fetch::Nothing);
    }
}

#[test]
fn the_dns_filter_takes_sixteen_positions_in_each_statement() {
    let versions = Versions { identity: 2, evaluator: 1 };
    let groups = DnsGroupRepository::groups(dns_filter(), versions, None, None, None, None, 5);
    let distribution = DnsGroupRepository::distribution(dns_filter(), versions, None, 5);
    let variants = DnsGroupRepository::variants(dns_filter(), versions, "d", "p", None, 5);
    assert_eq!(groups.parameters.len(), 21);
    assert_eq!(distribution.parameters.len(), 18);
    assert_eq!(variants.parameters.len(), 20);
    assert_eq!(groups.parameters[..16], distribution.parameters[..16]);
    assert_eq!(groups.parameters[..16], variants.parameters[..16]);
    assert_eq!(groups.parameters[3], Parameter::SmallInt(Some(2)));
    assert_eq!(groups.parameters[15], Parameter::SmallInt(Some(1)));
    let grouping = groups.text.find(", filtered AS").unwrap();
    assert_eq!(groups.text[..grouping], distribution.text[..grouping]);
    assert_eq!(groups.text[..grouping], variants.text[..grouping]);
}

#[test]
fn groups_and_distribution_select_the_same_columns() {
    let versions = Versions { identity: 2, evaluator: 1 };
    let selected = format!("SELECT {} FROM filtered", DnsGroupRepository::GROUP_COLUMNS);
    let groups = DnsGroupRepository::groups(dns_filter(), versions, None, None, None, None, 5);
    let distribution = DnsGroupRepository::distribution(dns_filter(), versions, None, 5);
    assert!(groups.text.contains(&selected));
    assert!(distribution.text.contains(&selected));
    assert!(DnsGroupRepository::GROUP_COLUMNS.contains(",exact_names,"));
    assert!(groups.text.ends_with("process_command DESC LIMIT $21"));
    assert!(distribution.text.ends_with("process_command ASC LIMIT $18"));
}

#[test]
fn the_changed_reads_share_the_comparison() {
    let changed = AttentionRepository::changed(id(1), &[id(2)], 3);
    let application = AttentionRepository::application_changed(id(1), vec![id(2)], id(3));
    let totals = AttentionRepository::organization_totals(id(1), &[id(2)], at(3), at(4));
    let selected = format!("SELECT {} FROM agg a", AttentionRepository::CHANGED_COLUMNS);
    assert!(changed.text.contains(&selected));
    assert!(application.text.contains(&selected));
    let comparison = changed.text.find(" SELECT a.project_id").unwrap();
    assert_eq!(changed.text[..comparison], application.text[..comparison]);
    assert_eq!(changed.text[..comparison], totals.text[..comparison]);
}

#[test]
fn only_the_cluster_facet_reads_the_clusters() {
    let facet = |column: FacetColumn| {
        InventoryRepository::facet_options(
            column,
            inventory_filter(),
            2,
            None,
            None,
            None,
            None,
            None,
            10,
        )
    };
    let columns = [
        (FacetColumn::Namespace, "s.namespace"),
        (FacetColumn::WorkloadKind, "s.workload_kind"),
        (FacetColumn::WorkloadName, "s.workload_name"),
        (FacetColumn::ContainerName, "s.container_name"),
    ];
    for (column, value) in columns {
        let text = facet(column).text;
        assert!(text.starts_with(&format!("SELECT {value} value,{value} label,count(DISTINCT i.id)")));
        assert!(text.contains(&format!(" GROUP BY {value},{value} HAVING ")));
        assert!(!text.contains("JOIN clusters"));
    }
    let cluster = facet(FacetColumn::Cluster).text;
    assert!(cluster.starts_with("SELECT s.cluster_id::text value,c.name label,count(DISTINCT i.id)"));
    assert!(cluster.contains(
        "JOIN clusters c ON c.organization_id=s.organization_id AND c.id=s.cluster_id WHERE \
         i.organization_id=$1 AND i.project_id=$2 AND i.application_id=$3 AND "
    ));
    assert!(cluster.contains(" GROUP BY s.cluster_id::text,c.name HAVING "));
}

#[test]
fn a_key_differing_in_its_digest_locks_another_group() {
    let one = EventGroupRepository::lock_existing(key(&[1]));
    let other = EventGroupRepository::lock_existing(key(&[2]));
    assert_eq!(one.text, other.text);
    assert_ne!(one, other);
    assert_eq!(one, EventGroupRepository::lock_existing(key(&[1])));
}

#[test]
fn both_group_writers_insert_alike() {
    let summary = Value::from("summary");
    let live =
        EventGroupRepository::insert_if_absent(id(9), key(&[1]), "exec", &summary, at(5), id(6));
    let derived =
        EventGroupRepository::upsert_derived(id(9), key(&[1]), "exec", &summary, at(5), id(6));
    let row = live.text.find("ON CONFLICT").unwrap();
    assert_eq!(live.text[..row], derived.text[..row]);
    assert_eq!(live.parameters, derived.parameters);
    assert!(live.text.contains("DO NOTHING"));
    assert!(derived.text.contains("DO UPDATE SET"));
    assert_eq!((live.fetch, derived.fetch), (Fetch::Optional, Fetch::One));
}

#[test]
fn both_grants_write_the_same_membership() {
    let plain = MembershipRepository::insert_organization_role(id(1), id(2), "member");
    let guarded = MembershipRepository::grant_organization_role_if_absent(id(1), id(2), "member");
    assert!(guarded.text.starts_with(plain.text.trim_end()));
    assert_eq!(plain.parameters, guarded.parameters);
    assert!(!plain.text.contains("ON CONFLICT"));
    assert!(guarded.text.contains("ON CONFLICT (organization_id, user_id) DO NOTHING"));
    let plain = MembershipRepository::insert_project_role(id(1), id(2), id(3), "viewer");
    let guarded = MembershipRepository::grant_project_role_if_absent(id(1), id(2), id(3), "viewer");
    assert!(guarded.text.starts_with(plain.text.trim_end()));
    assert_eq!(plain.parameters, guarded.parameters);
}

#[test]
fn a_row_writes_each_column_from_its_value() {
    let statement = Row::new(Style::Tight, "t")
        .set("a", id(1))
        .computed("b", "now()")
        .set("c", "x")
        .again("d", 1)
        .computed_from_both("e", "COALESCE(", 7i64, ",", 2, ")")
        .computed_from("f", "lower(", "Y", ")")
        .computed_again("g", "upper(", 2, ")")
        .finish(" ON CONFLICT DO NOTHING", Fetch::Affected);
    assert_eq!(
        statement.text,
        "INSERT INTO t(a,b,c,d,e,f,g) VALUES($1,now(),$2,$1,COALESCE($3,$2),lower($4),upper($2)) \
         ON CONFLICT DO NOTHING"
    );
    assert_eq!(
        statement.parameters,
        vec![
            Parameter::Uuid(Some(id(1))),
            Parameter::Text(Some("x".to_owned())),
            Parameter::BigInt(Some(7)),
            Parameter::Text(Some("Y".to_owned())),
        ],
    );
}

#[test]
fn a_row_numbers_its_placeholders_past_nine() {
    let mut row = Row::new(Style::Open, "t");
    for n in 1..=12i64 {
        row = row.set(if n == 1 { "a" } else { "b" }, n);
    }
    let statement = row.returning("id,a", Fetch::One);
    assert_eq!(
        statement.text,
        "INSERT INTO t (a,b,b,b,b,b,b,b,b,b,b,b) VALUES \
         ($1,$2,$3,$4,$5,$6,$7,$8,$9,$10,$11,$12) RETURNING id,a"
    );
    assert_eq!(statement.parameters.len(), 12);
}

#[test]
fn a_row_without_columns_is_still_laid_out() {
    let statement = Row::new(Style::Spaced, "t").finish("", Fetch::Nothing);
    assert_eq!(statement.text, "INSERT INTO t () VALUES ()");
    assert_eq!(statement.parameters, vec![]);
}

#[test]
fn a_locking_read_is_the_read_and_a_lock() {
    let read = InvitationRepository::get(id(1));
    let locked = InvitationRepository::get_for_update(id(1));
    assert_eq!(locked.text, format!("{} FOR UPDATE OF i", read.text));
    assert_eq!(locked.parameters, read.parameters);
    assert_eq!(locked.fetch, read.fetch);
    let read = InvitationRepository::by_token_digest(vec![1, 2]);
    let locked = InvitationRepository::by_token_digest_for_update(vec![1, 2]);
    assert_eq!(locked.text, format!("{} FOR UPDATE OF i", read.text));
    assert_eq!(locked.parameters, read.parameters);
}

#[test]
fn the_count_is_of_what_the_retry_selects() {
    let selected = NotificationDeliveryRepository::failed_for_retry(
        id(1),
        id(2),
        None,
        Some(at(3)),
        None,
        Some("timeout"),
        20,
    );
    let counted = NotificationDeliveryRepository::count_failed_for_retry(
        id(1),
        id(2),
        None,
        Some(at(3)),
        None,
        Some("timeout"),
    );
    let failed = counted.text.strip_prefix("SELECT count(*) FROM ").unwrap();
    assert!(selected
        .text
        .starts_with(&format!("SELECT d.id,d.recovery_generation FROM {failed}")));
    assert_eq!(selected.parameters[..6], counted.parameters[..]);
    assert_eq!(selected.parameters[6], Parameter::BigInt(Some(20)));
}

#[test]
fn both_queue_snapshots_select_the_same_columns() {
    let project = NotificationDeliveryRepository::project_queue_snapshot(id(1), id(2));
    let global = NotificationDeliveryRepository::queue_snapshot();
    assert!(project.text.contains(NotificationDeliveryRepository::QUEUE_SNAPSHOT));
    assert!(global.text.contains(NotificationDeliveryRepository::QUEUE_SNAPSHOT));
    assert_eq!(
        project.text.replace("organization_id=$1 AND project_id=$2 AND ", "").replace(
            " WHERE organization_id=$1 AND project_id=$2",
            "",
        ),
        global.text,
    );
}

#[test]
fn locking_a_project_locks_its_organization_first() {
    let lock = ProjectRepository::lock_for_update(id(1), id(2));
    assert_eq!(lock.statement(), Some(OrganizationRepository::lock_shared(id(1))));
    let lock = lock.advance(LockReply::Organization { found: true });
    assert_eq!(lock, ProjectLock::Project { organization_id: id(1), project_id: id(2) });
    let asked = lock.statement().unwrap();
    assert_eq!(
        asked.text,
        "SELECT runtime_closed_before FROM projects WHERE organization_id = $1 AND id = $2 FOR \
         UPDATE"
    );
    assert_eq!(
        asked.parameters,
        vec![Parameter::Uuid(Some(id(1))), Parameter::Uuid(Some(id(2)))],
    );
    assert_eq!(asked.fetch, Fetch::Optional);
    let held = LockedProject { runtime_closed_before: Some(at(7)) };
    let lock = lock.advance(LockReply::Project { row: Some(Some(at(7))) });
    assert_eq!(lock, ProjectLock::Done(Some(held)));
    assert_eq!(lock.statement(), None);
}

#[test]
fn a_missing_organization_locks_no_project() {
    let lock = ProjectRepository::lock_for_update(id(1), id(2))
        .advance(LockReply::Organization { found: false });
    assert_eq!(lock, ProjectLock::Done(None));
    assert_eq!(lock.statement(), None);
}

#[test]
fn a_missing_project_is_not_locked() {
    let lock = ProjectRepository::lock_for_update(id(1), id(2))
        .advance(LockReply::Organization { found: true })
        .advance(LockReply::Project { row: None });
    assert_eq!(lock, ProjectLock::Done(None));
}

#[test]
fn a_project_without_a_watermark_is_locked() {
    let lock = ProjectRepository::lock_for_update(id(1), id(2))
        .advance(LockReply::Organization { found: true })
        .advance(LockReply::Project { row: Some(None) });
    assert_eq!(lock, ProjectLock::Done(Some(LockedProject { runtime_closed_before: None })));
}

#[test]
fn a_reply_that_was_not_asked_for_changes_nothing() {
    let lock = ProjectRepository::lock_for_update(id(1), id(2));
    assert_eq!(lock.advance(LockReply::Project { row: Some(None) }), lock);
    let done = ProjectLock::Done(None);
    assert_eq!(done.advance(LockReply::Organization { found: true }), done);
}

#[test]
fn a_change_is_reported_when_a_row_was_affected() {
    assert!(!statement::changed(0));
    assert!(statement::changed(1));
    assert!(statement::changed(u64::MAX));
    assert!(statement::present(&Some(())));
    assert!(!statement::present::<()>(&None));
}

#[test]
fn statements_bind_in_order() {
    let statement = Statement::optional("SELECT $1,$2").bind("a").bind(Some(2i64)).bind(None::<Uuid>);
    assert_eq!(statement.text, "SELECT $1,$2");
    assert_eq!(
        statement.parameters,
        vec![
            Parameter::Text(Some("a".to_owned())),
            Parameter::BigInt(Some(2)),
            Parameter::Uuid(None),
        ],
    );
    assert_eq!(statement.fetch, Fetch::Optional);
}

#[test]
fn the_requested_status_is_stored() {
    let pending =
        OrganizationRepository::insert(id(1), "slug", "Name", OrganizationStatus::PendingOwner);
    assert_eq!(pending.parameters[3], Parameter::Text(Some("pending_owner".to_owned())));
    let active = OrganizationRepository::insert(id(1), "slug", "Name", OrganizationStatus::Active);
    assert_eq!(active.parameters[3], Parameter::Text(Some("active".to_owned())));
}
