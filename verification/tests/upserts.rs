//! Rows that are merged into stored ones, changes of rows, and conditions on
//! them.

use chrono::DateTime;
use repository::agent_health::AgentHealthRepository;
use repository::application_credentials::ApplicationCredentialRepository;
use repository::applications::ApplicationRepository;
use repository::clusters::ClusterRepository;
use repository::condition::{Conditions, Kind, Test};
use repository::deployments::DeploymentRepository;
use repository::email_actions::EmailActionRepository;
use repository::event_groups::{EventGroupRepository, GroupKey};
use repository::insert::{Row, Style};
use repository::inventory::InventoryRepository;
use repository::invitations::InvitationRepository;
use repository::memberships::MembershipRepository;
use repository::notification_deliveries::NotificationDeliveryRepository;
use repository::notification_retention::NotificationRetentionRepository;
use repository::organizations::OrganizationRepository;
use repository::policies::PolicyRepository;
use repository::provisioning::ProvisioningKeyRepository;
use repository::statement::{Fetch, Parameter, Timestamp};
use repository::update::{Changes, Form, Spelling};
use repository::upsert::{Gap, Target, Upsert};
use serde_json::Value;
use uuid::Uuid;

fn id(n: u128) -> Uuid {
    Uuid::from_u128(n)
}

fn at(seconds: i64) -> Timestamp {
    Timestamp { utc: DateTime::from_timestamp(seconds, 0).unwrap().naive_utc() }
}

#[test]
fn every_role_of_a_column_is_in_the_conflict_clause() {
    let statement = Upsert::new(Style::Tight, Target::Tight, "t")
        .key("k", id(1))
        .kept("a", "x")
        .key("l", 2i64)
        .kept_again("b", 1)
        .kept_one("c")
        .replaced_late("d", "y")
        .replaced("e", "z")
        .added("f", 3i64)
        .counted("g")
        .either("h", true)
        .earliest("i", at(4))
        .latest_again("j", 7)
        .newest_early("m", id(5), 11, "j")
        .finish(",n=now()", Fetch::Affected);
    assert_eq!(
        statement.text,
        "INSERT INTO t(k,a,l,b,c,d,e,f,g,h,i,j,m) \
         VALUES($1,$2,$3,$1,1,$4,$5,$6,1,$7,$8,$7,$9) ON CONFLICT(k,l) DO UPDATE SET \
         m=CASE WHEN t.m IS NULL OR EXCLUDED.j>=t.j THEN EXCLUDED.m ELSE t.m END,\
         e=EXCLUDED.e,f=t.f+EXCLUDED.f,g=t.g+1,h=t.h OR EXCLUDED.h,\
         i=LEAST(t.i,EXCLUDED.i),j=GREATEST(t.j,EXCLUDED.j),d=EXCLUDED.d,n=now()"
    );
    assert_eq!(
        statement.parameters,
        vec![
            Parameter::Uuid(Some(id(1))),
            Parameter::Text(Some("x".to_owned())),
            Parameter::BigInt(Some(2)),
            Parameter::Text(Some("y".to_owned())),
            Parameter::Text(Some("z".to_owned())),
            Parameter::BigInt(Some(3)),
            Parameter::Boolean(Some(true)),
            Parameter::Timestamp(Some(at(4))),
            Parameter::Uuid(Some(id(5))),
        ],
    );
    assert_eq!(statement.fetch, Fetch::Affected);
}

#[test]
fn a_key_is_laid_out_by_its_target() {
    let once = |target: Target| {
        Upsert::new(Style::Tight, target, "t")
            .key("a", 1i64)
            .key("b", 2i64)
            .finish_once(" RETURNING a", Fetch::Optional)
            .text
    };
    let row = "INSERT INTO t(a,b) VALUES($1,$2)";
    let rest = "DO NOTHING RETURNING a";
    assert_eq!(once(Target::Tight), format!("{row} ON CONFLICT(a,b) {rest}"));
    assert_eq!(once(Target::Open), format!("{row} ON CONFLICT (a,b) {rest}"));
    assert_eq!(once(Target::Spaced), format!("{row} ON CONFLICT (a, b) {rest}"));
    assert_eq!(once(Target::Lines), format!("{row}\n            ON CONFLICT (a, b) {rest}"));
}

#[test]
fn every_condition_has_its_text() {
    let text = Conditions::new()
        .compared_if_given("a", Test::Equal, Kind::Uuid, 3)
        .compared_if_given("b", Test::Less, Kind::Timestamp, 10)
        .compared_if_given("c", Test::AtLeast, Kind::Text, 11)
        .word("d", "failed")
        .is_true("e")
        .pending_as_given("f", "g", 5)
        .compared("h", Test::Equal, 1)
        .is_false("i")
        .is_null("j")
        .to_come("k")
        .equal_or_among("l", 6, 7)
        .into_text();
    assert_eq!(
        text,
        "($3::uuid IS NULL OR a=$3) AND ($10::timestamptz IS NULL OR b<$10) AND \
         ($11::text IS NULL OR c>=$11) AND d='failed' AND e=true AND \
         ($5::boolean IS NULL OR $5=(f IS NULL AND g>now())) AND h=$1 AND NOT i AND \
         j IS NULL AND k>now() AND (l=$6 OR l=ANY($7))"
    );
    assert_eq!(Conditions::new().into_text(), "");
}

#[test]
fn every_change_has_its_text() {
    let text = Changes::new(Form::Tight)
        .given("a", 2)
        .now("b")
        .null("c")
        .word("d", "done")
        .zero("e")
        .is_true("f")
        .now_once("g", Spelling::Upper)
        .now_once("h", Spelling::Lower)
        .given_once("i", 3)
        .incremented("j")
        .restarted_first("k", "j", 4)
        .restarted_last("l", "j", 4)
        .earliest_pair("m", "k", 4, 5)
        .now_if_other("n", "d", 6)
        .given_if_other("o", "d", 6, 7)
        .word_if_other("p", "d", 6, "user")
        .into_text();
    assert_eq!(
        text,
        "a=$2,b=now(),c=NULL,d='done',e=0,f=true,g=COALESCE(g,now()),h=coalesce(h,now()),\
         i=COALESCE(i,$3),j=j+1,k=CASE WHEN j=0 THEN $4 ELSE LEAST(k,$4) END,\
         l=CASE WHEN j=0 THEN $4 ELSE GREATEST(l,$4) END,\
         m=CASE WHEN ($4,$5)<(k,m) THEN $5 ELSE m END,\
         n=CASE WHEN d=$6 THEN n ELSE now() END,o=CASE WHEN d=$6 THEN o ELSE $7 END,\
         p=CASE WHEN d=$6 THEN p ELSE 'user' END"
    );
    assert_eq!(Changes::new(Form::Tight).into_text(), "");
}

#[test]
fn changes_can_stand_on_lines() {
    let text = Changes::new(Form::Lines)
        .restarted_first("a", "n", 2)
        .earliest_pair("b", "a", 2, 3)
        .given_once("c", 3)
        .incremented("n")
        .into_text();
    let next = ",\n                ";
    let part = "\n                    ";
    assert_eq!(
        text,
        format!(
            "a = CASE{part}WHEN n = 0 THEN $2 ELSE LEAST(a, $2) END{next}\
             b = CASE{part}WHEN ($2,$3) < (a, b) THEN $3{part}ELSE b END{next}\
             c = COALESCE(c, $3){next}n = n + 1"
        )
    );
}

#[test]
fn a_merged_row_is_keyed_over_lines() {
    let row = Row::new(Style::Tight, "t").set("a", 1i64).set("b", 2i64).set("c", 3i64);
    let statement = Upsert::of(row, Target::Block, "t")
        .keyed(1, Gap::Nothing, "b")
        .keyed(0, Gap::Line, "a")
        .replacing(2, "c")
        .finish("", Fetch::Nothing);
    assert_eq!(
        statement.text,
        "INSERT INTO t(a,b,c) VALUES($1,$2,$3)\n            ON CONFLICT (b,\n                         \
         a)\n            DO UPDATE SET\n                c = EXCLUDED.c"
    );
}

#[test]
fn a_row_is_merged_only_into_the_same_release() {
    let statement = DeploymentRepository::insert_revision(
        id(1),
        id(2),
        id(3),
        id(4),
        id(5),
        id(6),
        7,
        &[8],
        "s9",
        "s10",
        "s11",
        "s12",
        "s13",
        "s14",
        None,
        at(16),
    );
    let table = "kubernetes_workload_revisions";
    assert!(statement.text.ends_with(&format!(
        " WHERE {table}.release_id=EXCLUDED.release_id AND \
         {table}.identity_digest=EXCLUDED.identity_digest RETURNING id"
    )));
}

#[test]
fn a_natural_key_renames_the_stored_row() {
    let renamed = "DO UPDATE SET name = EXCLUDED.name RETURNING id";
    let cluster = ClusterRepository::upsert(id(1), id(2), "ext", "n");
    assert!(cluster
        .text
        .ends_with(&format!(" ON CONFLICT (organization_id, external_id) {renamed}")));
    let organization = OrganizationRepository::upsert_by_slug(id(1), "slug", "n");
    assert!(organization.text.ends_with(&format!(" ON CONFLICT (slug) {renamed}")));
    let application = ApplicationRepository::upsert_by_slug(id(1), id(2), id(3), "slug", "n");
    assert!(application.text.ends_with(&format!(" ON CONFLICT (project_id, slug) {renamed}")));
}

#[test]
fn a_first_revocation_stays() {
    let statement = ApplicationCredentialRepository::revoke(id(1));
    assert_eq!(
        statement.text,
        "UPDATE application_ingestion_credentials SET revoked_at=coalesce(revoked_at,now()) \
         WHERE id=$1"
    );
    let statement = ApplicationCredentialRepository::authenticate(&[1]);
    assert_eq!(
        statement.text,
        "UPDATE application_ingestion_credentials SET last_used_at=now() WHERE \
         credential_hash=$1 AND revoked_at IS NULL \
         RETURNING id,organization_id,project_id,application_id"
    );
}

#[test]
fn a_first_cancellation_stays() {
    let statement = PolicyRepository::cancel_suppression(id(1), id(2), id(3), id(4), id(5));
    assert_eq!(
        statement.text,
        "UPDATE runtime_policy_suppressions SET cancelled_at=COALESCE(cancelled_at,now()),\
         cancelled_by_user_id=COALESCE(cancelled_by_user_id,$5) WHERE organization_id=$1 AND \
         project_id=$2 AND application_id=$3 AND id=$4"
    );
}

#[test]
fn a_token_is_consumed_while_live() {
    let live = "revoked_at IS NULL AND ";
    let invitation = InvitationRepository::consume(id(1), id(2));
    assert_eq!(
        invitation.text,
        format!(
            "UPDATE invitations SET accepted_at=now(),accepted_by_user_id=$2 WHERE id=$1 AND \
             accepted_at IS NULL AND {live}replaced_at IS NULL AND expires_at>now()"
        )
    );
    let action = EmailActionRepository::consume(vec![1], "verify_email");
    assert_eq!(
        action.text,
        format!(
            "UPDATE user_email_actions SET consumed_at=now() WHERE id=(SELECT id FROM \
             user_email_actions WHERE token_digest=$1 AND purpose=$2 AND consumed_at IS NULL AND \
             {live}expires_at>now() FOR UPDATE) RETURNING user_id"
        )
    );
}

#[test]
fn a_session_ends_once() {
    let statement = AgentHealthRepository::end_session(id(1), at(2));
    assert_eq!(
        statement.text,
        "UPDATE agent_sessions SET disconnected_at=$2 WHERE id=$1 AND disconnected_at IS NULL"
    );
}

#[test]
fn an_emptied_group_restarts_its_window() {
    let statement = EventGroupRepository::record_occurrence(id(1), at(2), id(3));
    assert!(statement
        .text
        .contains("WHEN occurrence_count = 0 THEN $2 ELSE LEAST(first_seen_at, $2) END"));
    assert!(statement
        .text
        .contains("WHEN occurrence_count = 0 THEN $2 ELSE GREATEST(last_seen_at, $2) END"));
    let statement = InventoryRepository::record_occurrence(id(1), at(2));
    assert!(statement
        .text
        .contains("CASE WHEN occurrence_count=0 THEN $2 ELSE LEAST(first_seen_at,$2) END"));
    let statement = EventGroupRepository::increment_occurrence(id(1));
    assert_eq!(
        statement.text,
        "\n            UPDATE runtime_event_groups\n            SET occurrence_count = \
         occurrence_count + 1\n            WHERE id = $1\n            "
    );
}

#[test]
fn a_group_has_one_key_whoever_writes_it() {
    let key = GroupKey {
        organization_id: id(1),
        project_id: id(2),
        application_id: id(3),
        cluster_id: id(4),
        namespace: "ns",
        workload_kind: "wk",
        workload_name: "wn",
        fingerprint_version: 5,
        fingerprint_digest: &[6],
    };
    let summary = Value::from(7);
    let inserted =
        EventGroupRepository::insert_if_absent(id(8), key, "exec", &summary, at(9), id(10));
    let derived = EventGroupRepository::upsert_derived(id(8), key, "exec", &summary, at(9), id(10));
    let (row, nothing) = inserted.text.split_once("DO NOTHING").unwrap();
    let (same, update) = derived.text.split_once("DO UPDATE SET").unwrap();
    assert_eq!(row, same);
    assert_eq!(nothing, "\n            RETURNING id\n            ");
    assert!(!update.contains("first_seen_at") && !update.contains("occurrence_count"));
    assert_eq!(inserted.parameters, derived.parameters);
}

#[test]
fn a_status_that_is_set_again_keeps_who_set_it() {
    let statement = EventGroupRepository::set_status(id(1), id(2), "s3", id(4), &["c5"]);
    assert!(statement.text.starts_with(
        "UPDATE runtime_event_groups SET status=$3,status_changed_at=CASE WHEN status=$3 THEN \
         status_changed_at ELSE now() END,status_changed_by_user_id=CASE WHEN status=$3 THEN \
         status_changed_by_user_id ELSE $4 END,status_changed_by_kind=CASE WHEN status=$3 THEN \
         status_changed_by_kind ELSE 'user' END,updated_at=CASE WHEN status=$3 THEN updated_at \
         ELSE now() END WHERE organization_id=$1 AND id=$2 AND (status=$3 OR status=ANY($5))"
    ));
}

#[test]
fn only_its_owner_ends_a_lease() {
    let leased = " WHERE id=$1 AND lease_owner=$2";
    let retried = NotificationDeliveryRepository::schedule_retry(id(1), id(2), 3, 4, None);
    let finished = NotificationDeliveryRepository::finish(id(1), id(2), "failed", 4, None);
    let completed = PolicyRepository::complete_recomputation(id(1), id(2));
    let released = PolicyRepository::release_recomputation(id(1), id(2));
    assert!(retried.text.ends_with(leased));
    assert!(finished.text.ends_with(leased));
    assert!(completed.text.ends_with(leased));
    assert!(released.text.ends_with(leased));
}

#[test]
fn only_a_failed_delivery_is_requeued_and_only_a_waiting_one_cancelled() {
    let requeued = NotificationDeliveryRepository::requeue_failed(id(1), id(2), id(3), 4, id(5));
    assert!(requeued.text.starts_with("UPDATE notification_deliveries SET status='pending',"));
    assert!(requeued.text.ends_with(" AND id=$3 AND status='failed'"));
    let cancelled = NotificationDeliveryRepository::cancel_pending(id(1), id(2), id(3), id(4));
    assert!(cancelled.text.starts_with("UPDATE notification_deliveries SET status='cancelled',"));
    assert!(cancelled.text.ends_with(
        " AND id=$3 AND status='pending' AND lease_owner IS NULL AND lease_expires_at IS NULL"
    ));
}

#[test]
fn an_initialized_retention_is_left_alone() {
    let statement = NotificationRetentionRepository::initialize_organizations(true, 30);
    assert!(statement.text.ends_with(" WHERE NOT notification_retention_initialized"));
    assert!(statement.text.contains(",notification_retention_initialized=true,"));
}

#[test]
fn every_delta_is_added_to_the_stored_counter() {
    let statement = AgentHealthRepository::add_diagnostic_deltas(
        id(1),
        id(2),
        id(3),
        id(4),
        id(5),
        at(6),
        true,
        8,
        9,
        10,
        11,
        12,
        13,
        14,
        15,
        16,
    );
    let table = "application_agent_diagnostic_buckets";
    let (row, clause) = statement.text.split_once(" DO UPDATE SET ").unwrap();
    let columns = row.split_once('(').unwrap().1.split_once(')').unwrap().0;
    let key = row.rsplit_once('(').unwrap().1.trim_end_matches(')');
    for column in columns.split(',') {
        let added = format!("{column}={table}.{column}+EXCLUDED.{column}");
        let either = format!("{column}={table}.{column} OR EXCLUDED.{column}");
        let set = clause.contains(&added) || clause.contains(&either);
        assert_eq!(set, !key.split(',').any(|part| part == column), "{column}");
    }
    assert_eq!(clause.matches("+EXCLUDED.").count(), 9);
    assert_eq!(clause.matches(" OR EXCLUDED.").count(), 1);
}

#[test]
fn a_first_reservation_is_left_as_it_is() {
    let statement = ProvisioningKeyRepository::reserve(id(1), "create", &[2], &[3]);
    assert_eq!(
        statement.text,
        "INSERT INTO provisioning_idempotency_keys(id,operation,key_hash,request_fingerprint) \
         VALUES($1,$2,$3,$4) ON CONFLICT(operation,key_hash) DO NOTHING RETURNING id"
    );
}

#[test]
fn a_held_role_is_left_as_it_is() {
    let organization = MembershipRepository::grant_organization_role_if_absent(id(1), id(2), "m");
    assert!(organization
        .text
        .ends_with("ON CONFLICT (organization_id, user_id) DO NOTHING\n            "));
    let project = MembershipRepository::grant_project_role_if_absent(id(1), id(2), id(3), "m");
    assert!(project
        .text
        .ends_with("ON CONFLICT (project_id, user_id) DO NOTHING\n            "));
}

#[test]
fn an_event_joins_a_group_and_an_item_once() {
    let group = EventGroupRepository::add_release_membership(
        id(1),
        id(2),
        id(3),
        id(4),
        id(5),
        6,
        Some(id(7)),
    );
    assert!(group.text.ends_with(
        " ON CONFLICT (event_id, fingerprint_version) DO NOTHING RETURNING event_id"
    ));
    let item = InventoryRepository::add_event_membership(id(1), id(2), id(3), id(4), id(5), 6);
    assert!(item
        .text
        .ends_with(" ON CONFLICT (event_id,identity_version) DO NOTHING RETURNING event_id"));
    let link = InventoryRepository::link_group(id(1), id(2), id(3), id(4), id(5));
    assert!(link.text.ends_with(" ON CONFLICT (item_id,group_id) DO NOTHING"));
}

#[test]
fn the_latest_event_represents_a_group_in_a_release() {
    let statement = EventGroupRepository::record_release_occurrence(
        id(1),
        id(2),
        id(3),
        id(4),
        id(5),
        at(6),
        id(7),
    );
    let table = "runtime_event_group_releases";
    assert!(statement.text.ends_with(&format!(
        " DO UPDATE SET representative_event_id=CASE WHEN {table}.representative_event_id IS NULL \
         OR EXCLUDED.last_seen_at>={table}.last_seen_at THEN EXCLUDED.representative_event_id \
         ELSE {table}.representative_event_id END,\
         occurrence_count={table}.occurrence_count+1,\
         first_seen_at=LEAST({table}.first_seen_at,EXCLUDED.first_seen_at),\
         last_seen_at=GREATEST({table}.last_seen_at,EXCLUDED.last_seen_at),updated_at=now()"
    )));
}

#[test]
fn a_state_version_starts_at_one_and_counts_up() {
    let statement = PolicyRepository::bump_state_version(id(1), id(2), id(3));
    assert_eq!(
        statement.text,
        "INSERT INTO \
         runtime_policy_states(organization_id,project_id,application_id,state_version) \
         VALUES($1,$2,$3,1) ON CONFLICT(organization_id,project_id,application_id) DO UPDATE SET \
         state_version=runtime_policy_states.state_version+1,updated_at=now() \
         RETURNING state_version"
    );
}

#[test]
fn a_new_evaluation_replaces_the_stored_one() {
    let statement = PolicyRepository::store_sighting_evaluation(
        id(1),
        id(2),
        id(3),
        id(4),
        id(5),
        "s6",
        "s7",
        "s8",
        "s9",
        "s10",
        11,
        12,
        "s13",
        "s14",
        Some(id(15)),
        &Value::from(16),
    );
    let (row, clause) = statement.text.split_once(" DO UPDATE SET ").unwrap();
    let columns = row.split_once('(').unwrap().1.split_once(')').unwrap().0;
    let written: Vec<&str> = columns.split(',').collect();
    for column in &written[10..] {
        assert!(clause.contains(&format!("{column}=EXCLUDED.{column}")), "{column}");
    }
    for column in &written[..10] {
        assert!(!clause.contains(&format!("EXCLUDED.{column}")), "{column}");
    }
}

#[test]
fn an_active_suppression_is_uncancelled_and_expires_later() {
    let statement =
        PolicyRepository::suppression_page(id(1), id(2), id(3), None, Some(true), 6);
    assert!(statement
        .text
        .contains("($5::boolean IS NULL OR $5=(cancelled_at IS NULL AND expires_at>now()))"));
    assert_eq!(statement.parameters[4], Parameter::Boolean(Some(true)));
}

#[test]
fn a_delivery_is_retried_only_where_it_failed_and_its_destination_is_enabled() {
    let condition = "d.status='failed'";
    let selected =
        NotificationDeliveryRepository::failed_for_retry(id(1), id(2), None, None, None, None, 7);
    let counted = NotificationDeliveryRepository::count_failed_for_retry(
        id(1),
        id(2),
        None,
        None,
        None,
        None,
    );
    assert!(selected.text.contains(condition));
    assert!(counted.text.contains(condition));
    assert!(selected.text.contains("=true"));
    assert!(counted.text.contains("=true"));
}

#[test]
fn setting_a_status_gives_back_the_summary() {
    let statement = EventGroupRepository::set_status(id(1), id(2), "s3", id(4), &["c5"]);
    assert!(statement
        .text
        .ends_with(&format!(" RETURNING {}", EventGroupRepository::SUMMARY_COLUMNS)));
}
