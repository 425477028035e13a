//! Runtime inventory: the distinct behaviours observed per application, each
//! with a stable identity, the places they were sighted, and the runtime
//! groups they are linked to.
//!
//! Reads returning projections owned by an endpoint document the columns they
//! select.

use serde_json::Value;
use uuid::Uuid;
use vstd::prelude::*;

#[allow(unused_imports)]
use crate::statement::Bind;
use crate::condition::{Condition, Conditions, Database, Kind, Record, Test};
use crate::condition;
use crate::insert::Style;
use crate::insert;
use crate::statement::{Bound, Fetch, Statement, StatementView, Timestamp};
use crate::tenant::{After, Before, Layout, Start};
use crate::tenant;
use crate::text;
use crate::update::{Change, Changes, Form};
use crate::update;
use crate::upsert::{Table, Target, Upsert, UpsertView};
use crate::upsert;

verus! {

broadcast use tenant::known_aliases_name_tables;

/// The tenant path and the scope filters the inventory reads share. Text
/// filters match exactly; `search` is an `ILIKE` pattern over the item's
/// summary and its label.
#[derive(Clone, Copy, Debug)]
pub struct InventoryFilter<'a> {
    pub organization_id: Uuid,
    pub project_id: Uuid,
    pub application_id: Uuid,
    pub release_id: Option<Uuid>,
    pub cluster_id: Option<Uuid>,
    pub namespace: Option<&'a str>,
    pub workload_kind: Option<&'a str>,
    pub workload_name: Option<&'a str>,
    pub container_name: Option<&'a str>,
    pub observed_from: Option<Timestamp>,
    pub observed_to: Option<Timestamp>,
    pub operation: Option<&'a str>,
    pub search: Option<&'a str>,
}

impl<'a> InventoryFilter<'a> {
    /// The tenant path and the identity version, as the first four values of a
    /// statement.
    pub open spec fn path(self, identity_version: i16) -> Seq<Bound> {
        seq![
            self.organization_id.bound(),
            self.project_id.bound(),
            self.application_id.bound(),
            identity_version.bound(),
        ]
    }

    /// The filter's scope, from `release_id` to `search`, as ten values in a
    /// row.
    pub open spec fn scope(self) -> Seq<Bound> {
        seq![
            self.release_id.bound(),
            self.cluster_id.bound(),
            self.namespace.bound(),
            self.workload_kind.bound(),
            self.workload_name.bound(),
            self.container_name.bound(),
            self.observed_from.bound(),
            self.observed_to.bound(),
            self.operation.bound(),
            self.search.bound(),
        ]
    }
}

/// The sighting column a facet groups by.
#[derive(Clone, Copy, Debug, PartialEq, Eq, Structural)]
pub enum FacetColumn {
    Cluster,
    Namespace,
    WorkloadKind,
    WorkloadName,
    ContainerName,
}

impl FacetColumn {
    /// The expression for a facet's value.
    pub open spec fn value_text(self) -> Seq<char> {
        match self {
            FacetColumn::Cluster => "s.cluster_id::text"@,
            FacetColumn::Namespace => "s.namespace"@,
            FacetColumn::WorkloadKind => "s.workload_kind"@,
            FacetColumn::WorkloadName => "s.workload_name"@,
            FacetColumn::ContainerName => "s.container_name"@,
        }
    }

    /// The expression for a facet's label: a cluster's name, and otherwise the
    /// value itself.
    pub open spec fn label_text(self) -> Seq<char> {
        match self {
            FacetColumn::Cluster => "c.name"@,
            _ => self.value_text(),
        }
    }

    /// What a facet joins to the sightings: the clusters, where it needs their
    /// names, and otherwise nothing.
    pub open spec fn join_text(self) -> Seq<char> {
        match self {
            FacetColumn::Cluster =>
                "JOIN clusters c ON c.organization_id=s.organization_id AND c.id=s.cluster_id"@,
            _ => ""@,
        }
    }

    /// The expressions for a facet's value and label, and what it joins.
    fn expressions(self) -> (texts: (&'static str, &'static str, &'static str))
        ensures
            texts.0@ == self.value_text(),
            texts.1@ == self.label_text(),
            texts.2@ == self.join_text(),
    {
        match self {
            FacetColumn::Cluster => (
                "s.cluster_id::text",
                "c.name",
                "JOIN clusters c ON c.organization_id=s.organization_id AND c.id=s.cluster_id",
            ),
            FacetColumn::Namespace => ("s.namespace", "s.namespace", ""),
            FacetColumn::WorkloadKind => ("s.workload_kind", "s.workload_kind", ""),
            FacetColumn::WorkloadName => ("s.workload_name", "s.workload_name", ""),
            FacetColumn::ContainerName => ("s.container_name", "s.container_name", ""),
        }
    }
}

/// Binds the tenant path and the identity version to the next four
/// placeholders.
fn bind_path(
    statement: Statement,
    filter: InventoryFilter<'_>,
    identity_version: i16,
) -> (scoped: Statement)
    ensures
        scoped@ == (StatementView {
            parameters: statement@.parameters + filter.path(identity_version),
            ..statement@
        }),
{
    statement
        .bind(filter.organization_id)
        .bind(filter.project_id)
        .bind(filter.application_id)
        .bind(identity_version)
}

/// Binds the filter's scope, from `release_id` to `search`, to the next ten
/// placeholders.
fn bind_scope(statement: Statement, filter: InventoryFilter<'_>) -> (scoped: Statement)
    ensures
        scoped@ == (StatementView {
            parameters: statement@.parameters + filter.scope(),
            ..statement@
        }),
{
    statement
        .bind(filter.release_id)
        .bind(filter.cluster_id)
        .bind(filter.namespace)
        .bind(filter.workload_kind)
        .bind(filter.workload_name)
        .bind(filter.container_name)
        .bind(filter.observed_from)
        .bind(filter.observed_to)
        .bind(filter.operation)
        .bind(filter.search)
}

/// Runtime inventory items, their sightings and group links.
#[derive(Clone, Copy, Debug)]
pub struct InventoryRepository;

impl InventoryRepository {
    /// The item projection.
    pub const ITEM_COLUMNS: &'static str =
        "i.id,i.project_id,i.application_id,i.inventory_kind,i.identity_version,i.semantic_summary,(SELECT jsonb_build_object('display_name',l.display_name,'created_by_user_id',l.created_by_user_id,'updated_by_user_id',l.updated_by_user_id,'created_at',l.created_at,'updated_at',l.updated_at) FROM runtime_behavior_user_labels l WHERE l.organization_id=i.organization_id AND l.project_id=i.project_id AND l.application_id=i.application_id AND l.inventory_kind=i.inventory_kind AND l.identity_version=i.identity_version AND l.identity_digest=i.identity_digest) user_label,i.first_seen_at,i.last_seen_at,i.occurrence_count,(SELECT count(*) FROM runtime_inventory_releases r WHERE r.item_id=i.id) release_count,(SELECT count(DISTINCT s.cluster_id) FROM runtime_inventory_sightings s WHERE s.item_id=i.id) cluster_count,(SELECT count(DISTINCT (s.cluster_id,s.namespace)) FROM runtime_inventory_sightings s WHERE s.item_id=i.id) namespace_count,(SELECT count(DISTINCT (s.cluster_id,s.namespace,s.workload_kind,s.workload_name)) FROM runtime_inventory_sightings s WHERE s.item_id=i.id) workload_count,(SELECT count(DISTINCT (s.cluster_id,s.pod_uid)) FROM runtime_inventory_sightings s WHERE s.item_id=i.id) pod_count,(SELECT count(DISTINCT s.container_name) FROM runtime_inventory_sightings s WHERE s.item_id=i.id) container_count,(SELECT count(*) FROM runtime_inventory_group_links gl WHERE gl.item_id=i.id) group_count";

    pub const PROJECTION_BACKFILL_PAGE: &'static str =
        "SELECT e.id,e.event_id,e.organization_id,e.project_id,e.cluster_id,e.application_id,e.release_id,m.group_id,e.observed_at,e.node_name,e.namespace,e.pod_uid,e.pod_name,e.container_id,e.container_name,e.workload_uid,e.workload_kind,e.workload_name,e.cgroup_id,e.pid,e.tgid,e.process_command,e.event_schema_version,e.payload FROM runtime_events e JOIN runtime_event_group_memberships m ON m.event_id=e.id AND m.fingerprint_version=1 LEFT JOIN runtime_inventory_event_memberships im ON im.event_id=e.id AND im.identity_version=$4 ";

    pub const PROJECTION_BACKFILL_PAGE_TAIL: &'static str = " ORDER BY e.id LIMIT $7";

    /// The conditions on an event of a page, besides the path.
    pub open spec fn page_of_unprojected() -> Seq<Condition> {
        seq![
            Condition::ComparedIfGiven("e.application_id"@, Test::Equal, Kind::Uuid, 3),
            Condition::Null("im.event_id"@),
            Condition::ComparedIfGiven("e.id"@, Test::Greater, Kind::Uuid, 5),
            Condition::Compared("e.id"@, Test::AtMost, 6),
        ]
    }

    /// Grouped raw events of the project, or one application, after `cursor`
    /// up to `upper_bound` by id, that are not yet projected into the
    /// inventory under `identity_version`, at most `limit`.
    ///
    /// Selects the event row with its `group_id`.
    pub fn projection_backfill_page(
        organization_id: Uuid,
        project_id: Uuid,
        application_id: Option<Uuid>,
        identity_version: i16,
        cursor: Option<Uuid>,
        upper_bound: Uuid,
        limit: i64,
    ) -> (statement: Statement)
        ensures
            statement@ == StatementView::all(
                tenant::project_text(
                    Self::PROJECTION_BACKFILL_PAGE@,
                    Before::Where,
                    "e."@,
                    Layout::Tight,
                    After::And,
                    condition::all_text(Self::page_of_unprojected())
                        + Self::PROJECTION_BACKFILL_PAGE_TAIL@,
                ),
                seq![
                    organization_id.bound(),
                    project_id.bound(),
                    application_id.bound(),
                    identity_version.bound(),
                    cursor.bound(),
                    upper_bound.bound(),
                    limit.bound(),
                ],
            ),
            tenant::filters_by_project(statement@, organization_id, project_id),
    {
        let conditions = Conditions::new()
            .compared_if_given("e.application_id", Test::Equal, Kind::Uuid, 3)
            .is_null("im.event_id")
            .compared_if_given("e.id", Test::Greater, Kind::Uuid, 5)
            .compared("e.id", Test::AtMost, 6);
        assert(conditions@ =~= Self::page_of_unprojected());
        let tail = conditions.into_text().concat(Self::PROJECTION_BACKFILL_PAGE_TAIL);
        let text = tenant::project(
            Self::PROJECTION_BACKFILL_PAGE,
            Before::Where,
            "e.",
            Layout::Tight,
            After::And,
            tail.as_str(),
        );
        Statement::all(text.as_str())
            .bind(organization_id)
            .bind(project_id)
            .bind(application_id)
            .bind(identity_version)
            .bind(cursor)
            .bind(upper_bound)
            .bind(limit)
    }

    pub const RECONCILIATION: &'static str =
        "SELECT (SELECT count(*) FROM runtime_events e JOIN runtime_event_group_memberships gm ON gm.event_id=e.id AND gm.fingerprint_version=1 ";

    pub const RECONCILIATION_MEMBERSHIPS: &'static str =
        " source_event_count,(SELECT count(*) FROM runtime_inventory_event_memberships ";

    pub const RECONCILIATION_ITEMS: &'static str =
        "identity_version=$4) membership_count,(SELECT COALESCE(sum(occurrence_count),0)::bigint FROM runtime_inventory_items WHERE occurrence_count>0 ";

    pub const RECONCILIATION_FIRST_SOURCE: &'static str =
        "identity_version=$4) item_occurrence_count,(SELECT min(e.observed_at) FROM runtime_events e JOIN runtime_event_group_memberships gm ON gm.event_id=e.id AND gm.fingerprint_version=1 ";

    pub const RECONCILIATION_FIRST_PROJECTED: &'static str =
        " source_first_seen_at,(SELECT min(first_seen_at) FROM runtime_inventory_items WHERE occurrence_count>0 ";

    pub const RECONCILIATION_LAST_SOURCE: &'static str =
        "identity_version=$4) projected_first_seen_at,(SELECT max(e.observed_at) FROM runtime_events e JOIN runtime_event_group_memberships gm ON gm.event_id=e.id AND gm.fingerprint_version=1 ";

    pub const RECONCILIATION_LAST_PROJECTED: &'static str =
        " source_last_seen_at,(SELECT max(last_seen_at) FROM runtime_inventory_items WHERE occurrence_count>0 ";

    pub const RECONCILIATION_TAIL: &'static str = "identity_version=$4) projected_last_seen_at";

    /// The text that compares an application's grouped raw events with its
    /// inventory projection.
    pub open spec fn reconciliation_text() -> Seq<char> {
        let rest = tenant::application_text(
            Self::RECONCILIATION_LAST_PROJECTED@,
            Before::And,
            ""@,
            Layout::Tight,
            After::And,
            Self::RECONCILIATION_TAIL@,
        );
        let rest = tenant::application_text(
            Self::RECONCILIATION_LAST_SOURCE@,
            Before::Where,
            "e."@,
            Layout::Tight,
            After::Parenthesis,
            rest,
        );
        let rest = tenant::application_text(
            Self::RECONCILIATION_FIRST_PROJECTED@,
            Before::And,
            ""@,
            Layout::Tight,
            After::And,
            rest,
        );
        let rest = tenant::application_text(
            Self::RECONCILIATION_FIRST_SOURCE@,
            Before::Where,
            "e."@,
            Layout::Tight,
            After::Parenthesis,
            rest,
        );
        let rest = tenant::application_text(
            Self::RECONCILIATION_ITEMS@,
            Before::And,
            ""@,
            Layout::Tight,
            After::And,
            rest,
        );
        let rest = tenant::application_text(
            Self::RECONCILIATION_MEMBERSHIPS@,
            Before::Where,
            ""@,
            Layout::Tight,
            After::And,
            rest,
        );
        tenant::application_text(
            Self::RECONCILIATION@,
            Before::Where,
            "e."@,
            Layout::Tight,
            After::Parenthesis,
            rest,
        )
    }

    /// Compares the application's grouped raw events with its inventory
    /// projection under `identity_version`.
    ///
    /// Selects `source_event_count`, `membership_count`,
    /// `item_occurrence_count`, and the source and projected first and last
    /// seen times.
    pub fn reconciliation(
        organization_id: Uuid,
        project_id: Uuid,
        application_id: Uuid,
        identity_version: i16,
    ) -> (statement: Statement)
        ensures
            statement@ == StatementView::one(
                Self::reconciliation_text(),
                seq![
                    organization_id.bound(),
                    project_id.bound(),
                    application_id.bound(),
                    identity_version.bound(),
                ],
            ),
            tenant::filters_by_application(statement@, organization_id, project_id, application_id),
    {
        let rest = tenant::application(
            Self::RECONCILIATION_LAST_PROJECTED,
            Before::And,
            "",
            Layout::Tight,
            After::And,
            Self::RECONCILIATION_TAIL,
        );
        let rest = tenant::application(
            Self::RECONCILIATION_LAST_SOURCE,
            Before::Where,
            "e.",
            Layout::Tight,
            After::Parenthesis,
            rest.as_str(),
        );
        let rest = tenant::application(
            Self::RECONCILIATION_FIRST_PROJECTED,
            Before::And,
            "",
            Layout::Tight,
            After::And,
            rest.as_str(),
        );
        let rest = tenant::application(
            Self::RECONCILIATION_FIRST_SOURCE,
            Before::Where,
            "e.",
            Layout::Tight,
            After::Parenthesis,
            rest.as_str(),
        );
        let rest = tenant::application(
            Self::RECONCILIATION_ITEMS,
            Before::And,
            "",
            Layout::Tight,
            After::And,
            rest.as_str(),
        );
        let rest = tenant::application(
            Self::RECONCILIATION_MEMBERSHIPS,
            Before::Where,
            "",
            Layout::Tight,
            After::And,
            rest.as_str(),
        );
        let text = tenant::application(
            Self::RECONCILIATION,
            Before::Where,
            "e.",
            Layout::Tight,
            After::Parenthesis,
            rest.as_str(),
        );
        Statement::one(text.as_str())
            .bind(organization_id)
            .bind(project_id)
            .bind(application_id)
            .bind(identity_version)
    }

    pub const ITEM_COUNT_AND_STALENESS: &'static str =
        "SELECT count(*)::bigint,COALESCE(EXTRACT(EPOCH FROM (now()-max(updated_at)))::bigint,0) FROM runtime_inventory_items";

    /// How many inventory items exist, and how many seconds ago the most
    /// recently updated one changed (0 when there are none).
    pub fn item_count_and_staleness() -> (statement: Statement)
        ensures
            statement@ == StatementView::one(Self::ITEM_COUNT_AND_STALENESS@, seq![]),
    {
        Statement::one(Self::ITEM_COUNT_AND_STALENESS)
    }

    pub const IDENTITY_KEY: &'static str =
        "SELECT identity_version,identity_digest FROM runtime_inventory_items ";

    pub const IDENTITY_KEY_TAIL: &'static str = "id=$4";

    /// An item's identity version and digest.
    pub fn identity_key(
        organization_id: Uuid,
        project_id: Uuid,
        application_id: Uuid,
        item_id: Uuid,
    ) -> (statement: Statement)
        ensures
            statement@ == StatementView::one(
                tenant::application_text(
                    Self::IDENTITY_KEY@,
                    Before::Where,
                    ""@,
                    Layout::Tight,
                    After::And,
                    Self::IDENTITY_KEY_TAIL@,
                ),
                seq![
                    organization_id.bound(),
                    project_id.bound(),
                    application_id.bound(),
                    item_id.bound(),
                ],
            ),
            tenant::filters_by_application(statement@, organization_id, project_id, application_id),
    {
        let text = tenant::application(
            Self::IDENTITY_KEY,
            Before::Where,
            "",
            Layout::Tight,
            After::And,
            Self::IDENTITY_KEY_TAIL,
        );
        Statement::one(text.as_str())
            .bind(organization_id)
            .bind(project_id)
            .bind(application_id)
            .bind(item_id)
    }

    /// A new inventory item.
    pub open spec fn new_item(
        id: Uuid,
        organization_id: Uuid,
        project_id: Uuid,
        application_id: Uuid,
        inventory_kind: &str,
        identity_version: i16,
        identity_digest: &[u8],
        semantic_summary: &Value,
        observed_at: Timestamp,
    ) -> UpsertView {
        upsert::upsert(Style::Tight, Target::Open, "runtime_inventory_items"@)
            .kept("id"@, id.bound())
            .key("organization_id"@, organization_id.bound())
            .key("project_id"@, project_id.bound())
            .key("application_id"@, application_id.bound())
            .key("inventory_kind"@, inventory_kind.bound())
            .key("identity_version"@, identity_version.bound())
            .key("identity_digest"@, identity_digest.bound())
            .kept("semantic_summary"@, semantic_summary.bound())
            .kept("first_seen_at"@, observed_at.bound())
            .kept_again("last_seen_at"@, 9)
            .kept_one("occurrence_count"@)
    }

    /// Records a new inventory item for an identity, returning its id; `None`
    /// when the application already has that identity.
    pub fn insert_item(
        id: Uuid,
        organization_id: Uuid,
        project_id: Uuid,
        application_id: Uuid,
        inventory_kind: &str,
        identity_version: i16,
        identity_digest: &[u8],
        semantic_summary: &Value,
        observed_at: Timestamp,
    ) -> (statement: Statement)
        ensures
            statement@ == Self::new_item(
                id,
                organization_id,
                project_id,
                application_id,
                inventory_kind,
                identity_version,
                identity_digest,
                semantic_summary,
                observed_at,
            ).finish_once(" RETURNING id"@, Fetch::Optional),
    {
        Upsert::new(Style::Tight, Target::Open, "runtime_inventory_items")
            .kept("id", id)
            .key("organization_id", organization_id)
            .key("project_id", project_id)
            .key("application_id", application_id)
            .key("inventory_kind", inventory_kind)
            .key("identity_version", identity_version)
            .key("identity_digest", identity_digest)
            .kept("semantic_summary", semantic_summary)
            .kept("first_seen_at", observed_at)
            .kept_again("last_seen_at", 9)
            .kept_one("occurrence_count")
            .finish_once(" RETURNING id", Fetch::Optional)
    }

    pub const ITEM_ID_BY_IDENTITY: &'static str = "SELECT id FROM runtime_inventory_items ";

    pub const ITEM_ID_BY_IDENTITY_TAIL: &'static str = " FOR UPDATE";

    /// The conditions on the item of an identity, besides the path.
    pub open spec fn by_identity() -> Seq<Condition> {
        seq![
            Condition::Compared("inventory_kind"@, Test::Equal, 4),
            Condition::Compared("identity_version"@, Test::Equal, 5),
            Condition::Compared("identity_digest"@, Test::Equal, 6),
        ]
    }

    /// The id of the application's item with this identity.
    pub fn item_id_by_identity(
        organization_id: Uuid,
        project_id: Uuid,
        application_id: Uuid,
        inventory_kind: &str,
        identity_version: i16,
        identity_digest: &[u8],
    ) -> (statement: Statement)
        ensures
            statement@ == StatementView::one(
                tenant::application_text(
                    Self::ITEM_ID_BY_IDENTITY@,
                    Before::Where,
                    ""@,
                    Layout::Tight,
                    After::And,
                    condition::all_text(Self::by_identity()) + Self::ITEM_ID_BY_IDENTITY_TAIL@,
                ),
                seq![
                    organization_id.bound(),
                    project_id.bound(),
                    application_id.bound(),
                    inventory_kind.bound(),
                    identity_version.bound(),
                    identity_digest.bound(),
                ],
            ),
            tenant::filters_by_application(statement@, organization_id, project_id, application_id),
    {
        let conditions = Conditions::new()
            .compared("inventory_kind", Test::Equal, 4)
            .compared("identity_version", Test::Equal, 5)
            .compared("identity_digest", Test::Equal, 6);
        assert(conditions@ =~= Self::by_identity());
        let tail = conditions.into_text().concat(Self::ITEM_ID_BY_IDENTITY_TAIL);
        let text = tenant::application(
            Self::ITEM_ID_BY_IDENTITY,
            Before::Where,
            "",
            Layout::Tight,
            After::And,
            tail.as_str(),
        );
        Statement::one(text.as_str())
            .bind(organization_id)
            .bind(project_id)
            .bind(application_id)
            .bind(inventory_kind)
            .bind(identity_version)
            .bind(identity_digest)
    }

    /// An event as an occurrence of an item.
    pub open spec fn event_membership(
        organization_id: Uuid,
        project_id: Uuid,
        application_id: Uuid,
        event_id: Uuid,
        item_id: Uuid,
        identity_version: i16,
    ) -> UpsertView {
        upsert::upsert(Style::Tight, Target::Open, "runtime_inventory_event_memberships"@)
            .kept("organization_id"@, organization_id.bound())
            .kept("project_id"@, project_id.bound())
            .kept("application_id"@, application_id.bound())
            .key("event_id"@, event_id.bound())
            .kept("item_id"@, item_id.bound())
            .key("identity_version"@, identity_version.bound())
    }

    /// Makes an event an occurrence of an item under `identity_version`,
    /// once; `None` when it already was.
    pub fn add_event_membership(
        organization_id: Uuid,
        project_id: Uuid,
        application_id: Uuid,
        event_id: Uuid,
        item_id: Uuid,
        identity_version: i16,
    ) -> (statement: Statement)
        ensures
            statement@ == Self::event_membership(
                organization_id,
                project_id,
                application_id,
                event_id,
                item_id,
                identity_version,
            ).finish_once(" RETURNING event_id"@, Fetch::Optional),
    {
        Upsert::new(Style::Tight, Target::Open, "runtime_inventory_event_memberships")
            .kept("organization_id", organization_id)
            .kept("project_id", project_id)
            .kept("application_id", application_id)
            .key("event_id", event_id)
            .kept("item_id", item_id)
            .key("identity_version", identity_version)
            .finish_once(" RETURNING event_id", Fetch::Optional)
    }

    /// The item's summary, with a listener observed where it was or `$3` says so,
    /// and an accept observed where it was or `$4` says so.
    pub const OBSERVED_ENDPOINT: &'static str =
        "jsonb_set(jsonb_set(semantic_summary,'{listener_observed}',to_jsonb(COALESCE((semantic_summary->>'listener_observed')::boolean,false) OR $3)),'{accept_observed}',to_jsonb(COALESCE((semantic_summary->>'accept_observed')::boolean,false) OR $4))";

    /// What an occurrence of an inbound endpoint item changes.
    pub open spec fn inbound_occurrence() -> Seq<Change> {
        seq![
            Change::RestartedFirst("first_seen_at"@, "occurrence_count"@, 2),
            Change::RestartedLast("last_seen_at"@, "occurrence_count"@, 2),
            Change::Incremented("occurrence_count"@),
            Change::Computed("semantic_summary"@, Self::OBSERVED_ENDPOINT@),
            Change::Now("updated_at"@),
        ]
    }

    /// Counts an occurrence of an inbound endpoint item, widening its seen
    /// window and remembering whether a listener or an accept was observed.
    pub fn record_inbound_occurrence(
        item_id: Uuid,
        observed_at: Timestamp,
        listener_observed: bool,
        accept_observed: bool,
    ) -> (statement: Statement)
        ensures
            statement@ == StatementView::affected(
                Self::RECORD_OCCURRENCE@ + update::all_text(
                    Self::inbound_occurrence(),
                    Form::Tight,
                ) + Self::RECORD_OCCURRENCE_TAIL@,
                seq![
                    item_id.bound(),
                    observed_at.bound(),
                    listener_observed.bound(),
                    accept_observed.bound(),
                ],
            ),
    {
        let changes = Changes::new(Form::Tight)
            .restarted_first("first_seen_at", "occurrence_count", 2)
            .restarted_last("last_seen_at", "occurrence_count", 2)
            .incremented("occurrence_count")
            .computed("semantic_summary", Self::OBSERVED_ENDPOINT)
            .now("updated_at");
        assert(changes@ =~= Self::inbound_occurrence());
        let text = text::join(Self::RECORD_OCCURRENCE, changes.into_text().as_str()).concat(
            Self::RECORD_OCCURRENCE_TAIL,
        );
        Statement::affected(text.as_str())
            .bind(item_id)
            .bind(observed_at)
            .bind(listener_observed)
            .bind(accept_observed)
    }

    pub const RECORD_OCCURRENCE: &'static str = "UPDATE runtime_inventory_items SET ";

    pub const RECORD_OCCURRENCE_TAIL: &'static str = " WHERE id=$1";

    /// What an occurrence of an item changes.
    pub open spec fn occurrence() -> Seq<Change> {
        seq![
            Change::RestartedFirst("first_seen_at"@, "occurrence_count"@, 2),
            Change::RestartedLast("last_seen_at"@, "occurrence_count"@, 2),
            Change::Incremented("occurrence_count"@),
            Change::Now("updated_at"@),
        ]
    }

    /// Counts an occurrence of an item and widens its seen window.
    pub fn record_occurrence(item_id: Uuid, observed_at: Timestamp) -> (statement: Statement)
        ensures
            statement@ == StatementView::affected(
                Self::RECORD_OCCURRENCE@ + update::all_text(Self::occurrence(), Form::Tight)
                    + Self::RECORD_OCCURRENCE_TAIL@,
                seq![item_id.bound(), observed_at.bound()],
            ),
    {
        let changes = Changes::new(Form::Tight)
            .restarted_first("first_seen_at", "occurrence_count", 2)
            .restarted_last("last_seen_at", "occurrence_count", 2)
            .incremented("occurrence_count")
            .now("updated_at");
        assert(changes@ =~= Self::occurrence());
        let text = text::join(Self::RECORD_OCCURRENCE, changes.into_text().as_str()).concat(
            Self::RECORD_OCCURRENCE_TAIL,
        );
        Statement::affected(text.as_str()).bind(item_id).bind(observed_at)
    }

    /// The link of an item to a runtime group.
    pub open spec fn group_link(
        organization_id: Uuid,
        project_id: Uuid,
        application_id: Uuid,
        item_id: Uuid,
        group_id: Uuid,
    ) -> UpsertView {
        upsert::upsert(Style::Tight, Target::Open, "runtime_inventory_group_links"@)
            .kept("organization_id"@, organization_id.bound())
            .kept("project_id"@, project_id.bound())
            .kept("application_id"@, application_id.bound())
            .key("item_id"@, item_id.bound())
            .key("group_id"@, group_id.bound())
    }

    /// Links an item to a runtime group, once.
    pub fn link_group(
        organization_id: Uuid,
        project_id: Uuid,
        application_id: Uuid,
        item_id: Uuid,
        group_id: Uuid,
    ) -> (statement: Statement)
        ensures
            statement@ == Self::group_link(
                organization_id,
                project_id,
                application_id,
                item_id,
                group_id,
            ).finish_once(""@, Fetch::Affected),
    {
        Upsert::new(Style::Tight, Target::Open, "runtime_inventory_group_links")
            .kept("organization_id", organization_id)
            .kept("project_id", project_id)
            .kept("application_id", application_id)
            .key("item_id", item_id)
            .key("group_id", group_id)
            .finish_once("", Fetch::Affected)
    }

    /// An occurrence of an item in a release.
    pub open spec fn release_occurrence(
        organization_id: Uuid,
        project_id: Uuid,
        application_id: Uuid,
        item_id: Uuid,
        release_id: Uuid,
        observed_at: Timestamp,
    ) -> UpsertView {
        upsert::upsert(Style::Tight, Target::Open, "runtime_inventory_releases"@)
            .kept("organization_id"@, organization_id.bound())
            .kept("project_id"@, project_id.bound())
            .kept("application_id"@, application_id.bound())
            .key("item_id"@, item_id.bound())
            .key("release_id"@, release_id.bound())
            .counted("occurrence_count"@)
            .earliest("first_seen_at"@, observed_at.bound())
            .latest_again("last_seen_at"@, 6)
    }

    /// Counts an occurrence of an item in a release.
    pub fn record_release_occurrence(
        organization_id: Uuid,
        project_id: Uuid,
        application_id: Uuid,
        item_id: Uuid,
        release_id: Uuid,
        observed_at: Timestamp,
    ) -> (statement: Statement)
        ensures
            statement@ == Self::release_occurrence(
                organization_id,
                project_id,
                application_id,
                item_id,
                release_id,
                observed_at,
            ).finish(",updated_at=now()"@, Fetch::Affected),
    {
        Upsert::new(Style::Tight, Target::Open, "runtime_inventory_releases")
            .kept("organization_id", organization_id)
            .kept("project_id", project_id)
            .kept("application_id", application_id)
            .key("item_id", item_id)
            .key("release_id", release_id)
            .counted("occurrence_count")
            .earliest("first_seen_at", observed_at)
            .latest_again("last_seen_at", 6)
            .finish(",updated_at=now()", Fetch::Affected)
    }

    /// An occurrence of an item at one placement.
    pub open spec fn sighting(
        organization_id: Uuid,
        project_id: Uuid,
        application_id: Uuid,
        item_id: Uuid,
        cluster_id: Uuid,
        namespace: &str,
        workload_kind: &str,
        workload_name: &str,
        pod_uid: &str,
        pod_name: &str,
        container_name: &str,
        observed_at: Timestamp,
    ) -> UpsertView {
        upsert::upsert(Style::Tight, Target::Open, "runtime_inventory_sightings"@)
            .kept("organization_id"@, organization_id.bound())
            .kept("project_id"@, project_id.bound())
            .kept("application_id"@, application_id.bound())
            .key("item_id"@, item_id.bound())
            .key("cluster_id"@, cluster_id.bound())
            .key("namespace"@, namespace.bound())
            .key("workload_kind"@, workload_kind.bound())
            .key("workload_name"@, workload_name.bound())
            .key("pod_uid"@, pod_uid.bound())
            .replaced_late("pod_name"@, pod_name.bound())
            .key("container_name"@, container_name.bound())
            .counted("occurrence_count"@)
            .earliest("first_seen_at"@, observed_at.bound())
            .latest_again("last_seen_at"@, 12)
    }

    /// Counts an occurrence of an item at one placement.
    pub fn record_sighting(
        organization_id: Uuid,
        project_id: Uuid,
        application_id: Uuid,
        item_id: Uuid,
        cluster_id: Uuid,
        namespace: &str,
        workload_kind: &str,
        workload_name: &str,
        pod_uid: &str,
        pod_name: &str,
        container_name: &str,
        observed_at: Timestamp,
    ) -> (statement: Statement)
        ensures
            statement@ == Self::sighting(
                organization_id,
                project_id,
                application_id,
                item_id,
                cluster_id,
                namespace,
                workload_kind,
                workload_name,
                pod_uid,
                pod_name,
                container_name,
                observed_at,
            ).finish(",updated_at=now()"@, Fetch::Affected),
    {
        Upsert::new(Style::Tight, Target::Open, "runtime_inventory_sightings")
            .kept("organization_id", organization_id)
            .kept("project_id", project_id)
            .kept("application_id", application_id)
            .key("item_id", item_id)
            .key("cluster_id", cluster_id)
            .key("namespace", namespace)
            .key("workload_kind", workload_kind)
            .key("workload_name", workload_name)
            .key("pod_uid", pod_uid)
            .replaced_late("pod_name", pod_name)
            .key("container_name", container_name)
            .counted("occurrence_count")
            .earliest("first_seen_at", observed_at)
            .latest_again("last_seen_at", 12)
            .finish(",updated_at=now()", Fetch::Affected)
    }

    pub const LINK_EVENT_ITEMS_TO_GROUP: &'static str =
        "INSERT INTO runtime_inventory_group_links (organization_id,project_id,application_id,item_id,group_id) SELECT $1,$2,$3,m.item_id,$4 FROM runtime_inventory_event_memberships m ";

    pub const LINK_EVENT_ITEMS_TO_GROUP_TAIL: &'static str =
        "m.event_id=$5 AND m.identity_version=$6 ON CONFLICT (item_id,group_id) DO NOTHING";

    /// Links the inventory items an event belongs to under `identity_version`
    /// to a group, once.
    pub fn link_event_items_to_group(
        organization_id: Uuid,
        project_id: Uuid,
        application_id: Uuid,
        group_id: Uuid,
        event_id: Uuid,
        identity_version: i16,
    ) -> (statement: Statement)
        ensures
            statement@ == StatementView::affected(
                tenant::application_text(
                    Self::LINK_EVENT_ITEMS_TO_GROUP@,
                    Before::Where,
                    "m."@,
                    Layout::Tight,
                    After::And,
                    Self::LINK_EVENT_ITEMS_TO_GROUP_TAIL@,
                ),
                seq![
                    organization_id.bound(),
                    project_id.bound(),
                    application_id.bound(),
                    group_id.bound(),
                    event_id.bound(),
                    identity_version.bound(),
                ],
            ),
            tenant::filters_by_application(statement@, organization_id, project_id, application_id),
    {
        let text = tenant::application(
            Self::LINK_EVENT_ITEMS_TO_GROUP,
            Before::Where,
            "m.",
            Layout::Tight,
            After::And,
            Self::LINK_EVENT_ITEMS_TO_GROUP_TAIL,
        );
        Statement::affected(text.as_str())
            .bind(organization_id)
            .bind(project_id)
            .bind(application_id)
            .bind(group_id)
            .bind(event_id)
            .bind(identity_version)
    }

    pub const KIND_SUMMARY: &'static str =
        "SELECT CASE WHEN i.inventory_kind IN ('process_exit','container_termination','container_restart') THEN 'lifecycle' ELSE i.inventory_kind END kind,count(*)::bigint item_count,COALESCE(sum(i.occurrence_count),0)::bigint occurrence_count,min(i.first_seen_at) first_seen_at,max(i.last_seen_at) last_seen_at FROM runtime_inventory_items i WHERE i.occurrence_count>0 ";

    pub const KIND_SUMMARY_TAIL: &'static str = " GROUP BY 1";

    /// Where a search looks in an item.
    pub const SEARCHED: &'static str =
        "concat_ws(' ',i.semantic_summary->>'executable',i.semantic_summary->>'process_command',i.semantic_summary->>'destination_address',i.semantic_summary->>'destination_port',i.semantic_summary->>'local_address',i.semantic_summary->>'local_port',i.semantic_summary->>'name',i.semantic_summary->>'query_type',i.semantic_summary->>'syscall',i.semantic_summary->>'operation',i.semantic_summary->>'path',i.semantic_summary->>'new_path') ILIKE ";

    /// Where a search looks in the labels of an item.
    pub const SEARCHED_LABELS: &'static str =
        " OR EXISTS(SELECT 1 FROM runtime_behavior_user_labels l WHERE l.organization_id=i.organization_id AND l.project_id=i.project_id AND l.application_id=i.application_id AND l.inventory_kind=i.inventory_kind AND l.identity_version=i.identity_version AND l.identity_digest=i.identity_digest AND l.display_name ILIKE ";

    /// The text that asks whether the item was seen in the release at a
    /// placeholder.
    pub open spec fn released_text(number: nat) -> Seq<char> {
        "EXISTS(SELECT 1 FROM runtime_inventory_releases r WHERE r.item_id=i.id AND r.release_id="@
            + insert::placeholder(number) + ")"@
    }

    /// The text that asks whether the item has a sighting whose column holds the
    /// value at a placeholder.
    pub open spec fn sighted_text(column: Seq<char>, number: nat) -> Seq<char> {
        "EXISTS(SELECT 1 FROM runtime_inventory_sightings s WHERE s.item_id=i.id AND s."@ + column
            + "="@ + insert::placeholder(number) + ")"@
    }

    /// The text that asks whether the item, or a label of it, is like the pattern
    /// at a placeholder.
    pub open spec fn searched_text(number: nat) -> Seq<char> {
        Self::SEARCHED@ + insert::placeholder(number) + Self::SEARCHED_LABELS@
            + insert::placeholder(number) + ")"@
    }

    /// The conditions that narrow items to a filter's scope but for its search,
    /// with the values from `first` on.
    pub open spec fn narrowing(first: nat) -> Seq<Condition> {
        seq![
            Condition::AskedIfGiven(Self::released_text(first), Kind::Uuid, first),
            Condition::AskedIfGiven(
                Self::sighted_text("cluster_id"@, first + 1),
                Kind::Uuid,
                first + 1,
            ),
            Condition::AskedIfGiven(
                Self::sighted_text("namespace"@, first + 2),
                Kind::Text,
                first + 2,
            ),
            Condition::AskedIfGiven(
                Self::sighted_text("workload_kind"@, first + 3),
                Kind::Text,
                first + 3,
            ),
            Condition::AskedIfGiven(
                Self::sighted_text("workload_name"@, first + 4),
                Kind::Text,
                first + 4,
            ),
            Condition::AskedIfGiven(
                Self::sighted_text("container_name"@, first + 5),
                Kind::Text,
                first + 5,
            ),
            Condition::ComparedIfGiven("i.last_seen_at"@, Test::From, Kind::Timestamp, first + 6),
            Condition::ComparedIfGiven("i.first_seen_at"@, Test::UpTo, Kind::Timestamp, first + 7),
            Condition::ComparedIfGiven(
                "i.semantic_summary->>'operation'"@,
                Test::Equal,
                Kind::Text,
                first + 8,
            ),
        ]
    }

    /// Asks whether the item has a sighting whose column holds the value at a
    /// placeholder.
    fn sighted(column: &str, number: usize) -> (text: String)
        ensures
            text@ == Self::sighted_text(column@, number as nat),
    {
        "EXISTS(SELECT 1 FROM runtime_inventory_sightings s WHERE s.item_id=i.id AND s.".to_owned()
            .concat(column)
            .concat("=")
            .concat(insert::placeholder_string(number).as_str())
            .concat(")")
    }

    /// Asks whether the item, or a label of it, is like the pattern at a
    /// placeholder.
    fn searched(number: usize) -> (text: String)
        ensures
            text@ == Self::searched_text(number as nat),
    {
        let placeholder = insert::placeholder_string(number);
        Self::SEARCHED.to_owned()
            .concat(placeholder.as_str())
            .concat(Self::SEARCHED_LABELS)
            .concat(placeholder.as_str())
            .concat(")")
    }

    /// Adds the conditions that narrow items to a filter's scope but for its
    /// search, with the values from `first` on.
    fn narrowed(conditions: Conditions, first: usize) -> (result: Conditions)
        requires
            first <= 100,
        ensures
            result@ == conditions@ + Self::narrowing(first as nat),
    {
        let released =
            "EXISTS(SELECT 1 FROM runtime_inventory_releases r WHERE r.item_id=i.id AND r.release_id=".to_owned()
            .concat(insert::placeholder_string(first).as_str())
            .concat(")");
        let result = conditions
            .asked_if_given(released.as_str(), Kind::Uuid, first)
            .asked_if_given(
                Self::sighted("cluster_id", first + 1).as_str(),
                Kind::Uuid,
                first + 1,
            )
            .asked_if_given(Self::sighted("namespace", first + 2).as_str(), Kind::Text, first + 2)
            .asked_if_given(
                Self::sighted("workload_kind", first + 3).as_str(),
                Kind::Text,
                first + 3,
            )
            .asked_if_given(
                Self::sighted("workload_name", first + 4).as_str(),
                Kind::Text,
                first + 4,
            )
            .asked_if_given(
                Self::sighted("container_name", first + 5).as_str(),
                Kind::Text,
                first + 5,
            )
            .compared_if_given("i.last_seen_at", Test::From, Kind::Timestamp, first + 6)
            .compared_if_given("i.first_seen_at", Test::UpTo, Kind::Timestamp, first + 7)
            .compared_if_given(
                "i.semantic_summary->>'operation'",
                Test::Equal,
                Kind::Text,
                first + 8,
            );
        assert(result@ =~= conditions@ + Self::narrowing(first as nat));
        result
    }

    /// The conditions on an item that is summed up, besides the path.
    pub open spec fn summed_up() -> Seq<Condition> {
        seq![Condition::Compared("i.identity_version"@, Test::Equal, 4)] + Self::narrowing(5)
            + seq![Condition::AskedIfGiven(Self::searched_text(14), Kind::Text, 14)]
    }

    /// Item and occurrence counts and the seen window per inventory kind under
    /// the filter, with the lifecycle kinds folded into `lifecycle`.
    ///
    /// Selects `kind`, `item_count`, `occurrence_count`, `first_seen_at` and
    /// `last_seen_at`.
    ///
    /// `identity_version` is the version of the identities to read.
    pub fn kind_summary(
        filter: InventoryFilter<'_>,
        identity_version: i16,
    ) -> (statement: Statement)
        ensures
            statement@ == StatementView::all(
                tenant::application_text(
                    Self::KIND_SUMMARY@,
                    Before::And,
                    "i."@,
                    Layout::Tight,
                    After::And,
                    condition::all_text(Self::summed_up()) + Self::KIND_SUMMARY_TAIL@,
                ),
                filter.path(identity_version) + filter.scope(),
            ),
            tenant::filters_by_application(
                statement@,
                filter.organization_id,
                filter.project_id,
                filter.application_id,
            ),
    {
        let conditions = Conditions::new().compared("i.identity_version", Test::Equal, 4);
        let conditions = Self::narrowed(conditions, 5).asked_if_given(
            Self::searched(14).as_str(),
            Kind::Text,
            14,
        );
        assert(conditions@ =~= Self::summed_up());
        let tail = conditions.into_text().concat(Self::KIND_SUMMARY_TAIL);
        let text = tenant::application(
            Self::KIND_SUMMARY,
            Before::And,
            "i.",
            Layout::Tight,
            After::And,
            tail.as_str(),
        );
        let statement = bind_path(Statement::all(text.as_str()), filter, identity_version);
        bind_scope(statement, filter)
    }

    pub const DISTRIBUTION: &'static str =
        "WITH scoped AS MATERIALIZED (SELECT i.id,i.identity_digest,i.semantic_summary,CASE WHEN l.id IS NULL THEN NULL ELSE jsonb_build_object('display_name',l.display_name,'created_by_user_id',l.created_by_user_id,'updated_by_user_id',l.updated_by_user_id,'created_at',l.created_at,'updated_at',l.updated_at) END user_label,i.occurrence_count FROM runtime_inventory_items i LEFT JOIN runtime_behavior_user_labels l ON l.organization_id=i.organization_id AND l.project_id=i.project_id AND l.application_id=i.application_id AND l.inventory_kind=i.inventory_kind AND l.identity_version=i.identity_version AND l.identity_digest=i.identity_digest WHERE i.occurrence_count>0 ";

    pub const DISTRIBUTION_TAIL: &'static str =
        "), ranked AS (SELECT id,identity_digest,semantic_summary,user_label,occurrence_count,count(*) OVER()::bigint total_item_count,COALESCE(sum(occurrence_count) OVER(),0)::bigint total_occurrence_count FROM scoped) SELECT id,identity_digest,semantic_summary,user_label,occurrence_count,total_item_count,total_occurrence_count FROM ranked ORDER BY occurrence_count DESC,identity_digest ASC LIMIT $16";

    /// Whether the item, or the label that it is joined with, is like the pattern
    /// at `$15`.
    pub const IS_LIKE: &'static str =
        "concat_ws(' ',i.semantic_summary->>'executable',i.semantic_summary->>'process_command',i.semantic_summary->>'destination_address',i.semantic_summary->>'destination_port',i.semantic_summary->>'local_address',i.semantic_summary->>'local_port',i.semantic_summary->>'name',i.semantic_summary->>'query_type',i.semantic_summary->>'syscall',i.semantic_summary->>'operation',i.semantic_summary->>'path',i.semantic_summary->>'new_path',l.display_name) ILIKE $15";

    /// The conditions on an item of a distribution, besides the path.
    pub open spec fn distributed() -> Seq<Condition> {
        seq![
            Condition::Compared("i.identity_version"@, Test::Equal, 4),
            Condition::Compared("i.inventory_kind"@, Test::Equal, 5),
        ] + Self::narrowing(6) + seq![Condition::AskedIfGiven(Self::IS_LIKE@, Kind::Text, 15)]
    }

    /// The items of one kind under the filter with the most occurrences, at
    /// most `limit`, with totals over the whole filtered set.
    ///
    /// Selects `id`, `identity_digest`, `semantic_summary`, `user_label`,
    /// `occurrence_count`, `total_item_count` and `total_occurrence_count`.
    ///
    /// `identity_version` is the version of the identities to read.
    pub fn distribution(
        filter: InventoryFilter<'_>,
        identity_version: i16,
        kind: &str,
        limit: i64,
    ) -> (statement: Statement)
        ensures
            statement@ == StatementView::all(
                tenant::application_text(
                    Self::DISTRIBUTION@,
                    Before::And,
                    "i."@,
                    Layout::Tight,
                    After::And,
                    condition::all_text(Self::distributed()) + Self::DISTRIBUTION_TAIL@,
                ),
                filter.path(identity_version) + seq![kind.bound()] + filter.scope() + seq![
                    limit.bound(),
                ],
            ),
            tenant::filters_by_application(
                statement@,
                filter.organization_id,
                filter.project_id,
                filter.application_id,
            ),
    {
        let conditions = Conditions::new()
            .compared("i.identity_version", Test::Equal, 4)
            .compared("i.inventory_kind", Test::Equal, 5);
        let conditions = Self::narrowed(conditions, 6).asked_if_given(
            Self::IS_LIKE,
            Kind::Text,
            15,
        );
        assert(conditions@ =~= Self::distributed());
        let tail = conditions.into_text().concat(Self::DISTRIBUTION_TAIL);
        let text = tenant::application(
            Self::DISTRIBUTION,
            Before::And,
            "i.",
            Layout::Tight,
            After::And,
            tail.as_str(),
        );
        let statement = bind_path(Statement::all(text.as_str()), filter, identity_version)
            .bind(kind);
        bind_scope(statement, filter)
            .bind(limit)
    }

    pub const FACET_OPTIONS: &'static str =
        " label,count(DISTINCT i.id)::bigint item_count,COALESCE(sum(s.occurrence_count),0)::bigint occurrence_count FROM runtime_inventory_sightings s JOIN runtime_inventory_items i ON i.id=s.item_id ";

    pub const FACET_OPTIONS_SCOPE: &'static str =
        "i.identity_version=$4 AND ($5::text IS NULL OR i.inventory_kind=$5) AND ($6::uuid IS NULL OR EXISTS(SELECT 1 FROM runtime_inventory_releases r WHERE r.item_id=i.id AND r.release_id=$6)) AND ($7::uuid IS NULL OR s.cluster_id=$7) AND ($8::text IS NULL OR s.namespace=$8) AND ($9::text IS NULL OR s.workload_kind=$9) AND ($10::text IS NULL OR s.workload_name=$10) AND ($11::text IS NULL OR s.container_name=$11) AND ($12::timestamptz IS NULL OR s.last_seen_at >= $12) AND ($13::timestamptz IS NULL OR s.first_seen_at <= $13) AND ($14::text IS NULL OR i.semantic_summary->>'operation'=$14) AND ($15::text IS NULL OR concat_ws(' ',i.semantic_summary->>'executable',i.semantic_summary->>'process_command',i.semantic_summary->>'destination_address',i.semantic_summary->>'destination_port',i.semantic_summary->>'local_address',i.semantic_summary->>'local_port',i.semantic_summary->>'name',i.semantic_summary->>'query_type',i.semantic_summary->>'syscall',i.semantic_summary->>'operation',i.semantic_summary->>'path',i.semantic_summary->>'new_path') ILIKE $15 OR EXISTS(SELECT 1 FROM runtime_behavior_user_labels l WHERE l.organization_id=i.organization_id AND l.project_id=i.project_id AND l.application_id=i.application_id AND l.inventory_kind=i.inventory_kind AND l.identity_version=i.identity_version AND l.identity_digest=i.identity_digest AND l.display_name ILIKE $15)) AND ($16::text IS NULL OR concat_ws(' ',";

    pub const FACET_OPTIONS_GROUP: &'static str = ") ILIKE $16) GROUP BY ";

    pub const FACET_OPTIONS_HAVING: &'static str =
        " HAVING ($17::bigint IS NULL OR count(DISTINCT i.id)<$17 OR (count(DISTINCT i.id)=$17 AND (";

    pub const FACET_OPTIONS_ORDER: &'static str =
        ">$19)))) ORDER BY item_count DESC,label ASC,value ASC LIMIT $20";

    /// What precedes the tenant filter in a facet's text.
    pub open spec fn facet_head(column: FacetColumn) -> Seq<char> {
        "SELECT "@ + column.value_text() + " value,"@ + column.label_text() + Self::FACET_OPTIONS@
            + column.join_text() + " "@
    }

    /// What follows the tenant filter in a facet's text.
    pub open spec fn facet_tail(column: FacetColumn) -> Seq<char> {
        Self::FACET_OPTIONS_SCOPE@ + column.label_text() + ","@ + column.value_text()
            + Self::FACET_OPTIONS_GROUP@ + column.value_text() + ","@ + column.label_text()
            + Self::FACET_OPTIONS_HAVING@ + column.label_text() + ">$18 OR ("@
            + column.label_text() + "=$18 AND "@ + column.value_text()
            + Self::FACET_OPTIONS_ORDER@
    }

    /// The text that reads a facet's options.
    pub open spec fn facet_text(column: FacetColumn) -> Seq<char> {
        tenant::application_text(
            Self::facet_head(column),
            Before::Where,
            "i."@,
            Layout::Tight,
            After::And,
            Self::facet_tail(column),
        )
    }

    /// Reads a facet's options.
    fn facet(column: FacetColumn) -> (text: String)
        ensures
            text@ == Self::facet_text(column),
            tenant::conditions_on_application(text@, Start::First),
    {
        let (value, label, join) = column.expressions();
        let head = "SELECT ".to_owned()
            .concat(value)
            .concat(" value,")
            .concat(label)
            .concat(Self::FACET_OPTIONS)
            .concat(join)
            .concat(" ");
        let tail = Self::FACET_OPTIONS_SCOPE.to_owned()
            .concat(label)
            .concat(",")
            .concat(value)
            .concat(Self::FACET_OPTIONS_GROUP)
            .concat(value)
            .concat(",")
            .concat(label)
            .concat(Self::FACET_OPTIONS_HAVING)
            .concat(label)
            .concat(">$18 OR (")
            .concat(label)
            .concat("=$18 AND ")
            .concat(value)
            .concat(Self::FACET_OPTIONS_ORDER);
        tenant::application(
            head.as_str(),
            Before::Where,
            "i.",
            Layout::Tight,
            After::And,
            tail.as_str(),
        )
    }

    /// A page of the values of one sighting column under the filter, most
    /// items first, then by label and value, after the cursor when one is
    /// given. `facet_search` is an `ILIKE` pattern over label and value.
    ///
    /// Selects `value`, `label`, `item_count` and `occurrence_count`.
    ///
    /// `identity_version` is the version of the identities to read.
    pub fn facet_options(
        column: FacetColumn,
        filter: InventoryFilter<'_>,
        identity_version: i16,
        kind: Option<&str>,
        facet_search: Option<&str>,
        cursor_item_count: Option<i64>,
        cursor_label: Option<&str>,
        cursor_value: Option<&str>,
        fetch_limit: i64,
    ) -> (statement: Statement)
        ensures
            statement@ == StatementView::all(
                Self::facet_text(column),
                filter.path(identity_version) + seq![kind.bound()] + filter.scope() + seq![
                    facet_search.bound(),
                    cursor_item_count.bound(),
                    cursor_label.bound(),
                    cursor_value.bound(),
                    fetch_limit.bound(),
                ],
            ),
            tenant::filters_by_application(
                statement@,
                filter.organization_id,
                filter.project_id,
                filter.application_id,
            ),
    {
        let text = Self::facet(column);
        let statement = bind_path(Statement::all(text.as_str()), filter, identity_version)
            .bind(kind);
        bind_scope(statement, filter)
            .bind(facet_search)
            .bind(cursor_item_count)
            .bind(cursor_label)
            .bind(cursor_value)
            .bind(fetch_limit)
    }

    pub const ITEM_PAGE: &'static str = "runtime_inventory_items i WHERE i.occurrence_count>0 ";

    pub const ITEM_PAGE_TAIL: &'static str = " ORDER BY i.last_seen_at DESC,i.id DESC LIMIT $24";

    /// Whether the item is the one at `$16`, still of the identity at `$17`.
    pub const IS_IDENTIFIED: &'static str = "(i.id=$16 AND i.identity_digest=$17)";

    /// Whether a sighting of the item has the verdict at `$18`, by the current
    /// policy state and the evaluator version at `$21`.
    pub const IS_JUDGED: &'static str =
        "EXISTS(SELECT 1 FROM runtime_sighting_policy_evaluations e JOIN runtime_policy_states ps ON ps.organization_id=e.organization_id AND ps.project_id=e.project_id AND ps.application_id=e.application_id WHERE e.item_id=i.id AND e.policy_state_version=ps.state_version AND e.evaluator_version=$21 AND e.verdict=$18)";

    /// Whether a live suppression covers a sighting of the item, as `$19` says.
    pub const IS_SUPPRESSED: &'static str =
        "$19=EXISTS(SELECT 1 FROM runtime_inventory_sightings s JOIN runtime_policy_suppressions z ON z.organization_id=s.organization_id AND z.project_id=s.project_id AND z.application_id=s.application_id AND z.identity_version=i.identity_version AND z.identity_digest=i.identity_digest AND z.cancelled_at IS NULL AND z.expires_at>now() AND (cardinality(z.cluster_ids)=0 OR s.cluster_id=ANY(z.cluster_ids)) AND (cardinality(z.namespaces)=0 OR s.namespace=ANY(z.namespaces)) AND (cardinality(z.workload_kinds)=0 OR s.workload_kind=ANY(z.workload_kinds)) AND (cardinality(z.workload_names)=0 OR s.workload_name=ANY(z.workload_names)) WHERE s.item_id=i.id)";

    /// Whether a sighting of the item is still to be evaluated, as `$20` says.
    pub const IS_PENDING: &'static str =
        "$20=EXISTS(SELECT 1 FROM runtime_inventory_sightings s LEFT JOIN runtime_sighting_policy_evaluations e ON e.item_id=s.item_id AND e.cluster_id=s.cluster_id AND e.namespace=s.namespace AND e.workload_kind=s.workload_kind AND e.workload_name=s.workload_name AND e.pod_uid=s.pod_uid AND e.container_name=s.container_name LEFT JOIN runtime_policy_states ps ON ps.organization_id=s.organization_id AND ps.project_id=s.project_id AND ps.application_id=s.application_id WHERE s.item_id=i.id AND (e.item_id IS NULL OR e.policy_state_version<>COALESCE(ps.state_version,0) OR e.evaluator_version<>$21))";

    /// The conditions on an item of a page, besides the path.
    pub open spec fn page_of_items() -> Seq<Condition> {
        seq![
            Condition::Compared("i.identity_version"@, Test::Equal, 4),
            Condition::ComparedIfGiven("i.inventory_kind"@, Test::Equal, Kind::Text, 5),
        ] + Self::narrowing(6) + seq![
            Condition::AskedIfGiven(Self::searched_text(15), Kind::Text, 15),
            Condition::AskedIfGiven(Self::IS_IDENTIFIED@, Kind::Uuid, 16),
            Condition::AskedIfGiven(Self::IS_JUDGED@, Kind::Text, 18),
            Condition::AskedIfGiven(Self::IS_SUPPRESSED@, Kind::Boolean, 19),
            Condition::AskedIfGiven(Self::IS_PENDING@, Kind::Boolean, 20),
            Condition::PairIfGiven(
                "i.last_seen_at"@,
                "i.id"@,
                Test::Less,
                Kind::Timestamp,
                22,
                23,
            ),
        ]
    }

    /// A page of the items under the filter, most recently seen first, after
    /// the cursor when one is given. `identity` narrows to one item with
    /// that identity digest; `verdict`, `suppressed` and `evaluation_pending`
    /// filter on the current policy state of the item's sightings.
    ///
    /// Selects `id`, `project_id`, `application_id`, `inventory_kind`,
    /// `identity_version`, `semantic_summary`, `user_label`, `first_seen_at`,
    /// `last_seen_at`, `occurrence_count`, and the `release_count`,
    /// `cluster_count`, `namespace_count`, `workload_count`, `pod_count`,
    /// `container_count` and `group_count` of the item.
    ///
    /// `identity_version` is the version of the identities to read, and
    /// `evaluator_version` that of the evaluations that count as current.
    pub fn item_page(
        filter: InventoryFilter<'_>,
        identity_version: i16,
        kind: Option<&str>,
        identity_item_id: Option<Uuid>,
        identity_digest: Option<Vec<u8>>,
        verdict: Option<&str>,
        suppressed: Option<bool>,
        evaluation_pending: Option<bool>,
        evaluator_version: i16,
        cursor_last_seen_at: Option<Timestamp>,
        cursor_id: Option<Uuid>,
        fetch_limit: i64,
    ) -> (statement: Statement)
        ensures
            statement@ == StatementView::all(
                text::select_text(
                    Self::ITEM_COLUMNS@,
                    tenant::application_text(
                        Self::ITEM_PAGE@,
                        Before::And,
                        "i."@,
                        Layout::Tight,
                        After::And,
                        condition::all_text(Self::page_of_items()) + Self::ITEM_PAGE_TAIL@,
                    ),
                ),
                filter.path(identity_version) + seq![kind.bound()] + filter.scope() + seq![
                    identity_item_id.bound(),
                    identity_digest.bound(),
                    verdict.bound(),
                    suppressed.bound(),
                    evaluation_pending.bound(),
                    evaluator_version.bound(),
                    cursor_last_seen_at.bound(),
                    cursor_id.bound(),
                    fetch_limit.bound(),
                ],
            ),
            tenant::filters_by_application(
                statement@,
                filter.organization_id,
                filter.project_id,
                filter.application_id,
            ),
            text::gives(statement@.text, Self::ITEM_COLUMNS@),
    {
        let conditions = Conditions::new()
            .compared("i.identity_version", Test::Equal, 4)
            .compared_if_given("i.inventory_kind", Test::Equal, Kind::Text, 5);
        let conditions = Self::narrowed(conditions, 6)
            .asked_if_given(Self::searched(15).as_str(), Kind::Text, 15)
            .asked_if_given(Self::IS_IDENTIFIED, Kind::Uuid, 16)
            .asked_if_given(Self::IS_JUDGED, Kind::Text, 18)
            .asked_if_given(Self::IS_SUPPRESSED, Kind::Boolean, 19)
            .asked_if_given(Self::IS_PENDING, Kind::Boolean, 20)
            .pair_if_given("i.last_seen_at", "i.id", Test::Less, Kind::Timestamp, 22, 23);
        assert(conditions@ =~= Self::page_of_items());
        let tail = conditions.into_text().concat(Self::ITEM_PAGE_TAIL);
        let rows = tenant::application(
            Self::ITEM_PAGE,
            Before::And,
            "i.",
            Layout::Tight,
            After::And,
            tail.as_str(),
        );
        let text = text::select(Self::ITEM_COLUMNS, rows.as_str());
        let statement = bind_path(Statement::all(text.as_str()), filter, identity_version)
            .bind(kind);
        bind_scope(statement, filter)
            .bind(identity_item_id)
            .bind(identity_digest)
            .bind(verdict)
            .bind(suppressed)
            .bind(evaluation_pending)
            .bind(evaluator_version)
            .bind(cursor_last_seen_at)
            .bind(cursor_id)
            .bind(fetch_limit)
    }

    pub const PUT_USER_LABEL: &'static str =
        "INSERT INTO runtime_behavior_user_labels(id,organization_id,project_id,application_id,inventory_kind,identity_version,identity_digest,display_name,created_by_user_id,updated_by_user_id) SELECT gen_random_uuid(),i.organization_id,i.project_id,i.application_id,i.inventory_kind,i.identity_version,i.identity_digest,$5,$6,$6 FROM runtime_inventory_items i ";

    pub const PUT_USER_LABEL_TAIL: &'static str =
        "i.id=$4 ON CONFLICT (organization_id,project_id,application_id,inventory_kind,identity_version,identity_digest) DO UPDATE SET display_name=EXCLUDED.display_name,updated_by_user_id=EXCLUDED.updated_by_user_id,updated_at=CASE WHEN runtime_behavior_user_labels.display_name=EXCLUDED.display_name THEN runtime_behavior_user_labels.updated_at ELSE now() END WHERE $7::timestamptz IS NULL OR runtime_behavior_user_labels.updated_at=$7 RETURNING display_name,created_by_user_id,updated_by_user_id,created_at,updated_at";

    /// Sets the display name users gave an inventory item's identity, with
    /// optimistic concurrency: when `expected_updated_at` is given, an
    /// existing label is only replaced if it was last updated then. The label
    /// keeps its update time when the name does not change. `None` when there
    /// is no such item or the expectation failed.
    ///
    /// Selects `display_name`, `created_by_user_id`, `updated_by_user_id`,
    /// `created_at` and `updated_at`.
    pub fn put_user_label(
        organization_id: Uuid,
        project_id: Uuid,
        application_id: Uuid,
        item_id: Uuid,
        display_name: String,
        user_id: Uuid,
        expected_updated_at: Option<Timestamp>,
    ) -> (statement: Statement)
        ensures
            statement@ == StatementView::optional(
                tenant::application_text(
                    Self::PUT_USER_LABEL@,
                    Before::Where,
                    "i."@,
                    Layout::Tight,
                    After::And,
                    Self::PUT_USER_LABEL_TAIL@,
                ),
                seq![
                    organization_id.bound(),
                    project_id.bound(),
                    application_id.bound(),
                    item_id.bound(),
                    display_name.bound(),
                    user_id.bound(),
                    expected_updated_at.bound(),
                ],
            ),
            tenant::filters_by_application(statement@, organization_id, project_id, application_id),
    {
        let text = tenant::application(
            Self::PUT_USER_LABEL,
            Before::Where,
            "i.",
            Layout::Tight,
            After::And,
            Self::PUT_USER_LABEL_TAIL,
        );
        Statement::optional(text.as_str())
            .bind(organization_id)
            .bind(project_id)
            .bind(application_id)
            .bind(item_id)
            .bind(display_name)
            .bind(user_id)
            .bind(expected_updated_at)
    }

    pub const DELETE_USER_LABEL: &'static str =
        "DELETE FROM runtime_behavior_user_labels l USING runtime_inventory_items i ";

    pub const DELETE_USER_LABEL_TAIL: &'static str =
        "i.id=$4 AND l.organization_id=i.organization_id AND l.project_id=i.project_id AND l.application_id=i.application_id AND l.inventory_kind=i.inventory_kind AND l.identity_version=i.identity_version AND l.identity_digest=i.identity_digest AND ($5::timestamptz IS NULL OR l.updated_at=$5)";

    /// Deletes the label of an inventory item's identity; with
    /// `expected_updated_at`, only if it was last updated then.
    pub fn delete_user_label(
        organization_id: Uuid,
        project_id: Uuid,
        application_id: Uuid,
        item_id: Uuid,
        expected_updated_at: Option<Timestamp>,
    ) -> (statement: Statement)
        ensures
            statement@ == StatementView::affected(
                tenant::application_text(
                    Self::DELETE_USER_LABEL@,
                    Before::Where,
                    "i."@,
                    Layout::Tight,
                    After::And,
                    Self::DELETE_USER_LABEL_TAIL@,
                ),
                seq![
                    organization_id.bound(),
                    project_id.bound(),
                    application_id.bound(),
                    item_id.bound(),
                    expected_updated_at.bound(),
                ],
            ),
            tenant::filters_by_application(statement@, organization_id, project_id, application_id),
    {
        let text = tenant::application(
            Self::DELETE_USER_LABEL,
            Before::Where,
            "i.",
            Layout::Tight,
            After::And,
            Self::DELETE_USER_LABEL_TAIL,
        );
        Statement::affected(text.as_str())
            .bind(organization_id)
            .bind(project_id)
            .bind(application_id)
            .bind(item_id)
            .bind(expected_updated_at)
    }

    pub const USER_LABEL_EXISTS: &'static str =
        "SELECT EXISTS(SELECT 1 FROM runtime_behavior_user_labels l JOIN runtime_inventory_items i ON i.organization_id=l.organization_id AND i.project_id=l.project_id AND i.application_id=l.application_id AND i.inventory_kind=l.inventory_kind AND i.identity_version=l.identity_version AND i.identity_digest=l.identity_digest WHERE i.id=$1)";

    /// Reports whether the identity of an inventory item has a label.
    pub fn user_label_exists(item_id: Uuid) -> (statement: Statement)
        ensures
            statement@ == StatementView::one(Self::USER_LABEL_EXISTS@, seq![item_id.bound()]),
    {
        Statement::one(Self::USER_LABEL_EXISTS).bind(item_id)
    }

    pub const IS_KNOWN: &'static str = "SELECT EXISTS(SELECT 1 FROM runtime_inventory_items ";

    pub const IS_KNOWN_TAIL: &'static str = ")";

    /// The conditions on a known item, besides the path.
    pub open spec fn known_item() -> Seq<Condition> {
        seq![
            Condition::Compared("id"@, Test::Equal, 4),
            Condition::Compared("identity_version"@, Test::Equal, 5),
        ]
    }

    /// Reports whether the application has this inventory item under the
    /// current identity version.
    pub fn is_known(
        organization_id: Uuid,
        project_id: Uuid,
        application_id: Uuid,
        item_id: Uuid,
        identity_version: i16,
    ) -> (statement: Statement)
        ensures
            statement@ == StatementView::one(
                tenant::application_text(
                    Self::IS_KNOWN@,
                    Before::Where,
                    ""@,
                    Layout::Tight,
                    After::And,
                    condition::all_text(Self::known_item()) + Self::IS_KNOWN_TAIL@,
                ),
                seq![
                    organization_id.bound(),
                    project_id.bound(),
                    application_id.bound(),
                    item_id.bound(),
                    identity_version.bound(),
                ],
            ),
            tenant::filters_by_application(statement@, organization_id, project_id, application_id),
    {
        let conditions = Conditions::new()
            .compared("id", Test::Equal, 4)
            .compared("identity_version", Test::Equal, 5);
        assert(conditions@ =~= Self::known_item());
        let tail = conditions.into_text().concat(Self::IS_KNOWN_TAIL);
        let text = tenant::application(
            Self::IS_KNOWN,
            Before::Where,
            "",
            Layout::Tight,
            After::And,
            tail.as_str(),
        );
        Statement::one(text.as_str())
            .bind(organization_id)
            .bind(project_id)
            .bind(application_id)
            .bind(item_id)
            .bind(identity_version)
    }

    pub const ITEM_CURSOR: &'static str =
        "SELECT last_seen_at,id FROM runtime_inventory_items ";

    pub const ITEM_CURSOR_TAIL: &'static str = "id=$4 AND identity_version=$5";

    /// Resolves an item id used as a list cursor into its
    /// `(last_seen_at, id)` ordering key.
    pub fn item_cursor(
        organization_id: Uuid,
        project_id: Uuid,
        application_id: Uuid,
        item_id: Uuid,
        identity_version: i16,
    ) -> (statement: Statement)
        ensures
            statement@ == StatementView::optional(
                tenant::application_text(
                    Self::ITEM_CURSOR@,
                    Before::Where,
                    ""@,
                    Layout::Tight,
                    After::And,
                    Self::ITEM_CURSOR_TAIL@,
                ),
                seq![
                    organization_id.bound(),
                    project_id.bound(),
                    application_id.bound(),
                    item_id.bound(),
                    identity_version.bound(),
                ],
            ),
            tenant::filters_by_application(statement@, organization_id, project_id, application_id),
    {
        let text = tenant::application(
            Self::ITEM_CURSOR,
            Before::Where,
            "",
            Layout::Tight,
            After::And,
            Self::ITEM_CURSOR_TAIL,
        );
        Statement::optional(text.as_str())
            .bind(organization_id)
            .bind(project_id)
            .bind(application_id)
            .bind(item_id)
            .bind(identity_version)
    }

    pub const ITEM: &'static str = "runtime_inventory_items i ";

    pub const ITEM_TAIL: &'static str = "i.id=$4 AND i.identity_version=$5";

    /// One inventory item of the application with the columns of
    /// [`Self::item_page`].
    pub fn item(
        organization_id: Uuid,
        project_id: Uuid,
        application_id: Uuid,
        item_id: Uuid,
        identity_version: i16,
    ) -> (statement: Statement)
        ensures
            statement@ == StatementView::optional(
                text::select_text(
                    Self::ITEM_COLUMNS@,
                    tenant::application_text(
                        Self::ITEM@,
                        Before::Where,
                        "i."@,
                        Layout::Tight,
                        After::And,
                        Self::ITEM_TAIL@,
                    ),
                ),
                seq![
                    organization_id.bound(),
                    project_id.bound(),
                    application_id.bound(),
                    item_id.bound(),
                    identity_version.bound(),
                ],
            ),
            tenant::filters_by_application(statement@, organization_id, project_id, application_id),
            text::gives(statement@.text, Self::ITEM_COLUMNS@),
    {
        let rows = tenant::application(
            Self::ITEM,
            Before::Where,
            "i.",
            Layout::Tight,
            After::And,
            Self::ITEM_TAIL,
        );
        let text = text::select(Self::ITEM_COLUMNS, rows.as_str());
        Statement::optional(text.as_str())
            .bind(organization_id)
            .bind(project_id)
            .bind(application_id)
            .bind(item_id)
            .bind(identity_version)
    }

    pub const PLACEMENT_SUMMARY: &'static str =
        "SELECT jsonb_build_object('placement_count',count(*),'evaluation_pending',count(*) FILTER (WHERE e.item_id IS NULL OR e.policy_state_version<>COALESCE(ps.state_version,0) OR e.evaluator_version<>$5),'verdicts',jsonb_build_object('expected',count(*) FILTER (WHERE e.policy_state_version=COALESCE(ps.state_version,0) AND e.evaluator_version=$5 AND e.verdict='expected'),'requires_review',count(*) FILTER (WHERE e.policy_state_version=COALESCE(ps.state_version,0) AND e.evaluator_version=$5 AND e.verdict='requires_review'),'policy_conflict',count(*) FILTER (WHERE e.policy_state_version=COALESCE(ps.state_version,0) AND e.evaluator_version=$5 AND e.verdict='policy_conflict'),'unclassified',count(*) FILTER (WHERE e.policy_state_version=COALESCE(ps.state_version,0) AND e.evaluator_version=$5 AND e.verdict='unclassified'))) FROM runtime_inventory_sightings s LEFT JOIN runtime_sighting_policy_evaluations e ON e.item_id=s.item_id AND e.cluster_id=s.cluster_id AND e.namespace=s.namespace AND e.workload_kind=s.workload_kind AND e.workload_name=s.workload_name AND e.pod_uid=s.pod_uid AND e.container_name=s.container_name LEFT JOIN runtime_policy_states ps ON ps.organization_id=s.organization_id AND ps.project_id=s.project_id AND ps.application_id=s.application_id ";

    pub const PLACEMENT_SUMMARY_TAIL: &'static str = "s.item_id=$4";

    /// Summarises the policy evaluations of an item's sightings: how many
    /// placements there are, how many await evaluation, and how many hold
    /// each current verdict.
    pub fn placement_summary(
        organization_id: Uuid,
        project_id: Uuid,
        application_id: Uuid,
        item_id: Uuid,
        evaluator_version: i16,
    ) -> (statement: Statement)
        ensures
            statement@ == StatementView::one(
                tenant::application_text(
                    Self::PLACEMENT_SUMMARY@,
                    Before::Where,
                    "s."@,
                    Layout::Tight,
                    After::And,
                    Self::PLACEMENT_SUMMARY_TAIL@,
                ),
                seq![
                    organization_id.bound(),
                    project_id.bound(),
                    application_id.bound(),
                    item_id.bound(),
                    evaluator_version.bound(),
                ],
            ),
            tenant::filters_by_application(statement@, organization_id, project_id, application_id),
    {
        let text = tenant::application(
            Self::PLACEMENT_SUMMARY,
            Before::Where,
            "s.",
            Layout::Tight,
            After::And,
            Self::PLACEMENT_SUMMARY_TAIL,
        );
        Statement::one(text.as_str())
            .bind(organization_id)
            .bind(project_id)
            .bind(application_id)
            .bind(item_id)
            .bind(evaluator_version)
    }

    pub const RELEASE_PRESENCE_PAGE: &'static str =
        "SELECT r.id release_id,release_display_name(a.name,r.source,r.version,r.identity_digest,r.identity_components) release_display_name,r.version,r.deployed_at,CASE WHEN ir.release_id IS NOT NULL AND ir.occurrence_count>0 THEN 'observed' WHEN EXISTS(SELECT 1 FROM projects p WHERE p.id=r.project_id AND r.deployed_at<p.runtime_closed_before) THEN 'unknown' WHEN EXISTS(SELECT 1 FROM runtime_events e WHERE e.organization_id=r.organization_id AND e.project_id=r.project_id AND e.application_id=r.application_id AND e.release_id=r.id) THEN 'not_observed' ELSE 'unknown' END presence,ir.occurrence_count,ir.first_seen_at,ir.last_seen_at,(SELECT count(*) FROM runtime_events e WHERE e.organization_id=r.organization_id AND e.project_id=r.project_id AND e.application_id=r.application_id AND e.release_id=r.id) release_evidence_count FROM releases r JOIN applications a ON a.id=r.application_id LEFT JOIN runtime_inventory_releases ir ON ir.release_id=r.id AND ir.item_id=$4 ";

    pub const RELEASE_PRESENCE_PAGE_TAIL: &'static str = " ORDER BY r.deployed_at DESC,r.id DESC LIMIT $7";

    /// The conditions on a release of a page, besides the path.
    pub open spec fn page_of_releases() -> Seq<Condition> {
        seq![
            Condition::PairIfGiven(
                "r.deployed_at"@,
                "r.id"@,
                Test::Less,
                Kind::Timestamp,
                5,
                6,
            ),
        ]
    }

    /// A page of the application's releases, newest deployment first, after
    /// the cursor when one is given, each with whether the item was observed
    /// in it: `observed`, `not_observed` when the release has events but not
    /// this item, or `unknown` when its history has expired or it has none.
    ///
    /// Selects `release_id`, `release_display_name`, `version`, `deployed_at`,
    /// `presence`, `occurrence_count`, `first_seen_at`, `last_seen_at` and
    /// `release_evidence_count`.
    pub fn release_presence_page(
        organization_id: Uuid,
        project_id: Uuid,
        application_id: Uuid,
        item_id: Uuid,
        cursor_deployed_at: Option<Timestamp>,
        cursor_release_id: Option<Uuid>,
        fetch_limit: i64,
    ) -> (statement: Statement)
        ensures
            statement@ == StatementView::all(
                tenant::application_text(
                    Self::RELEASE_PRESENCE_PAGE@,
                    Before::Where,
                    "r."@,
                    Layout::Tight,
                    After::And,
                    condition::all_text(Self::page_of_releases())
                        + Self::RELEASE_PRESENCE_PAGE_TAIL@,
                ),
                seq![
                    organization_id.bound(),
                    project_id.bound(),
                    application_id.bound(),
                    item_id.bound(),
                    cursor_deployed_at.bound(),
                    cursor_release_id.bound(),
                    fetch_limit.bound(),
                ],
            ),
            tenant::filters_by_application(statement@, organization_id, project_id, application_id),
    {
        let conditions = Conditions::new()
            .pair_if_given("r.deployed_at", "r.id", Test::Less, Kind::Timestamp, 5, 6);
        assert(conditions@ =~= Self::page_of_releases());
        let tail = conditions.into_text().concat(Self::RELEASE_PRESENCE_PAGE_TAIL);
        let text = tenant::application(
            Self::RELEASE_PRESENCE_PAGE,
            Before::Where,
            "r.",
            Layout::Tight,
            After::And,
            tail.as_str(),
        );
        Statement::all(text.as_str())
            .bind(organization_id)
            .bind(project_id)
            .bind(application_id)
            .bind(item_id)
            .bind(cursor_deployed_at)
            .bind(cursor_release_id)
            .bind(fetch_limit)
    }

    pub const SIGHTING_PAGE: &'static str =
        "SELECT s.cluster_id,s.namespace,s.workload_kind,s.workload_name,s.pod_uid,s.pod_name,s.container_name,s.occurrence_count,s.first_seen_at,s.last_seen_at,jsonb_build_object('state',CASE WHEN e.item_id IS NULL OR e.policy_state_version<>COALESCE(ps.state_version,0) OR e.evaluator_version<>$13 THEN 'evaluation_pending' ELSE 'current' END,'verdict',CASE WHEN e.item_id IS NULL OR e.policy_state_version<>COALESCE(ps.state_version,0) OR e.evaluator_version<>$13 THEN NULL ELSE e.verdict END,'reason_code',CASE WHEN e.item_id IS NULL OR e.policy_state_version<>COALESCE(ps.state_version,0) OR e.evaluator_version<>$13 THEN 'evaluation_pending' ELSE e.reason_code END,'winning_revision_id',CASE WHEN e.policy_state_version=COALESCE(ps.state_version,0) AND e.evaluator_version=$13 THEN e.winning_revision_id END,'explanation',CASE WHEN e.policy_state_version=COALESCE(ps.state_version,0) AND e.evaluator_version=$13 THEN e.explanation ELSE '{}'::jsonb END,'evaluated_at',CASE WHEN e.policy_state_version=COALESCE(ps.state_version,0) AND e.evaluator_version=$13 THEN e.evaluated_at END) policy_evaluation,x.summary active_suppression,(x.summary IS NULL AND (e.item_id IS NULL OR e.policy_state_version<>COALESCE(ps.state_version,0) OR e.evaluator_version<>$13 OR e.verdict<>'expected')) actionable FROM runtime_inventory_sightings s LEFT JOIN runtime_sighting_policy_evaluations e ON e.item_id=s.item_id AND e.cluster_id=s.cluster_id AND e.namespace=s.namespace AND e.workload_kind=s.workload_kind AND e.workload_name=s.workload_name AND e.pod_uid=s.pod_uid AND e.container_name=s.container_name LEFT JOIN runtime_policy_states ps ON ps.organization_id=s.organization_id AND ps.project_id=s.project_id AND ps.application_id=s.application_id LEFT JOIN runtime_inventory_items i ON i.id=s.item_id LEFT JOIN LATERAL (SELECT jsonb_build_object('id',z.id,'reason',z.reason,'expires_at',z.expires_at,'created_at',z.created_at) summary FROM runtime_policy_suppressions z WHERE z.organization_id=s.organization_id AND z.project_id=s.project_id AND z.application_id=s.application_id AND z.identity_version=i.identity_version AND z.identity_digest=i.identity_digest AND z.cancelled_at IS NULL AND z.expires_at>now() AND (cardinality(z.cluster_ids)=0 OR s.cluster_id=ANY(z.cluster_ids)) AND (cardinality(z.namespaces)=0 OR s.namespace=ANY(z.namespaces)) AND (cardinality(z.workload_kinds)=0 OR s.workload_kind=ANY(z.workload_kinds)) AND (cardinality(z.workload_names)=0 OR s.workload_name=ANY(z.workload_names)) ORDER BY z.expires_at,z.id LIMIT 1) x ON true ";

    pub const SIGHTING_PAGE_TAIL: &'static str =
        "s.item_id=$4 AND ($5::timestamptz IS NULL OR (s.last_seen_at,s.cluster_id,s.namespace,s.workload_kind,s.workload_name,s.pod_uid,s.container_name)<($5,$6,$7,$8,$9,$10,$11)) ORDER BY s.last_seen_at DESC,s.cluster_id DESC,s.namespace DESC,s.workload_kind DESC,s.workload_name DESC,s.pod_uid DESC,s.container_name DESC LIMIT $12";

    /// A page of an item's sightings, most recent first, after the cursor
    /// when one is given, each with its policy evaluation and the active
    /// suppression covering it.
    ///
    /// Selects the sighting's placement, `occurrence_count`, `first_seen_at`
    /// and `last_seen_at`, and `policy_evaluation`, `active_suppression` and
    /// `actionable`.
    pub fn sighting_page(
        organization_id: Uuid,
        project_id: Uuid,
        application_id: Uuid,
        item_id: Uuid,
        cursor_last_seen_at: Option<Timestamp>,
        cursor_cluster_id: Option<Uuid>,
        cursor_namespace: Option<&str>,
        cursor_workload_kind: Option<&str>,
        cursor_workload_name: Option<&str>,
        cursor_pod_uid: Option<&str>,
        cursor_container_name: Option<&str>,
        fetch_limit: i64,
        evaluator_version: i16,
    ) -> (statement: Statement)
        ensures
            statement@ == StatementView::all(
                tenant::application_text(
                    Self::SIGHTING_PAGE@,
                    Before::Where,
                    "s."@,
                    Layout::Tight,
                    After::And,
                    Self::SIGHTING_PAGE_TAIL@,
                ),
                seq![
                    organization_id.bound(),
                    project_id.bound(),
                    application_id.bound(),
                    item_id.bound(),
                    cursor_last_seen_at.bound(),
                    cursor_cluster_id.bound(),
                    cursor_namespace.bound(),
                    cursor_workload_kind.bound(),
                    cursor_workload_name.bound(),
                    cursor_pod_uid.bound(),
                    cursor_container_name.bound(),
                    fetch_limit.bound(),
                    evaluator_version.bound(),
                ],
            ),
            tenant::filters_by_application(statement@, organization_id, project_id, application_id),
    {
        let text = tenant::application(
            Self::SIGHTING_PAGE,
            Before::Where,
            "s.",
            Layout::Tight,
            After::And,
            Self::SIGHTING_PAGE_TAIL,
        );
        Statement::all(text.as_str())
            .bind(organization_id)
            .bind(project_id)
            .bind(application_id)
            .bind(item_id)
            .bind(cursor_last_seen_at)
            .bind(cursor_cluster_id)
            .bind(cursor_namespace)
            .bind(cursor_workload_kind)
            .bind(cursor_workload_name)
            .bind(cursor_pod_uid)
            .bind(cursor_container_name)
            .bind(fetch_limit)
            .bind(evaluator_version)
    }

    pub const GROUP_PAGE: &'static str =
        "SELECT g.id,g.cluster_id,g.namespace,g.workload_kind,g.workload_name,g.event_kind,COALESCE((SELECT jsonb_agg(jsonb_build_object('display_name',ul.display_name,'created_by_user_id',ul.created_by_user_id,'updated_by_user_id',ul.updated_by_user_id,'created_at',ul.created_at,'updated_at',ul.updated_at) ORDER BY ul.display_name,ul.id) FROM runtime_inventory_group_links x JOIN runtime_inventory_items xi ON xi.id=x.item_id JOIN runtime_behavior_user_labels ul ON ul.organization_id=xi.organization_id AND ul.project_id=xi.project_id AND ul.application_id=xi.application_id AND ul.inventory_kind=xi.inventory_kind AND ul.identity_version=xi.identity_version AND ul.identity_digest=xi.identity_digest WHERE x.group_id=g.id),'[]'::jsonb) user_labels,g.status,g.first_seen_at,g.last_seen_at,g.occurrence_count FROM runtime_inventory_group_links l JOIN runtime_event_groups g ON g.id=l.group_id ";

    pub const GROUP_PAGE_TAIL: &'static str = " ORDER BY g.id DESC LIMIT $6";

    /// The conditions on a group of a page, besides the path.
    pub open spec fn page_of_groups() -> Seq<Condition> {
        seq![
            Condition::Compared("l.item_id"@, Test::Equal, 4),
            Condition::ComparedIfGiven("g.id"@, Test::Less, Kind::Uuid, 5),
        ]
    }

    /// A page of the runtime groups an item is linked to, newest id first,
    /// before the cursor when one is given, with every label on each group.
    ///
    /// Selects `id`, `cluster_id`, `namespace`, `workload_kind`,
    /// `workload_name`, `event_kind`, `user_labels`, `status`,
    /// `first_seen_at`, `last_seen_at` and `occurrence_count`.
    pub fn group_page(
        organization_id: Uuid,
        project_id: Uuid,
        application_id: Uuid,
        item_id: Uuid,
        cursor: Option<Uuid>,
        fetch_limit: i64,
    ) -> (statement: Statement)
        ensures
            statement@ == StatementView::all(
                tenant::application_text(
                    Self::GROUP_PAGE@,
                    Before::Where,
                    "l."@,
                    Layout::Tight,
                    After::And,
                    condition::all_text(Self::page_of_groups()) + Self::GROUP_PAGE_TAIL@,
                ),
                seq![
                    organization_id.bound(),
                    project_id.bound(),
                    application_id.bound(),
                    item_id.bound(),
                    cursor.bound(),
                    fetch_limit.bound(),
                ],
            ),
            tenant::filters_by_application(statement@, organization_id, project_id, application_id),
    {
        let conditions = Conditions::new()
            .compared("l.item_id", Test::Equal, 4)
            .compared_if_given("g.id", Test::Less, Kind::Uuid, 5);
        assert(conditions@ =~= Self::page_of_groups());
        let tail = conditions.into_text().concat(Self::GROUP_PAGE_TAIL);
        let text = tenant::application(
            Self::GROUP_PAGE,
            Before::Where,
            "l.",
            Layout::Tight,
            After::And,
            tail.as_str(),
        );
        Statement::all(text.as_str())
            .bind(organization_id)
            .bind(project_id)
            .bind(application_id)
            .bind(item_id)
            .bind(cursor)
            .bind(fetch_limit)
    }

    pub const OCCURRENCE_CURSOR: &'static str =
        "SELECT e.observed_at,e.id FROM runtime_inventory_event_memberships m JOIN runtime_events e ON e.id=m.event_id ";

    pub const OCCURRENCE_CURSOR_TAIL: &'static str = "m.item_id=$4 AND e.id=$5";

    /// Resolves an event id used as an occurrence cursor into its
    /// `(observed_at, id)` ordering key, when the event is an occurrence of
    /// the item.
    pub fn occurrence_cursor(
        organization_id: Uuid,
        project_id: Uuid,
        application_id: Uuid,
        item_id: Uuid,
        event_id: Uuid,
    ) -> (statement: Statement)
        ensures
            statement@ == StatementView::optional(
                tenant::application_text(
                    Self::OCCURRENCE_CURSOR@,
                    Before::Where,
                    "m."@,
                    Layout::Tight,
                    After::And,
                    Self::OCCURRENCE_CURSOR_TAIL@,
                ),
                seq![
                    organization_id.bound(),
                    project_id.bound(),
                    application_id.bound(),
                    item_id.bound(),
                    event_id.bound(),
                ],
            ),
            tenant::filters_by_application(statement@, organization_id, project_id, application_id),
    {
        let text = tenant::application(
            Self::OCCURRENCE_CURSOR,
            Before::Where,
            "m.",
            Layout::Tight,
            After::And,
            Self::OCCURRENCE_CURSOR_TAIL,
        );
        Statement::optional(text.as_str())
            .bind(organization_id)
            .bind(project_id)
            .bind(application_id)
            .bind(item_id)
            .bind(event_id)
    }

    pub const OCCURRENCE_PAGE: &'static str =
        "SELECT e.id,e.event_id,e.observed_at,e.cluster_id,e.node_name,e.namespace,e.pod_uid,e.pod_name,e.container_name,e.process_command,e.event_kind,e.payload,e.release_id,r.version release_version,CASE WHEN r.id IS NULL THEN 'Unattributed' ELSE release_display_name(a.name,r.source,r.version,r.identity_digest,r.identity_components) END release_display_name FROM runtime_inventory_event_memberships m JOIN runtime_events e ON e.id=m.event_id LEFT JOIN releases r ON r.id=e.release_id LEFT JOIN applications a ON a.id=r.application_id ";

    pub const OCCURRENCE_PAGE_TAIL: &'static str = " ORDER BY e.observed_at DESC,e.id DESC LIMIT $8";

    /// The conditions on an occurrence of a page, besides the path.
    pub open spec fn page_of_occurrences() -> Seq<Condition> {
        seq![
            Condition::Compared("m.item_id"@, Test::Equal, 4),
            Condition::Compared("m.identity_version"@, Test::Equal, 5),
            Condition::PairIfGiven(
                "e.observed_at"@,
                "e.id"@,
                Test::Less,
                Kind::Timestamp,
                6,
                7,
            ),
        ]
    }

    /// A page of an item's occurrences, newest first, after the cursor when
    /// one is given, with their release.
    ///
    /// Selects the event's `id`, `event_id`, `observed_at`, placement,
    /// `process_command`, `event_kind`, `payload` and `release_id`, and
    /// `release_version` and `release_display_name`.
    pub fn occurrence_page(
        organization_id: Uuid,
        project_id: Uuid,
        application_id: Uuid,
        item_id: Uuid,
        identity_version: i16,
        cursor_observed_at: Option<Timestamp>,
        cursor_id: Option<Uuid>,
        fetch_limit: i64,
    ) -> (statement: Statement)
        ensures
            statement@ == StatementView::all(
                tenant::application_text(
                    Self::OCCURRENCE_PAGE@,
                    Before::Where,
                    "m."@,
                    Layout::Tight,
                    After::And,
                    condition::all_text(Self::page_of_occurrences()) + Self::OCCURRENCE_PAGE_TAIL@,
                ),
                seq![
                    organization_id.bound(),
                    project_id.bound(),
                    application_id.bound(),
                    item_id.bound(),
                    identity_version.bound(),
                    cursor_observed_at.bound(),
                    cursor_id.bound(),
                    fetch_limit.bound(),
                ],
            ),
            tenant::filters_by_application(statement@, organization_id, project_id, application_id),
    {
        let conditions = Conditions::new()
            .compared("m.item_id", Test::Equal, 4)
            .compared("m.identity_version", Test::Equal, 5)
            .pair_if_given("e.observed_at", "e.id", Test::Less, Kind::Timestamp, 6, 7);
        assert(conditions@ =~= Self::page_of_occurrences());
        let tail = conditions.into_text().concat(Self::OCCURRENCE_PAGE_TAIL);
        let text = tenant::application(
            Self::OCCURRENCE_PAGE,
            Before::Where,
            "m.",
            Layout::Tight,
            After::And,
            tail.as_str(),
        );
        Statement::all(text.as_str())
            .bind(organization_id)
            .bind(project_id)
            .bind(application_id)
            .bind(item_id)
            .bind(identity_version)
            .bind(cursor_observed_at)
            .bind(cursor_id)
            .bind(fetch_limit)
    }

    pub const IDENTITY: &'static str =
        "SELECT id,inventory_kind,identity_version,identity_digest,semantic_summary FROM runtime_inventory_items ";

    pub const IDENTITY_TAIL: &'static str = "id=$4";

    /// One inventory item of the application with its identity.
    ///
    /// Selects `id`, `inventory_kind`, `identity_version`, `identity_digest`
    /// and `semantic_summary`.
    pub fn identity(
        organization_id: Uuid,
        project_id: Uuid,
        application_id: Uuid,
        item_id: Uuid,
    ) -> (statement: Statement)
        ensures
            statement@ == StatementView::optional(
                tenant::application_text(
                    Self::IDENTITY@,
                    Before::Where,
                    ""@,
                    Layout::Tight,
                    After::And,
                    Self::IDENTITY_TAIL@,
                ),
                seq![
                    organization_id.bound(),
                    project_id.bound(),
                    application_id.bound(),
                    item_id.bound(),
                ],
            ),
            tenant::filters_by_application(statement@, organization_id, project_id, application_id),
    {
        let text = tenant::application(
            Self::IDENTITY,
            Before::Where,
            "",
            Layout::Tight,
            After::And,
            Self::IDENTITY_TAIL,
        );
        Statement::optional(text.as_str())
            .bind(organization_id)
            .bind(project_id)
            .bind(application_id)
            .bind(item_id)
    }

    pub const GROUP_SEED: &'static str =
        "SELECT i.id item_id,i.inventory_kind,i.identity_version,i.identity_digest,i.semantic_summary,g.cluster_id,g.namespace,g.workload_kind,g.workload_name FROM runtime_event_groups g JOIN runtime_inventory_group_links l ON l.organization_id=g.organization_id AND l.project_id=g.project_id AND l.application_id=g.application_id AND l.group_id=g.id JOIN runtime_inventory_items i ON i.organization_id=l.organization_id AND i.project_id=l.project_id AND i.application_id=l.application_id AND i.id=l.item_id ";

    pub const GROUP_SEED_TAIL: &'static str = "g.id=$4 ORDER BY i.id LIMIT 1";

    /// The inventory identity behind a runtime group of the application,
    /// with the group's placement. A group linked to several items yields the
    /// one with the lowest id.
    ///
    /// Selects `item_id`, `inventory_kind`, `identity_version`,
    /// `identity_digest`, `semantic_summary`, `cluster_id`, `namespace`,
    /// `workload_kind` and `workload_name`.
    pub fn group_seed(
        organization_id: Uuid,
        project_id: Uuid,
        application_id: Uuid,
        group_id: Uuid,
    ) -> (statement: Statement)
        ensures
            statement@ == StatementView::optional(
                tenant::application_text(
                    Self::GROUP_SEED@,
                    Before::Where,
                    "g."@,
                    Layout::Tight,
                    After::And,
                    Self::GROUP_SEED_TAIL@,
                ),
                seq![
                    organization_id.bound(),
                    project_id.bound(),
                    application_id.bound(),
                    group_id.bound(),
                ],
            ),
            tenant::filters_by_application(statement@, organization_id, project_id, application_id),
    {
        let text = tenant::application(
            Self::GROUP_SEED,
            Before::Where,
            "g.",
            Layout::Tight,
            After::And,
            Self::GROUP_SEED_TAIL,
        );
        Statement::optional(text.as_str())
            .bind(organization_id)
            .bind(project_id)
            .bind(application_id)
            .bind(group_id)
    }

    pub const ITEM_LINKED_TO_GROUP: &'static str =
        "SELECT EXISTS(SELECT 1 FROM runtime_inventory_group_links ";

    pub const ITEM_LINKED_TO_GROUP_TAIL: &'static str = ")";

    /// The conditions on a link of an item to a group, besides the path.
    pub open spec fn link_to_group() -> Seq<Condition> {
        seq![
            Condition::Compared("item_id"@, Test::Equal, 4),
            Condition::Compared("group_id"@, Test::Equal, 5),
        ]
    }

    /// Reports whether an inventory item of the application is linked to the
    /// runtime group.
    pub fn item_linked_to_group(
        organization_id: Uuid,
        project_id: Uuid,
        application_id: Uuid,
        item_id: Uuid,
        group_id: Uuid,
    ) -> (statement: Statement)
        ensures
            statement@ == StatementView::one(
                tenant::application_text(
                    Self::ITEM_LINKED_TO_GROUP@,
                    Before::Where,
                    ""@,
                    Layout::Tight,
                    After::And,
                    condition::all_text(Self::link_to_group()) + Self::ITEM_LINKED_TO_GROUP_TAIL@,
                ),
                seq![
                    organization_id.bound(),
                    project_id.bound(),
                    application_id.bound(),
                    item_id.bound(),
                    group_id.bound(),
                ],
            ),
            tenant::filters_by_application(statement@, organization_id, project_id, application_id),
    {
        let conditions = Conditions::new()
            .compared("item_id", Test::Equal, 4)
            .compared("group_id", Test::Equal, 5);
        assert(conditions@ =~= Self::link_to_group());
        let tail = conditions.into_text().concat(Self::ITEM_LINKED_TO_GROUP_TAIL);
        let text = tenant::application(
            Self::ITEM_LINKED_TO_GROUP,
            Before::Where,
            "",
            Layout::Tight,
            After::And,
            tail.as_str(),
        );
        Statement::one(text.as_str())
            .bind(organization_id)
            .bind(project_id)
            .bind(application_id)
            .bind(item_id)
            .bind(group_id)
    }

    pub const LINKED_GROUP_COUNT: &'static str =
        "SELECT count(*) FROM runtime_inventory_group_links WHERE item_id=$1";

    /// How many runtime groups an inventory item is linked to.
    pub fn linked_group_count(item_id: Uuid) -> (statement: Statement)
        ensures
            statement@ == StatementView::one(Self::LINKED_GROUP_COUNT@, seq![item_id.bound()]),
    {
        Statement::one(Self::LINKED_GROUP_COUNT).bind(item_id)
    }
}

/// A filter's tenant path and identity version take four positions and its
/// scope takes ten, in every statement that applies it.
pub proof fn filter_takes_fourteen_positions(filter: InventoryFilter<'_>, identity_version: i16)
    ensures
        filter.path(identity_version).len() == 4,
        filter.scope().len() == 10,
{
}

/// A facet other than the cluster's is labelled by its own value and joins
/// nothing; only the cluster's reads the clusters.
pub proof fn only_the_cluster_facet_joins(column: FacetColumn)
    ensures
        column != FacetColumn::Cluster ==> column.label_text() == column.value_text(),
        column != FacetColumn::Cluster ==> column.join_text() == Seq::<char>::empty(),
        column == FacetColumn::Cluster ==> column.join_text().len() > 0,
{
    reveal_strlit("");
    reveal_strlit("JOIN clusters c ON c.organization_id=s.organization_id AND c.id=s.cluster_id");
    assert(""@ =~= Seq::<char>::empty());
}

/// Facets on different columns group by different values.
pub proof fn facets_group_apart(one: FacetColumn, other: FacetColumn)
    requires
        one.value_text() == other.value_text(),
    ensures
        one == other,
{
    reveal_strlit("s.cluster_id::text");
    reveal_strlit("s.namespace");
    reveal_strlit("s.workload_kind");
    reveal_strlit("s.workload_name");
    reveal_strlit("s.container_name");
    assert("s.cluster_id::text"@.len() == 18 && "s.namespace"@.len() == 11);
    assert("s.workload_kind"@.len() == 15 && "s.workload_name"@.len() == 15);
    assert("s.container_name"@.len() == 16);
    assert("s.workload_kind"@[11] == 'k' && "s.workload_name"@[11] == 'n');
}

/// An application has one item of an identity. The item that is there stays as
/// it is, and one is added only where there is none; every other item is as it
/// was.
pub proof fn identity_has_one_item(
    table: Table,
    id: Uuid,
    organization_id: Uuid,
    project_id: Uuid,
    application_id: Uuid,
    inventory_kind: &str,
    identity_version: i16,
    identity_digest: &[u8],
    semantic_summary: &Value,
    observed_at: Timestamp,
)
    ensures
        ({
            let key: Seq<Bound> = seq![
                organization_id.bound(),
                project_id.bound(),
                application_id.bound(),
                inventory_kind.bound(),
                identity_version.bound(),
                identity_digest.bound(),
            ];
            let item: Seq<Bound> = seq![
                id.bound(),
                organization_id.bound(),
                project_id.bound(),
                application_id.bound(),
                inventory_kind.bound(),
                identity_version.bound(),
                identity_digest.bound(),
                semantic_summary.bound(),
                observed_at.bound(),
                observed_at.bound(),
                Bound::BigInt(Some(1)),
            ];
            InventoryRepository::new_item(
                id,
                organization_id,
                project_id,
                application_id,
                inventory_kind,
                identity_version,
                identity_digest,
                semantic_summary,
                observed_at,
            ).applied_once(table) == if table.contains_key(key) {
                table
            } else {
                table.insert(key, item)
            }
        }),
{
    let written = InventoryRepository::new_item(
        id,
        organization_id,
        project_id,
        application_id,
        inventory_kind,
        identity_version,
        identity_digest,
        semantic_summary,
        observed_at,
    );
    assert(written.key =~= seq![
        organization_id.bound(),
        project_id.bound(),
        application_id.bound(),
        inventory_kind.bound(),
        identity_version.bound(),
        identity_digest.bound(),
    ]);
    assert(written.values =~= seq![
        id.bound(),
        organization_id.bound(),
        project_id.bound(),
        application_id.bound(),
        inventory_kind.bound(),
        identity_version.bound(),
        identity_digest.bound(),
        semantic_summary.bound(),
        observed_at.bound(),
        observed_at.bound(),
        Bound::BigInt(Some(1)),
    ]);
}

/// An event is an occurrence of one item under an identity version: a second
/// membership of the event changes nothing, whichever item it names.
pub proof fn event_belongs_to_one_item(
    table: Table,
    organization_id: Uuid,
    project_id: Uuid,
    application_id: Uuid,
    event_id: Uuid,
    first_item_id: Uuid,
    later_item_id: Uuid,
    identity_version: i16,
)
    ensures
        ({
            let membership = |item_id: Uuid|
                InventoryRepository::event_membership(
                    organization_id,
                    project_id,
                    application_id,
                    event_id,
                    item_id,
                    identity_version,
                );
            let after = membership(first_item_id).applied_once(table);
            &&& after.contains_key(seq![event_id.bound(), identity_version.bound()])
            &&& membership(later_item_id).applied_once(after) == after
        }),
{
    let first = InventoryRepository::event_membership(
        organization_id,
        project_id,
        application_id,
        event_id,
        first_item_id,
        identity_version,
    );
    let later = InventoryRepository::event_membership(
        organization_id,
        project_id,
        application_id,
        event_id,
        later_item_id,
        identity_version,
    );
    assert(first.key =~= seq![event_id.bound(), identity_version.bound()]);
    assert(later.key =~= first.key);
    upsert::the_first_row_stays(first, later, table);
}

/// An item is linked to a group once: the link is there afterwards, and linking
/// again changes nothing.
pub proof fn item_is_linked_once(
    table: Table,
    organization_id: Uuid,
    project_id: Uuid,
    application_id: Uuid,
    item_id: Uuid,
    group_id: Uuid,
)
    ensures
        ({
            let link = InventoryRepository::group_link(
                organization_id,
                project_id,
                application_id,
                item_id,
                group_id,
            );
            let after = link.applied_once(table);
            &&& after.contains_key(seq![item_id.bound(), group_id.bound()])
            &&& link.applied_once(after) == after
        }),
{
    let link = InventoryRepository::group_link(
        organization_id,
        project_id,
        application_id,
        item_id,
        group_id,
    );
    assert(link.key =~= seq![item_id.bound(), group_id.bound()]);
    upsert::the_first_row_stays(link, link, table);
}

/// A sighting at a placement is counted, widens the seen window there and gives
/// the pod's current name. A first one starts the count at 1 and the window at
/// its time. Every other placement is as it was.
pub proof fn sighting_is_counted(
    table: Table,
    organization_id: Uuid,
    project_id: Uuid,
    application_id: Uuid,
    item_id: Uuid,
    cluster_id: Uuid,
    namespace: &str,
    workload_kind: &str,
    workload_name: &str,
    pod_uid: &str,
    pod_name: &str,
    container_name: &str,
    observed_at: Timestamp,
    count: i64,
    less: spec_fn(Bound, Bound) -> bool,
)
    requires
        ({
            let key: Seq<Bound> = seq![
                item_id.bound(),
                cluster_id.bound(),
                namespace.bound(),
                workload_kind.bound(),
                workload_name.bound(),
                pod_uid.bound(),
                container_name.bound(),
            ];
            if table.contains_key(key) {
                table[key][11] == count.bound()
            } else {
                count == 0
            }
        }),
        count < i64::MAX,
    ensures
        ({
            let key: Seq<Bound> = seq![
                item_id.bound(),
                cluster_id.bound(),
                namespace.bound(),
                workload_kind.bound(),
                workload_name.bound(),
                pod_uid.bound(),
                container_name.bound(),
            ];
            let after = InventoryRepository::sighting(
                organization_id,
                project_id,
                application_id,
                item_id,
                cluster_id,
                namespace,
                workload_kind,
                workload_name,
                pod_uid,
                pod_name,
                container_name,
                observed_at,
            ).applied(table, less);
            let time = observed_at.bound();
            &&& after.contains_key(key)
            &&& after[key][9] == pod_name.bound()
            &&& after[key][11] == Bound::BigInt(Some((count + 1) as i64))
            &&& after[key][12] == if table.contains_key(key) {
                condition::least(table[key][12], time, less)
            } else {
                time
            }
            &&& after[key][13] == if table.contains_key(key) {
                condition::greatest(table[key][13], time, less)
            } else {
                time
            }
            &&& after.remove(key) == table.remove(key)
        }),
{
    let written = InventoryRepository::sighting(
        organization_id,
        project_id,
        application_id,
        item_id,
        cluster_id,
        namespace,
        workload_kind,
        workload_name,
        pod_uid,
        pod_name,
        container_name,
        observed_at,
    );
    assert(written.key =~= seq![
        item_id.bound(),
        cluster_id.bound(),
        namespace.bound(),
        workload_kind.bound(),
        workload_name.bound(),
        pod_uid.bound(),
        container_name.bound(),
    ]);
    assert(written.applied(table, less).remove(written.key) =~= table.remove(written.key));
}

/// An occurrence of an item in a release is counted and widens its seen window
/// there. A first one starts the count at 1 and the window at its time. Every
/// other row is as it was.
pub proof fn release_occurrence_is_counted(
    table: Table,
    organization_id: Uuid,
    project_id: Uuid,
    application_id: Uuid,
    item_id: Uuid,
    release_id: Uuid,
    observed_at: Timestamp,
    count: i64,
    less: spec_fn(Bound, Bound) -> bool,
)
    requires
        ({
            let key: Seq<Bound> = seq![item_id.bound(), release_id.bound()];
            if table.contains_key(key) {
                table[key][5] == count.bound()
            } else {
                count == 0
            }
        }),
        count < i64::MAX,
    ensures
        ({
            let key: Seq<Bound> = seq![item_id.bound(), release_id.bound()];
            let after = InventoryRepository::release_occurrence(
                organization_id,
                project_id,
                application_id,
                item_id,
                release_id,
                observed_at,
            ).applied(table, less);
            let time = observed_at.bound();
            &&& after.contains_key(key)
            &&& after[key][5] == Bound::BigInt(Some((count + 1) as i64))
            &&& after[key][6] == if table.contains_key(key) {
                condition::least(table[key][6], time, less)
            } else {
                time
            }
            &&& after[key][7] == if table.contains_key(key) {
                condition::greatest(table[key][7], time, less)
            } else {
                time
            }
            &&& after.remove(key) == table.remove(key)
        }),
{
    let written = InventoryRepository::release_occurrence(
        organization_id,
        project_id,
        application_id,
        item_id,
        release_id,
        observed_at,
    );
    assert(written.key =~= seq![item_id.bound(), release_id.bound()]);
    assert(written.applied(table, less).remove(written.key) =~= table.remove(written.key));
}

/// An occurrence of an item is counted and widens its seen window; an item
/// without any restarts its window at the occurrence.
pub proof fn occurrence_widens_the_window(
    item: Record,
    item_id: Uuid,
    observed_at: Timestamp,
    count: i64,
    database: Database,
)
    requires
        0 <= count < i64::MAX,
        condition::has(item, "occurrence_count"@, count.bound()),
        !condition::lacks(item, "first_seen_at"@),
        !condition::lacks(item, "last_seen_at"@),
    ensures
        ({
            let after = update::changed(
                InventoryRepository::occurrence(),
                item,
                seq![item_id.bound(), observed_at.bound()],
                database,
            );
            let time = observed_at.bound();
            &&& condition::has(
                after,
                "first_seen_at"@,
                if count == 0 {
                    time
                } else {
                    condition::least(item["first_seen_at"@], time, database.less)
                },
            )
            &&& condition::has(
                after,
                "last_seen_at"@,
                if count == 0 {
                    time
                } else {
                    condition::greatest(item["last_seen_at"@], time, database.less)
                },
            )
            &&& condition::has(
                after,
                "occurrence_count"@,
                Bound::BigInt(Some((count + 1) as i64)),
            )
        }),
{
    reveal_strlit("first_seen_at");
    reveal_strlit("last_seen_at");
    reveal_strlit("occurrence_count");
    reveal_strlit("updated_at");
    let changes = InventoryRepository::occurrence();
    let values: Seq<Bound> = seq![item_id.bound(), observed_at.bound()];
    assert(changes[0].column().len() == 13 && changes[1].column().len() == 12);
    assert(changes[2].column().len() == 16 && changes[3].column().len() == 10);
    update::changed_column(changes, item, values, database, 0);
    update::changed_column(changes, item, values, database, 1);
    update::changed_column(changes, item, values, database, 2);
}

/// An occurrence changes an item's window, count and time of change, and no
/// other column.
pub proof fn occurrence_changes_nothing_else(
    item: Record,
    item_id: Uuid,
    observed_at: Timestamp,
    database: Database,
    column: Seq<char>,
)
    requires
        column != "first_seen_at"@,
        column != "last_seen_at"@,
        column != "occurrence_count"@,
        column != "updated_at"@,
    ensures
        ({
            let after = update::changed(
                InventoryRepository::occurrence(),
                item,
                seq![item_id.bound(), observed_at.bound()],
                database,
            );
            &&& after.contains_key(column) == item.contains_key(column)
            &&& item.contains_key(column) ==> after[column] == item[column]
            &&& condition::has(after, "updated_at"@, database.now)
        }),
{
    let changes = InventoryRepository::occurrence();
    let values: Seq<Bound> = seq![item_id.bound(), observed_at.bound()];
    update::unchanged_column(changes, item, values, database, column);
    update::changed_column(changes, item, values, database, 3);
}

/// A facet groups by its own column of the sightings, and is labelled by it, but
/// for a cluster, which is labelled by its name.
pub proof fn facets_are_written_so(column: FacetColumn)
    ensures
        column.value_text() == match column {
            FacetColumn::Cluster => "s.cluster_id::text"@,
            FacetColumn::Namespace => "s.namespace"@,
            FacetColumn::WorkloadKind => "s.workload_kind"@,
            FacetColumn::WorkloadName => "s.workload_name"@,
            FacetColumn::ContainerName => "s.container_name"@,
        },
        column.label_text() == if column == FacetColumn::Cluster {
            "c.name"@
        } else {
            column.value_text()
        },
        column.join_text() == if column == FacetColumn::Cluster {
            "JOIN clusters c ON c.organization_id=s.organization_id AND c.id=s.cluster_id"@
        } else {
            ""@
        },
{
}

/// A facet's options are counted over the items of the application that meet the
/// scope, and by nothing else: they are grouped, searched and paged by the facet's
/// own value and label.
pub proof fn facet_reads_the_items_of_its_scope(column: FacetColumn)
    ensures
        InventoryRepository::facet_text(column) == "SELECT "@ + column.value_text() + " value,"@
            + column.label_text()
                + InventoryRepository::FACET_OPTIONS@ + column.join_text() + " "@ + "WHERE "@
                + tenant::application_filter("i."@, Layout::Tight, Start::First) + " AND "@
                + InventoryRepository::FACET_OPTIONS_SCOPE@ + column.label_text() + ","@
                + column.value_text() + InventoryRepository::FACET_OPTIONS_GROUP@
                + column.value_text() + ","@ + column.label_text()
                + InventoryRepository::FACET_OPTIONS_HAVING@ + column.label_text() + ">$18 OR ("@
                + column.label_text() + "=$18 AND "@ + column.value_text()
                + InventoryRepository::FACET_OPTIONS_ORDER@,
{
    assert(InventoryRepository::facet_text(column) =~= "SELECT "@ + column.value_text()
        + " value,"@ + column.label_text()
            + InventoryRepository::FACET_OPTIONS@ + column.join_text() + " "@ + "WHERE "@
            + tenant::application_filter("i."@, Layout::Tight, Start::First) + " AND "@
            + InventoryRepository::FACET_OPTIONS_SCOPE@ + column.label_text() + ","@
            + column.value_text() + InventoryRepository::FACET_OPTIONS_GROUP@
            + column.value_text() + ","@ + column.label_text()
            + InventoryRepository::FACET_OPTIONS_HAVING@ + column.label_text() + ">$18 OR ("@
            + column.label_text() + "=$18 AND "@ + column.value_text()
            + InventoryRepository::FACET_OPTIONS_ORDER@);
}

/// The reconciliation counts the events and the projection of one application, each
/// narrowed to its path and to nothing else.
pub proof fn reconciliation_reads_each_side()
    ensures
        ({
            let source = tenant::application_filter("e."@, Layout::Tight, Start::First);
            let projected = tenant::application_filter(""@, Layout::Tight, Start::First);
            let rest = InventoryRepository::RECONCILIATION_LAST_PROJECTED@ + "AND "@ + projected
                + " AND "@
                + InventoryRepository::RECONCILIATION_TAIL@;
            let rest = InventoryRepository::RECONCILIATION_LAST_SOURCE@ + "WHERE "@ + source
                + ")"@ + rest;
            let rest = InventoryRepository::RECONCILIATION_FIRST_PROJECTED@ + "AND "@ + projected
                + " AND "@ + rest;
            let rest = InventoryRepository::RECONCILIATION_FIRST_SOURCE@ + "WHERE "@ + source
                + ")"@ + rest;
            let rest = InventoryRepository::RECONCILIATION_ITEMS@ + "AND "@ + projected + " AND "@
                + rest;
            let rest = InventoryRepository::RECONCILIATION_MEMBERSHIPS@ + "WHERE "@ + projected
                + " AND "@ + rest;
            let rest = InventoryRepository::RECONCILIATION@ + "WHERE "@ + source + ")"@ + rest;
            InventoryRepository::reconciliation_text() == rest
        }),
{
}

/// A group is on the page exactly where it is linked to the item and comes
/// behind the cursor, or no cursor is given.
pub proof fn page_holds_the_groups_behind_the_cursor(
    group: Record,
    organization_id: Uuid,
    project_id: Uuid,
    application_id: Uuid,
    item_id: Uuid,
    cursor: Option<Uuid>,
    fetch_limit: i64,
    database: Database,
)
    ensures
        ({
            let values: Seq<Bound> = seq![
                organization_id.bound(),
                project_id.bound(),
                application_id.bound(),
                item_id.bound(),
                cursor.bound(),
                fetch_limit.bound(),
            ];
            condition::selects(
                InventoryRepository::page_of_groups(),
                group,
                values,
                database,
            ) <==> {
                &&& condition::has(group, "l.item_id"@, item_id.bound())
                &&& cursor is Some ==> {
                    &&& !condition::lacks(group, "g.id"@)
                    &&& (database.less)(group["g.id"@], cursor.bound())
                }
            }
        }),
{
    let values: Seq<Bound> = seq![
        organization_id.bound(),
        project_id.bound(),
        application_id.bound(),
        item_id.bound(),
        cursor.bound(),
        fetch_limit.bound(),
    ];
    let conditions = InventoryRepository::page_of_groups();
    assert(condition::selects(conditions, group, values, database) <==> {
        &&& conditions[0].holds(group, values, database)
        &&& conditions[1].holds(group, values, database)
    });
}

/// An occurrence is on the page exactly where it is one of the item in the
/// identity version, and comes behind the cursor, or no cursor is given.
pub proof fn page_holds_the_occurrences_behind_the_cursor(
    occurrence: Record,
    organization_id: Uuid,
    project_id: Uuid,
    application_id: Uuid,
    item_id: Uuid,
    identity_version: i16,
    cursor_observed_at: Option<Timestamp>,
    cursor_id: Option<Uuid>,
    fetch_limit: i64,
    database: Database,
)
    ensures
        ({
            let values: Seq<Bound> = seq![
                organization_id.bound(),
                project_id.bound(),
                application_id.bound(),
                item_id.bound(),
                identity_version.bound(),
                cursor_observed_at.bound(),
                cursor_id.bound(),
                fetch_limit.bound(),
            ];
            condition::selects(
                InventoryRepository::page_of_occurrences(),
                occurrence,
                values,
                database,
            ) <==> {
                &&& condition::has(occurrence, "m.item_id"@, item_id.bound())
                &&& condition::has(occurrence, "m.identity_version"@, identity_version.bound())
                &&& cursor_observed_at is Some ==> {
                    &&& !condition::lacks(occurrence, "e.observed_at"@)
                    &&& {
                        ||| {
                            &&& occurrence["e.observed_at"@] != cursor_observed_at.bound()
                            &&& (database.less)(
                                occurrence["e.observed_at"@],
                                cursor_observed_at.bound(),
                            )
                        }
                        ||| {
                            &&& occurrence["e.observed_at"@] == cursor_observed_at.bound()
                            &&& cursor_id is Some
                            &&& !condition::lacks(occurrence, "e.id"@)
                            &&& (database.less)(occurrence["e.id"@], cursor_id.bound())
                        }
                    }
                }
            }
        }),
{
    let values: Seq<Bound> = seq![
        organization_id.bound(),
        project_id.bound(),
        application_id.bound(),
        item_id.bound(),
        identity_version.bound(),
        cursor_observed_at.bound(),
        cursor_id.bound(),
        fetch_limit.bound(),
    ];
    let conditions = InventoryRepository::page_of_occurrences();
    assert(condition::selects(conditions, occurrence, values, database) <==> {
        &&& conditions[0].holds(occurrence, values, database)
        &&& conditions[1].holds(occurrence, values, database)
        &&& conditions[2].holds(occurrence, values, database)
    });
}

/// A release is on the page exactly where it comes behind the cursor, in the
/// order of the listing, or no cursor is given.
pub proof fn page_holds_the_releases_behind_the_cursor(
    release: Record,
    organization_id: Uuid,
    project_id: Uuid,
    application_id: Uuid,
    item_id: Uuid,
    cursor_deployed_at: Option<Timestamp>,
    cursor_release_id: Option<Uuid>,
    fetch_limit: i64,
    database: Database,
)
    ensures
        ({
            let values: Seq<Bound> = seq![
                organization_id.bound(),
                project_id.bound(),
                application_id.bound(),
                item_id.bound(),
                cursor_deployed_at.bound(),
                cursor_release_id.bound(),
                fetch_limit.bound(),
            ];
            condition::selects(
                InventoryRepository::page_of_releases(),
                release,
                values,
                database,
            ) <==> {
                &&& cursor_deployed_at is Some ==> {
                    &&& !condition::lacks(release, "r.deployed_at"@)
                    &&& {
                        ||| {
                            &&& release["r.deployed_at"@] != cursor_deployed_at.bound()
                            &&& (database.less)(
                                release["r.deployed_at"@],
                                cursor_deployed_at.bound(),
                            )
                        }
                        ||| {
                            &&& release["r.deployed_at"@] == cursor_deployed_at.bound()
                            &&& cursor_release_id is Some
                            &&& !condition::lacks(release, "r.id"@)
                            &&& (database.less)(release["r.id"@], cursor_release_id.bound())
                        }
                    }
                }
            }
        }),
{
    let values: Seq<Bound> = seq![
        organization_id.bound(),
        project_id.bound(),
        application_id.bound(),
        item_id.bound(),
        cursor_deployed_at.bound(),
        cursor_release_id.bound(),
        fetch_limit.bound(),
    ];
    let conditions = InventoryRepository::page_of_releases();
    assert(condition::selects(conditions, release, values, database) <==> {
        &&& conditions[0].holds(release, values, database)
    });
}

/// An event is on the page exactly where it is one of the application where one
/// is given, belongs to no item yet, comes behind the cursor where one is
/// given, and not behind the upper bound.
pub proof fn page_holds_the_unprojected_events(
    event: Record,
    organization_id: Uuid,
    project_id: Uuid,
    application_id: Option<Uuid>,
    identity_version: i16,
    cursor: Option<Uuid>,
    upper_bound: Uuid,
    limit: i64,
    database: Database,
)
    ensures
        ({
            let values: Seq<Bound> = seq![
                organization_id.bound(),
                project_id.bound(),
                application_id.bound(),
                identity_version.bound(),
                cursor.bound(),
                upper_bound.bound(),
                limit.bound(),
            ];
            condition::selects(
                InventoryRepository::page_of_unprojected(),
                event,
                values,
                database,
            ) <==> {
                &&& application_id is Some ==> condition::has(
                    event,
                    "e.application_id"@,
                    application_id.bound(),
                )
                &&& condition::lacks(event, "im.event_id"@)
                &&& cursor is Some ==> {
                    &&& !condition::lacks(event, "e.id"@)
                    &&& (database.less)(cursor.bound(), event["e.id"@])
                }
                &&& !condition::lacks(event, "e.id"@)
                &&& !(database.less)(upper_bound.bound(), event["e.id"@])
            }
        }),
{
    let values: Seq<Bound> = seq![
        organization_id.bound(),
        project_id.bound(),
        application_id.bound(),
        identity_version.bound(),
        cursor.bound(),
        upper_bound.bound(),
        limit.bound(),
    ];
    let conditions = InventoryRepository::page_of_unprojected();
    assert(condition::selects(conditions, event, values, database) <==> {
        &&& conditions[0].holds(event, values, database)
        &&& conditions[1].holds(event, values, database)
        &&& conditions[2].holds(event, values, database)
        &&& conditions[3].holds(event, values, database)
    });
}

/// The item is the one of the kind with the identity's version and digest.
pub proof fn item_is_known_by_its_identity(
    item: Record,
    organization_id: Uuid,
    project_id: Uuid,
    application_id: Uuid,
    inventory_kind: &str,
    identity_version: i16,
    identity_digest: &[u8],
    database: Database,
)
    ensures
        ({
            let values: Seq<Bound> = seq![
                organization_id.bound(),
                project_id.bound(),
                application_id.bound(),
                inventory_kind.bound(),
                identity_version.bound(),
                identity_digest.bound(),
            ];
            condition::selects(
                InventoryRepository::by_identity(),
                item,
                values,
                database,
            ) <==> {
                &&& condition::has(item, "inventory_kind"@, inventory_kind.bound())
                &&& condition::has(item, "identity_version"@, identity_version.bound())
                &&& condition::has(item, "identity_digest"@, identity_digest.bound())
            }
        }),
{
    let values: Seq<Bound> = seq![
        organization_id.bound(),
        project_id.bound(),
        application_id.bound(),
        inventory_kind.bound(),
        identity_version.bound(),
        identity_digest.bound(),
    ];
    let conditions = InventoryRepository::by_identity();
    assert(condition::selects(conditions, item, values, database) <==> {
        &&& conditions[0].holds(item, values, database)
        &&& conditions[1].holds(item, values, database)
        &&& conditions[2].holds(item, values, database)
    });
}

/// An item is known exactly where it has the id, in the identity version.
pub proof fn known_item_is_of_the_identity_version(
    item: Record,
    organization_id: Uuid,
    project_id: Uuid,
    application_id: Uuid,
    item_id: Uuid,
    identity_version: i16,
    database: Database,
)
    ensures
        ({
            let values: Seq<Bound> = seq![
                organization_id.bound(),
                project_id.bound(),
                application_id.bound(),
                item_id.bound(),
                identity_version.bound(),
            ];
            condition::selects(
                InventoryRepository::known_item(),
                item,
                values,
                database,
            ) <==> {
                &&& condition::has(item, "id"@, item_id.bound())
                &&& condition::has(item, "identity_version"@, identity_version.bound())
            }
        }),
{
    let values: Seq<Bound> = seq![
        organization_id.bound(),
        project_id.bound(),
        application_id.bound(),
        item_id.bound(),
        identity_version.bound(),
    ];
    let conditions = InventoryRepository::known_item();
    assert(condition::selects(conditions, item, values, database) <==> {
        &&& conditions[0].holds(item, values, database)
        &&& conditions[1].holds(item, values, database)
    });
}

/// The item is linked to the group exactly where a link has both.
pub proof fn link_joins_the_item_and_the_group(
    link: Record,
    organization_id: Uuid,
    project_id: Uuid,
    application_id: Uuid,
    item_id: Uuid,
    group_id: Uuid,
    database: Database,
)
    ensures
        ({
            let values: Seq<Bound> = seq![
                organization_id.bound(),
                project_id.bound(),
                application_id.bound(),
                item_id.bound(),
                group_id.bound(),
            ];
            condition::selects(
                InventoryRepository::link_to_group(),
                link,
                values,
                database,
            ) <==> {
                &&& condition::has(link, "item_id"@, item_id.bound())
                &&& condition::has(link, "group_id"@, group_id.bound())
            }
        }),
{
    let values: Seq<Bound> = seq![
        organization_id.bound(),
        project_id.bound(),
        application_id.bound(),
        item_id.bound(),
        group_id.bound(),
    ];
    let conditions = InventoryRepository::link_to_group();
    assert(condition::selects(conditions, link, values, database) <==> {
        &&& conditions[0].holds(link, values, database)
        &&& conditions[1].holds(link, values, database)
    });
}

/// An occurrence of an inbound endpoint is counted as any other, and its summary
/// remembers besides what was observed of it.
pub proof fn inbound_occurrence_is_counted_as_any_other(
    item: Record,
    item_id: Uuid,
    observed_at: Timestamp,
    listener_observed: bool,
    accept_observed: bool,
    database: Database,
)
    ensures
        ({
            let values: Seq<Bound> = seq![
                item_id.bound(),
                observed_at.bound(),
                listener_observed.bound(),
                accept_observed.bound(),
            ];
            update::changed(InventoryRepository::inbound_occurrence(), item, values, database)
                == update::changed(
                InventoryRepository::occurrence(),
                item,
                seq![item_id.bound(), observed_at.bound()],
                database,
            ).insert(
                "semantic_summary"@,
                (database.computes)(InventoryRepository::OBSERVED_ENDPOINT@, item, values),
            )
        }),
{
    broadcast use update::first_changes;

    reveal_strlit("semantic_summary");
    reveal_strlit("updated_at");
    assert("semantic_summary"@.len() == 16 && "updated_at"@.len() == 10);
    let values: Seq<Bound> = seq![
        item_id.bound(),
        observed_at.bound(),
        listener_observed.bound(),
        accept_observed.bound(),
    ];
    let fewer: Seq<Bound> = seq![item_id.bound(), observed_at.bound()];
    let changes = InventoryRepository::inbound_occurrence();
    let plain = InventoryRepository::occurrence();
    assert(changes =~= changes.take(changes.len() as int));
    assert(plain =~= plain.take(plain.len() as int));
    assert(changes.take(3) =~= plain.take(3));
    assert(forall|i: int|
        0 <= i < 3 ==> (#[trigger] changes[i]).value(item, values, database) == plain[i].value(
            item,
            fewer,
            database,
        ));
    assert(update::changed(changes, item, values, database) =~= update::changed(
        plain,
        item,
        fewer,
        database,
    ).insert(
        "semantic_summary"@,
        (database.computes)(InventoryRepository::OBSERVED_ENDPOINT@, item, values),
    ));
}

/// The questions on an item are asked so.
pub proof fn items_are_asked_so(column: Seq<char>, number: nat)
    ensures
        InventoryRepository::released_text(number)
            == "EXISTS(SELECT 1 FROM runtime_inventory_releases r WHERE r.item_id=i.id AND r.release_id="@
            + insert::placeholder(number) + ")"@,
        InventoryRepository::sighted_text(column, number)
            == "EXISTS(SELECT 1 FROM runtime_inventory_sightings s WHERE s.item_id=i.id AND s."@
            + column + "="@ + insert::placeholder(number) + ")"@,
        InventoryRepository::searched_text(number) == InventoryRepository::SEARCHED@
            + insert::placeholder(number) + InventoryRepository::SEARCHED_LABELS@
            + insert::placeholder(number) + ")"@,
{
}

/// An item is in a filter's scope exactly where it is what each part of the
/// filter asks for that is given, whatever statement reads it: `first` is where
/// the statement's values hold the scope.
pub proof fn items_are_narrowed_by_the_given_filters(
    item: Record,
    filter: InventoryFilter<'_>,
    before: Seq<Bound>,
    rest: Seq<Bound>,
    first: nat,
    database: Database,
)
    requires
        first == before.len() + 1,
    ensures
        ({
            let values = before + filter.scope() + rest;
            let sighted = |column: Seq<char>, number: nat|
                (database.answers)(
                    InventoryRepository::sighted_text(column, number),
                    item,
                    values,
                );
            condition::selects(InventoryRepository::narrowing(first), item, values, database)
                <==> {
                &&& filter.release_id is Some ==> (database.answers)(
                    InventoryRepository::released_text(first),
                    item,
                    values,
                )
                &&& filter.cluster_id is Some ==> sighted("cluster_id"@, first + 1)
                &&& filter.namespace is Some ==> sighted("namespace"@, first + 2)
                &&& filter.workload_kind is Some ==> sighted("workload_kind"@, first + 3)
                &&& filter.workload_name is Some ==> sighted("workload_name"@, first + 4)
                &&& filter.container_name is Some ==> sighted("container_name"@, first + 5)
                &&& filter.observed_from is Some ==> {
                    &&& !condition::lacks(item, "i.last_seen_at"@)
                    &&& !(database.less)(item["i.last_seen_at"@], filter.observed_from.bound())
                }
                &&& filter.observed_to is Some ==> {
                    &&& !condition::lacks(item, "i.first_seen_at"@)
                    &&& !(database.less)(filter.observed_to.bound(), item["i.first_seen_at"@])
                }
                &&& filter.operation is Some ==> condition::has(
                    item,
                    "i.semantic_summary->>'operation'"@,
                    filter.operation.bound(),
                )
            }
        }),
{
    let values = before + filter.scope() + rest;
    let conditions = InventoryRepository::narrowing(first);
    let at = first as int;
    assert(values[at - 1] == filter.release_id.bound());
    assert(values[at] == filter.cluster_id.bound());
    assert(values[at + 1] == filter.namespace.bound());
    assert(values[at + 2] == filter.workload_kind.bound());
    assert(values[at + 3] == filter.workload_name.bound());
    assert(values[at + 4] == filter.container_name.bound());
    assert(values[at + 5] == filter.observed_from.bound());
    assert(values[at + 6] == filter.observed_to.bound());
    assert(values[at + 7] == filter.operation.bound());
    assert(condition::selects(conditions, item, values, database) <==> {
        &&& conditions[0].holds(item, values, database)
        &&& conditions[1].holds(item, values, database)
        &&& conditions[2].holds(item, values, database)
        &&& conditions[3].holds(item, values, database)
        &&& conditions[4].holds(item, values, database)
        &&& conditions[5].holds(item, values, database)
        &&& conditions[6].holds(item, values, database)
        &&& conditions[7].holds(item, values, database)
        &&& conditions[8].holds(item, values, database)
    });
}

/// Where lists of conditions stand one behind the other, a row is selected where
/// each of them selects it.
proof fn lemma_lists_select(
    first: Seq<Condition>,
    second: Seq<Condition>,
    third: Seq<Condition>,
    record: Record,
    values: Seq<Bound>,
    database: Database,
)
    ensures
        condition::selects(first + second + third, record, values, database) <==> {
            &&& condition::selects(first, record, values, database)
            &&& condition::selects(second, record, values, database)
            &&& condition::selects(third, record, values, database)
        },
{
    let all = first + second + third;
    assert(forall|i: int| 0 <= i < first.len() ==> #[trigger] first[i] == all[i]);
    assert(forall|i: int|
        0 <= i < second.len() ==> #[trigger] second[i] == all[first.len() + i]);
    assert(forall|i: int|
        0 <= i < third.len() ==> #[trigger] third[i] == all[first.len() + second.len() + i]);
    if condition::selects(all, record, values, database) {
        assert forall|i: int| 0 <= i < first.len() implies (#[trigger] first[i]).holds(
            record,
            values,
            database,
        ) by {
            assert(all[i].holds(record, values, database));
        }
        assert forall|i: int| 0 <= i < second.len() implies (#[trigger] second[i]).holds(
            record,
            values,
            database,
        ) by {
            assert(all[first.len() + i].holds(record, values, database));
        }
        assert forall|i: int| 0 <= i < third.len() implies (#[trigger] third[i]).holds(
            record,
            values,
            database,
        ) by {
            assert(all[first.len() + second.len() + i].holds(record, values, database));
        }
    }
    if condition::selects(first, record, values, database) && condition::selects(
        second,
        record,
        values,
        database,
    ) && condition::selects(third, record, values, database) {
        assert forall|i: int| 0 <= i < all.len() implies (#[trigger] all[i]).holds(
            record,
            values,
            database,
        ) by {
            if i < first.len() {
                assert(first[i].holds(record, values, database));
            } else if i < first.len() + second.len() {
                assert(second[i - first.len()].holds(record, values, database));
            } else {
                assert(third[i - first.len() - second.len()].holds(record, values, database));
            }
        }
    }
}

/// An item is summed up exactly where it is of the identity version, in the
/// filter's scope, and like the search where one is given.
pub proof fn items_of_the_scope_are_summed_up(
    item: Record,
    filter: InventoryFilter<'_>,
    identity_version: i16,
    database: Database,
)
    ensures
        ({
            let values = filter.path(identity_version) + filter.scope();
            condition::selects(InventoryRepository::summed_up(), item, values, database) <==> {
                &&& condition::has(item, "i.identity_version"@, identity_version.bound())
                &&& condition::selects(InventoryRepository::narrowing(5), item, values, database)
                &&& filter.search is Some ==> (database.answers)(
                    InventoryRepository::searched_text(14),
                    item,
                    values,
                )
            }
        }),
{
    let values = filter.path(identity_version) + filter.scope();
    let first = seq![Condition::Compared("i.identity_version"@, Test::Equal, 4)];
    let third = seq![
        Condition::AskedIfGiven(InventoryRepository::searched_text(14), Kind::Text, 14),
    ];
    lemma_lists_select(first, InventoryRepository::narrowing(5), third, item, values, database);
    assert(condition::selects(first, item, values, database) <==> first[0].holds(
        item,
        values,
        database,
    ));
    assert(condition::selects(third, item, values, database) <==> third[0].holds(
        item,
        values,
        database,
    ));
}

/// An item is in the distribution exactly where it is of the identity version
/// and the kind, in the filter's scope, and like the search where one is given.
pub proof fn items_of_the_kind_are_distributed(
    item: Record,
    filter: InventoryFilter<'_>,
    identity_version: i16,
    kind: &str,
    limit: i64,
    database: Database,
)
    ensures
        ({
            let values = filter.path(identity_version) + seq![kind.bound()] + filter.scope() + seq![
                limit.bound(),
            ];
            condition::selects(InventoryRepository::distributed(), item, values, database) <==> {
                &&& condition::has(item, "i.identity_version"@, identity_version.bound())
                &&& condition::has(item, "i.inventory_kind"@, kind.bound())
                &&& condition::selects(InventoryRepository::narrowing(6), item, values, database)
                &&& filter.search is Some ==> (database.answers)(
                    InventoryRepository::IS_LIKE@,
                    item,
                    values,
                )
            }
        }),
{
    let values = filter.path(identity_version) + seq![kind.bound()] + filter.scope() + seq![
        limit.bound(),
    ];
    let first = seq![
        Condition::Compared("i.identity_version"@, Test::Equal, 4),
        Condition::Compared("i.inventory_kind"@, Test::Equal, 5),
    ];
    let third = seq![Condition::AskedIfGiven(InventoryRepository::IS_LIKE@, Kind::Text, 15)];
    lemma_lists_select(first, InventoryRepository::narrowing(6), third, item, values, database);
    assert(condition::selects(first, item, values, database) <==> {
        &&& first[0].holds(item, values, database)
        &&& first[1].holds(item, values, database)
    });
    assert(condition::selects(third, item, values, database) <==> third[0].holds(
        item,
        values,
        database,
    ));
}

/// An item is on the page exactly where it is of the identity version, of the
/// kind where one is given, in the filter's scope, what each other question asks
/// for that is given, and behind the cursor, or no cursor is given.
pub proof fn page_holds_the_items_asked_for(
    item: Record,
    filter: InventoryFilter<'_>,
    identity_version: i16,
    kind: Option<&str>,
    identity_item_id: Option<Uuid>,
    identity_digest: Option<Vec<u8>>,
    verdict: Option<&str>,
    suppressed: Option<bool>,
    evaluation_pending: Option<bool>,
    evaluator_version: i16,
    cursor_last_seen_at: Option<Timestamp>,
    cursor_id: Option<Uuid>,
    fetch_limit: i64,
    database: Database,
)
    ensures
        ({
            let values = filter.path(identity_version) + seq![kind.bound()] + filter.scope() + seq![
                identity_item_id.bound(),
                identity_digest.bound(),
                verdict.bound(),
                suppressed.bound(),
                evaluation_pending.bound(),
                evaluator_version.bound(),
                cursor_last_seen_at.bound(),
                cursor_id.bound(),
                fetch_limit.bound(),
            ];
            let asked = |text: Seq<char>| (database.answers)(text, item, values);
            let at = item["i.last_seen_at"@];
            let cursor = cursor_last_seen_at.bound();
            condition::selects(InventoryRepository::page_of_items(), item, values, database)
                <==> {
                &&& condition::has(item, "i.identity_version"@, identity_version.bound())
                &&& kind is Some ==> condition::has(item, "i.inventory_kind"@, kind.bound())
                &&& condition::selects(InventoryRepository::narrowing(6), item, values, database)
                &&& filter.search is Some ==> asked(InventoryRepository::searched_text(15))
                &&& identity_item_id is Some ==> asked(InventoryRepository::IS_IDENTIFIED@)
                &&& verdict is Some ==> asked(InventoryRepository::IS_JUDGED@)
                &&& suppressed is Some ==> asked(InventoryRepository::IS_SUPPRESSED@)
                &&& evaluation_pending is Some ==> asked(InventoryRepository::IS_PENDING@)
                &&& cursor_last_seen_at is Some ==> {
                    &&& !condition::lacks(item, "i.last_seen_at"@)
                    &&& {
                        ||| at != cursor && (database.less)(at, cursor)
                        ||| {
                            &&& at == cursor
                            &&& cursor_id is Some
                            &&& !condition::lacks(item, "i.id"@)
                            &&& (database.less)(item["i.id"@], cursor_id.bound())
                        }
                    }
                }
            }
        }),
{
    let values = filter.path(identity_version) + seq![kind.bound()] + filter.scope() + seq![
        identity_item_id.bound(),
        identity_digest.bound(),
        verdict.bound(),
        suppressed.bound(),
        evaluation_pending.bound(),
        evaluator_version.bound(),
        cursor_last_seen_at.bound(),
        cursor_id.bound(),
        fetch_limit.bound(),
    ];
    let first = seq![
        Condition::Compared("i.identity_version"@, Test::Equal, 4),
        Condition::ComparedIfGiven("i.inventory_kind"@, Test::Equal, Kind::Text, 5),
    ];
    let third = seq![
        Condition::AskedIfGiven(InventoryRepository::searched_text(15), Kind::Text, 15),
        Condition::AskedIfGiven(InventoryRepository::IS_IDENTIFIED@, Kind::Uuid, 16),
        Condition::AskedIfGiven(InventoryRepository::IS_JUDGED@, Kind::Text, 18),
        Condition::AskedIfGiven(InventoryRepository::IS_SUPPRESSED@, Kind::Boolean, 19),
        Condition::AskedIfGiven(InventoryRepository::IS_PENDING@, Kind::Boolean, 20),
        Condition::PairIfGiven("i.last_seen_at"@, "i.id"@, Test::Less, Kind::Timestamp, 22, 23),
    ];
    lemma_lists_select(first, InventoryRepository::narrowing(6), third, item, values, database);
    assert(condition::selects(first, item, values, database) <==> {
        &&& first[0].holds(item, values, database)
        &&& first[1].holds(item, values, database)
    });
    assert(condition::selects(third, item, values, database) <==> {
        &&& third[0].holds(item, values, database)
        &&& third[1].holds(item, values, database)
        &&& third[2].holds(item, values, database)
        &&& third[3].holds(item, values, database)
        &&& third[4].holds(item, values, database)
        &&& third[5].holds(item, values, database)
    });
}

} // verus!
