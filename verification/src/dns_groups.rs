//! DNS behaviour groups: the grouped view of an application's observed DNS
//! lookups, and the variants inside each group.
//!
//! All three statements share one filter and one grouping, and differ only in
//! what they select from it. They live together so the filter's sixteen bind
//! positions are written once.

use uuid::Uuid;
use vstd::prelude::*;

#[allow(unused_imports)]
use crate::statement::Bind;
use crate::condition::{Condition, Conditions, Database, Kind, Record, Test};
use crate::condition;
use crate::statement::{Bound, Statement, StatementView, Timestamp};
use crate::tenant::{After, Before, Layout, Start};
use crate::tenant;
use crate::text;

verus! {

broadcast use {tenant::known_aliases_name_tables, condition::known_words_are_plain};

/// The tenant path and the filters every DNS group statement applies, bound as
/// parameters `$1` to `$16`: the tenant path, the identity version, the other
/// filters in this order, and the evaluator version.
#[derive(Clone, Copy, Debug)]
pub struct DnsGroupFilter<'a> {
    pub organization_id: Uuid,
    pub project_id: Uuid,
    pub application_id: Uuid,
    pub release_id: Option<Uuid>,
    pub cluster_id: Option<Uuid>,
    pub namespace: Option<&'a str>,
    pub workload_kind: Option<&'a str>,
    pub workload_name: Option<&'a str>,
    pub container_name: Option<&'a str>,
    pub observed_from: Option<Timestamp>,
    pub observed_to: Option<Timestamp>,
    pub verdict: Option<&'a str>,
    pub suppressed: Option<bool>,
    pub evaluation_pending: Option<bool>,
}

/// The versions that DNS group statements read behaviour by: the identity
/// version of the inventory items, and the evaluator version of the policy
/// evaluations that count as current.
#[derive(Clone, Copy, Debug, PartialEq, Eq)]
pub struct Versions {
    pub identity: i16,
    pub evaluator: i16,
}

impl<'a> DnsGroupFilter<'a> {
    /// The filter as the first sixteen values of a statement.
    pub open spec fn values(self, versions: Versions) -> Seq<Bound> {
        seq![
            self.organization_id.bound(),
            self.project_id.bound(),
            self.application_id.bound(),
            versions.identity.bound(),
            self.release_id.bound(),
            self.cluster_id.bound(),
            self.namespace.bound(),
            self.workload_kind.bound(),
            self.workload_name.bound(),
            self.container_name.bound(),
            self.observed_from.bound(),
            self.observed_to.bound(),
            self.verdict.bound(),
            self.suppressed.bound(),
            self.evaluation_pending.bound(),
            versions.evaluator.bound(),
        ]
    }
}

/// Binds the filter to the sixteen placeholders that the grouping reads.
fn bind_filter(
    statement: Statement,
    filter: DnsGroupFilter<'_>,
    versions: Versions,
) -> (filtered: Statement)
    ensures
        filtered@ == (StatementView {
            parameters: statement@.parameters + filter.values(versions),
            ..statement@
        }),
{
    statement
        .bind(filter.organization_id)
        .bind(filter.project_id)
        .bind(filter.application_id)
        .bind(versions.identity)
        .bind(filter.release_id)
        .bind(filter.cluster_id)
        .bind(filter.namespace)
        .bind(filter.workload_kind)
        .bind(filter.workload_name)
        .bind(filter.container_name)
        .bind(filter.observed_from)
        .bind(filter.observed_to)
        .bind(filter.verdict)
        .bind(filter.suppressed)
        .bind(filter.evaluation_pending)
        .bind(versions.evaluator)
}

/// Reads behind the DNS groups endpoints.
#[derive(Clone, Copy, Debug)]
pub struct DnsGroupRepository;

impl DnsGroupRepository {
    /// The grouping: the application's observed lookups under the filter, their names
    /// normalized, and the groups that they form.
    pub const GROUP_CTE: &'static str = r#"
WITH scoped AS MATERIALIZED (
 SELECT e.id occurrence_id,i.id item_id,lower(trim(trailing '.' from i.semantic_summary->>'name')) canonical_name,
        upper(i.semantic_summary->>'query_type') query_type,e.process_command,e.observed_at,e.release_id,e.cluster_id,
        e.namespace,e.workload_kind,e.workload_name,e.pod_uid,e.container_name
 FROM runtime_inventory_event_memberships m JOIN runtime_inventory_items i ON i.id=m.item_id
 JOIN runtime_events e ON e.id=m.event_id
 "#;

    /// Whether the lookup's sighting has the verdict at `$13`, by the current policy
    /// state and the evaluator version at `$16`.
    pub const IS_JUDGED: &'static str =
        "EXISTS(SELECT 1 FROM runtime_sighting_policy_evaluations p JOIN runtime_policy_states ps ON ps.organization_id=p.organization_id AND ps.project_id=p.project_id AND ps.application_id=p.application_id WHERE p.item_id=i.id AND p.cluster_id=e.cluster_id AND p.namespace=e.namespace AND p.workload_kind=e.workload_kind AND p.workload_name=e.workload_name AND p.pod_uid=e.pod_uid AND p.container_name=e.container_name AND p.policy_state_version=ps.state_version AND p.evaluator_version=$16 AND p.verdict=$13)";

    /// Whether a live suppression covers the lookup, as `$14` says.
    pub const IS_SUPPRESSED: &'static str =
        "$14=EXISTS(SELECT 1 FROM runtime_policy_suppressions z WHERE z.organization_id=i.organization_id AND z.project_id=i.project_id AND z.application_id=i.application_id AND z.identity_version=i.identity_version AND z.identity_digest=i.identity_digest AND z.cancelled_at IS NULL AND z.expires_at>now() AND (cardinality(z.cluster_ids)=0 OR e.cluster_id=ANY(z.cluster_ids)) AND (cardinality(z.namespaces)=0 OR e.namespace=ANY(z.namespaces)) AND (cardinality(z.workload_kinds)=0 OR e.workload_kind=ANY(z.workload_kinds)) AND (cardinality(z.workload_names)=0 OR e.workload_name=ANY(z.workload_names)))";

    /// Whether the lookup's sighting is still to be evaluated, as `$15` says.
    pub const IS_PENDING: &'static str =
        "$15=EXISTS(SELECT 1 FROM runtime_inventory_sightings s LEFT JOIN runtime_sighting_policy_evaluations p ON p.item_id=s.item_id AND p.cluster_id=s.cluster_id AND p.namespace=s.namespace AND p.workload_kind=s.workload_kind AND p.workload_name=s.workload_name AND p.pod_uid=s.pod_uid AND p.container_name=s.container_name LEFT JOIN runtime_policy_states ps ON ps.organization_id=s.organization_id AND ps.project_id=s.project_id AND ps.application_id=s.application_id WHERE s.item_id=i.id AND s.cluster_id=e.cluster_id AND s.namespace=e.namespace AND s.workload_kind=e.workload_kind AND s.workload_name=e.workload_name AND s.pod_uid=e.pod_uid AND s.container_name=e.container_name AND (p.item_id IS NULL OR p.policy_state_version<>COALESCE(ps.state_version,0) OR p.evaluator_version<>$16))";

    pub const GROUP_CTE_TAIL: &'static str = r#"
), candidates AS MATERIALIZED (
 SELECT s.*,candidate.candidate_name,candidate.suffix_kind
 FROM scoped s
 CROSS JOIN LATERAL (
  VALUES
   (left(s.canonical_name,-length('.'||lower(s.namespace)||'.svc.cluster.local')),'namespace'),
   (left(s.canonical_name,-length('.svc.cluster.local')),'service'),
   (left(s.canonical_name,-length('.cluster.local')),'cluster')
 ) candidate(candidate_name,suffix_kind)
 WHERE (candidate.suffix_kind='namespace' AND s.canonical_name LIKE ('%.'||lower(s.namespace)||'.svc.cluster.local'))
    OR (candidate.suffix_kind='service' AND s.canonical_name LIKE '%.svc.cluster.local')
    OR (candidate.suffix_kind='cluster' AND s.canonical_name LIKE '%.cluster.local')
), candidate_evidence AS MATERIALIZED (
 SELECT candidate_name,process_command,cluster_id,namespace,pod_uid,container_name,
        count(DISTINCT canonical_name) exact_name_count,count(DISTINCT suffix_kind) suffix_kind_count
 FROM candidates
 GROUP BY candidate_name,process_command,cluster_id,namespace,pod_uid,container_name
), normalized AS MATERIALIZED (
 SELECT s.*,COALESCE(selected.candidate_name,s.canonical_name) display_name
 FROM scoped s
 LEFT JOIN LATERAL (
  SELECT c.candidate_name
  FROM candidates c
  JOIN candidate_evidence evidence ON evidence.candidate_name=c.candidate_name
   AND evidence.process_command=c.process_command AND evidence.cluster_id=c.cluster_id
   AND evidence.namespace=c.namespace AND evidence.pod_uid IS NOT DISTINCT FROM c.pod_uid
   AND evidence.container_name=c.container_name
  WHERE c.occurrence_id=s.occurrence_id AND c.item_id=s.item_id
   AND (EXISTS(
    SELECT 1 FROM scoped corroborating
    WHERE corroborating.process_command=c.process_command AND corroborating.canonical_name=c.candidate_name
     AND corroborating.cluster_id=c.cluster_id AND corroborating.namespace=c.namespace
     AND corroborating.pod_uid IS NOT DISTINCT FROM c.pod_uid
     AND corroborating.container_name=c.container_name
   ) OR (evidence.exact_name_count>=2 AND evidence.suffix_kind_count>=2))
  ORDER BY length(c.candidate_name) DESC,c.candidate_name
  LIMIT 1
 ) selected ON true
), groups AS MATERIALIZED (
 SELECT display_name,process_command,CASE WHEN bool_or(display_name<>canonical_name) THEN 'kubernetes_search_expansion' ELSE 'canonical_name' END grouping_reason,
 CASE WHEN bool_or(display_name<>canonical_name) THEN 'high' ELSE 'exact' END confidence,
 min(observed_at) first_seen_at,max(observed_at) last_seen_at,count(DISTINCT occurrence_id)::bigint observation_count,
 count(DISTINCT (item_id,canonical_name,query_type))::bigint variant_count,array_agg(DISTINCT query_type ORDER BY query_type) query_types,
 count(DISTINCT release_id)::bigint release_count,count(DISTINCT cluster_id)::bigint cluster_count,
 count(DISTINCT (cluster_id,namespace))::bigint namespace_count,count(DISTINCT (cluster_id,namespace,workload_kind,workload_name))::bigint workload_count,
 count(DISTINCT (cluster_id,pod_uid))::bigint pod_count,count(DISTINCT container_name)::bigint container_count,
 array_agg(DISTINCT canonical_name) exact_names
 FROM normalized GROUP BY display_name,process_command
)"#;

    /// The conditions that a lookup takes part in the grouping by, besides the
    /// tenant path, line by line.
    pub open spec fn lookups() -> Seq<Seq<Condition>> {
        seq![
            seq![Condition::Compared("i.identity_version"@, Test::Equal, 4)],
            seq![
                Condition::Word("i.inventory_kind"@, "domain"@),
                Condition::Positive("i.occurrence_count"@),
            ],
            seq![
                Condition::ComparedIfGiven("e.release_id"@, Test::Equal, Kind::Uuid, 5),
                Condition::ComparedIfGiven("e.cluster_id"@, Test::Equal, Kind::Uuid, 6),
            ],
            seq![
                Condition::ComparedIfGiven("e.namespace"@, Test::Equal, Kind::Text, 7),
                Condition::ComparedIfGiven("e.workload_kind"@, Test::Equal, Kind::Text, 8),
            ],
            seq![
                Condition::ComparedIfGiven("e.workload_name"@, Test::Equal, Kind::Text, 9),
                Condition::ComparedIfGiven("e.container_name"@, Test::Equal, Kind::Text, 10),
            ],
            seq![
                Condition::ComparedIfGiven("e.observed_at"@, Test::From, Kind::Timestamp, 11),
                Condition::ComparedIfGiven("e.observed_at"@, Test::UpTo, Kind::Timestamp, 12),
            ],
            seq![Condition::AskedIfGiven(Self::IS_JUDGED@, Kind::Text, 13)],
            seq![Condition::AskedIfGiven(Self::IS_SUPPRESSED@, Kind::Boolean, 14)],
            seq![Condition::AskedIfGiven(Self::IS_PENDING@, Kind::Boolean, 15)],
        ]
    }

    /// The text of those conditions.
    pub open spec fn lookups_text() -> Seq<char> {
        condition::all_text(Self::lookups()[0]) + "\n AND "@ + condition::all_text(
            Self::lookups()[1],
        ) + "\n AND "@ + condition::all_text(Self::lookups()[2]) + "\n AND "@
            + condition::all_text(Self::lookups()[3]) + "\n AND "@ + condition::all_text(
            Self::lookups()[4],
        ) + "\n AND "@ + condition::all_text(Self::lookups()[5]) + "\n AND "@
            + condition::all_text(Self::lookups()[6]) + "\n AND "@ + condition::all_text(
            Self::lookups()[7],
        ) + "\n AND "@ + condition::all_text(Self::lookups()[8])
    }

    /// The conditions that a lookup takes part in the grouping by.
    fn looked_up() -> (text: String)
        ensures
            text@ == Self::lookups_text(),
    {
        let identity = Conditions::new().compared("i.identity_version", Test::Equal, 4);
        let kind = Conditions::new().word("i.inventory_kind", "domain").positive(
            "i.occurrence_count",
        );
        let source = Conditions::new()
            .compared_if_given("e.release_id", Test::Equal, Kind::Uuid, 5)
            .compared_if_given("e.cluster_id", Test::Equal, Kind::Uuid, 6);
        let place = Conditions::new()
            .compared_if_given("e.namespace", Test::Equal, Kind::Text, 7)
            .compared_if_given("e.workload_kind", Test::Equal, Kind::Text, 8);
        let workload = Conditions::new()
            .compared_if_given("e.workload_name", Test::Equal, Kind::Text, 9)
            .compared_if_given("e.container_name", Test::Equal, Kind::Text, 10);
        let window = Conditions::new()
            .compared_if_given("e.observed_at", Test::From, Kind::Timestamp, 11)
            .compared_if_given("e.observed_at", Test::UpTo, Kind::Timestamp, 12);
        let verdict = Conditions::new().asked_if_given(Self::IS_JUDGED, Kind::Text, 13);
        let suppressed = Conditions::new().asked_if_given(Self::IS_SUPPRESSED, Kind::Boolean, 14);
        let pending = Conditions::new().asked_if_given(Self::IS_PENDING, Kind::Boolean, 15);
        assert(identity@ =~= Self::lookups()[0]);
        assert(kind@ =~= Self::lookups()[1]);
        assert(source@ =~= Self::lookups()[2]);
        assert(place@ =~= Self::lookups()[3]);
        assert(workload@ =~= Self::lookups()[4]);
        assert(window@ =~= Self::lookups()[5]);
        assert(verdict@ =~= Self::lookups()[6]);
        assert(suppressed@ =~= Self::lookups()[7]);
        assert(pending@ =~= Self::lookups()[8]);
        identity.into_text()
            .concat("\n AND ")
            .concat(kind.into_text().as_str())
            .concat("\n AND ")
            .concat(source.into_text().as_str())
            .concat("\n AND ")
            .concat(place.into_text().as_str())
            .concat("\n AND ")
            .concat(workload.into_text().as_str())
            .concat("\n AND ")
            .concat(window.into_text().as_str())
            .concat("\n AND ")
            .concat(verdict.into_text().as_str())
            .concat("\n AND ")
            .concat(suppressed.into_text().as_str())
            .concat("\n AND ")
            .concat(pending.into_text().as_str())
    }

    /// The groups whose names match the pattern at `$17`, with totals over all of
    /// them.
    pub const FILTERED: &'static str =
        ", filtered AS (SELECT *,count(*) OVER()::bigint total_group_count,sum(observation_count) OVER()::bigint total_observation_count FROM groups WHERE ($17::text IS NULL OR display_name ILIKE $17 OR EXISTS(SELECT 1 FROM unnest(exact_names) n WHERE n ILIKE $17))) ";

    /// The group projection: every column of the grouping, and the totals.
    pub const GROUP_COLUMNS: &'static str =
        "display_name,process_command,grouping_reason,confidence,first_seen_at,last_seen_at,observation_count,variant_count,query_types,release_count,cluster_count,namespace_count,workload_count,pod_count,container_count,exact_names,total_group_count,total_observation_count";

    /// The text that reads from the grouping.
    pub open spec fn grouped_text(query: Seq<char>) -> Seq<char> {
        tenant::application_text(
            Self::GROUP_CTE@,
            Before::Where,
            "i."@,
            Layout::Tight,
            After::And,
            Self::lookups_text() + Self::GROUP_CTE_TAIL@ + query,
        )
    }

    /// Reads from the grouping.
    fn grouped(query: &str) -> (text: String)
        ensures
            text@ == Self::grouped_text(query@),
            tenant::conditions_on_application(text@, Start::First),
            forall|columns: Seq<char>|
                #![trigger text::gives(text@, columns)]
                text::gives(query@, columns) ==> text::gives(text@, columns),
    {
        let tail = Self::looked_up().concat(Self::GROUP_CTE_TAIL).concat(query);
        let text = tenant::application(
            Self::GROUP_CTE,
            Before::Where,
            "i.",
            Layout::Tight,
            After::And,
            tail.as_str(),
        );
        proof {
            let filter = tenant::application_filter("i."@, Layout::Tight, Start::First);
            let before = Self::GROUP_CTE@ + Before::Where.text() + filter
                + After::And.text(Layout::Tight) + Self::lookups_text() + Self::GROUP_CTE_TAIL@;
            assert(text@ =~= before + query@);
            assert forall|columns: Seq<char>| text::gives(query@, columns) implies #[trigger]
                text::gives(text@, columns) by {
                text::lemma_given_behind(before, query@, columns);
            }
        }
        text
    }

    /// The text that selects those of the matching groups that `rest` asks for.
    pub open spec fn filtered_text(rest: Seq<char>) -> Seq<char> {
        Self::FILTERED@ + text::select_text(Self::GROUP_COLUMNS@, rest)
    }

    /// Selects those of the matching groups that `rest` asks for.
    fn filtered(rest: &str) -> (text: String)
        ensures
            text@ == Self::filtered_text(rest@),
            text::gives(text@, Self::GROUP_COLUMNS@),
    {
        let selection = text::select(Self::GROUP_COLUMNS, rest);
        let text = text::join(Self::FILTERED, selection.as_str());
        proof {
            text::lemma_given_behind(Self::FILTERED@, selection@, Self::GROUP_COLUMNS@);
        }
        text
    }

    pub const GROUPS: &'static str =
        "filtered WHERE ($18::timestamptz IS NULL OR (last_seen_at,display_name,process_command)<($18,$19,$20)) ORDER BY last_seen_at DESC,display_name DESC,process_command DESC LIMIT $21";

    /// One page of groups, newest sighting first, keyed by
    /// `(last_seen_at, display_name, process_command)`.
    ///
    /// Selects every column of the grouping CTE plus `total_group_count` and
    /// `total_observation_count` over the whole filtered set. `pattern` is a
    /// `LIKE` pattern, without regard to case, over the display name and the
    /// exact names folded into it; `fetch_limit` is the number of rows to
    /// return, which callers set one above the page size to detect a next page.
    pub fn groups(
        filter: DnsGroupFilter<'_>,
        versions: Versions,
        pattern: Option<String>,
        cursor_last_seen_at: Option<Timestamp>,
        cursor_display_name: Option<&str>,
        cursor_process_command: Option<&str>,
        fetch_limit: i64,
    ) -> (statement: Statement)
        ensures
            statement@ == StatementView::all(
                Self::grouped_text(Self::filtered_text(Self::GROUPS@)),
                filter.values(versions) + seq![
                    pattern.bound(),
                    cursor_last_seen_at.bound(),
                    cursor_display_name.bound(),
                    cursor_process_command.bound(),
                    fetch_limit.bound(),
                ],
            ),
            statement@.text == Self::GROUP_CTE@
                + "WHERE i.organization_id=$1 AND i.project_id=$2 AND i.application_id=$3 AND "@
                + Self::lookups_text() + Self::GROUP_CTE_TAIL@ + Self::FILTERED@ + "SELECT "@
                + Self::GROUP_COLUMNS@ + " FROM "@ + Self::GROUPS@,
            tenant::filters_by_application(
                statement@,
                filter.organization_id,
                filter.project_id,
                filter.application_id,
            ),
            text::gives(statement@.text, Self::GROUP_COLUMNS@),
    {
        let query = Self::filtered(Self::GROUPS);
        let text = Self::grouped(query.as_str());
        proof {
            grouping_reads_the_lookups(Self::filtered_text(Self::GROUPS@));
            text::lemma_selection_in_pieces(
                Self::GROUP_CTE@
                    + "WHERE i.organization_id=$1 AND i.project_id=$2 AND i.application_id=$3 AND "@
                    + Self::lookups_text() + Self::GROUP_CTE_TAIL@,
                Self::FILTERED@,
                "SELECT "@,
                Self::GROUP_COLUMNS@,
                " FROM "@,
                Self::GROUPS@,
            );
        }
        bind_filter(Statement::all(text.as_str()), filter, versions)
            .bind(pattern)
            .bind(cursor_last_seen_at)
            .bind(cursor_display_name)
            .bind(cursor_process_command)
            .bind(fetch_limit)
    }

    pub const DISTRIBUTION: &'static str =
        "filtered ORDER BY observation_count DESC,display_name ASC,process_command ASC LIMIT $18";

    /// The largest groups by observation count, for the distribution view.
    ///
    /// Selects the same columns as [`Self::groups`].
    pub fn distribution(
        filter: DnsGroupFilter<'_>,
        versions: Versions,
        pattern: Option<String>,
        limit: i64,
    ) -> (statement: Statement)
        ensures
            statement@ == StatementView::all(
                Self::grouped_text(Self::filtered_text(Self::DISTRIBUTION@)),
                filter.values(versions) + seq![pattern.bound(), limit.bound()],
            ),
            statement@.text == Self::GROUP_CTE@
                + "WHERE i.organization_id=$1 AND i.project_id=$2 AND i.application_id=$3 AND "@
                + Self::lookups_text() + Self::GROUP_CTE_TAIL@ + Self::FILTERED@ + "SELECT "@
                + Self::GROUP_COLUMNS@ + " FROM "@ + Self::DISTRIBUTION@,
            tenant::filters_by_application(
                statement@,
                filter.organization_id,
                filter.project_id,
                filter.application_id,
            ),
            text::gives(statement@.text, Self::GROUP_COLUMNS@),
    {
        let query = Self::filtered(Self::DISTRIBUTION);
        let text = Self::grouped(query.as_str());
        proof {
            grouping_reads_the_lookups(Self::filtered_text(Self::DISTRIBUTION@));
            text::lemma_selection_in_pieces(
                Self::GROUP_CTE@
                    + "WHERE i.organization_id=$1 AND i.project_id=$2 AND i.application_id=$3 AND "@
                    + Self::lookups_text() + Self::GROUP_CTE_TAIL@,
                Self::FILTERED@,
                "SELECT "@,
                Self::GROUP_COLUMNS@,
                " FROM "@,
                Self::DISTRIBUTION@,
            );
        }
        bind_filter(Statement::all(text.as_str()), filter, versions)
            .bind(pattern)
            .bind(limit)
    }

    pub const VARIANTS: &'static str =
        ", selected AS (SELECT n.item_id,n.canonical_name name,n.query_type,min(n.observed_at) first_seen_at,max(n.observed_at) last_seen_at,count(DISTINCT n.occurrence_id)::bigint observation_count FROM normalized n WHERE n.display_name=$17 AND n.process_command=$18 GROUP BY n.item_id,n.canonical_name,n.query_type) SELECT item_id,name,query_type,first_seen_at,last_seen_at,observation_count FROM selected WHERE ($19::uuid IS NULL OR item_id>$19) ORDER BY item_id ASC LIMIT $20";

    /// One page of the name and query-type variants inside a group, keyed by
    /// `item_id`.
    ///
    /// Selects `item_id`, `name`, `query_type`, `first_seen_at`,
    /// `last_seen_at` and `observation_count`. An empty result means the group
    /// has no variants under this filter, which callers treat as not found.
    pub fn variants(
        filter: DnsGroupFilter<'_>,
        versions: Versions,
        display_name: &str,
        process_command: &str,
        cursor_item_id: Option<Uuid>,
        fetch_limit: i64,
    ) -> (statement: Statement)
        ensures
            statement@ == StatementView::all(
                Self::grouped_text(Self::VARIANTS@),
                filter.values(versions) + seq![
                    display_name.bound(),
                    process_command.bound(),
                    cursor_item_id.bound(),
                    fetch_limit.bound(),
                ],
            ),
            statement@.text == Self::GROUP_CTE@
                + "WHERE i.organization_id=$1 AND i.project_id=$2 AND i.application_id=$3 AND "@
                + Self::lookups_text() + Self::GROUP_CTE_TAIL@ + Self::VARIANTS@,
            tenant::filters_by_application(
                statement@,
                filter.organization_id,
                filter.project_id,
                filter.application_id,
            ),
    {
        let text = Self::grouped(Self::VARIANTS);
        proof {
            grouping_reads_the_lookups(Self::VARIANTS@);
        }
        bind_filter(Statement::all(text.as_str()), filter, versions)
            .bind(display_name)
            .bind(process_command)
            .bind(cursor_item_id)
            .bind(fetch_limit)
    }
}

/// The filter takes the first sixteen positions, `$1` to `$16`, whatever a
/// statement binds after it, and starts with the tenant path.
pub proof fn filter_takes_sixteen_positions(
    filter: DnsGroupFilter<'_>,
    versions: Versions,
    rest: Seq<Bound>,
)
    ensures
        filter.values(versions).len() == 16,
        (filter.values(versions) + rest).take(16) == filter.values(versions),
        (filter.values(versions) + rest)[0] == filter.organization_id.bound(),
        (filter.values(versions) + rest)[1] == filter.project_id.bound(),
        (filter.values(versions) + rest)[2] == filter.application_id.bound(),
{
    assert((filter.values(versions) + rest).take(16) =~= filter.values(versions));
}

/// Every statement reads from the same grouping: whatever it asks of it, its
/// text starts with the same text.
pub proof fn statements_share_the_grouping(query: Seq<char>)
    ensures
        DnsGroupRepository::grouped_text(Seq::empty()).is_prefix_of(
            DnsGroupRepository::grouped_text(query),
        ),
{
    let grouping = DnsGroupRepository::grouped_text(Seq::empty());
    let whole = DnsGroupRepository::grouped_text(query);
    assert(whole =~= grouping + query);
}

/// The grouping reads the lookups of the application at `$1` to `$3` that meet
/// the conditions, and nothing else stands between the path and the grouping, or
/// between the grouping and what a statement asks of it.
pub proof fn grouping_reads_the_lookups(query: Seq<char>)
    ensures
        DnsGroupRepository::grouped_text(query) == DnsGroupRepository::GROUP_CTE@
            + "WHERE i.organization_id=$1 AND i.project_id=$2 AND i.application_id=$3 AND "@
            + DnsGroupRepository::lookups_text() + DnsGroupRepository::GROUP_CTE_TAIL@ + query,
{
    let path = "WHERE "@ + tenant::application_filter("i."@, Layout::Tight, Start::First)
        + After::And.text(Layout::Tight);
    assert(path =~= "WHERE i.organization_id=$1 AND i.project_id=$2 AND i.application_id=$3 AND "@)
        by {
        reveal_strlit("WHERE ");
        reveal_strlit("i.");
        reveal_strlit("organization_id");
        reveal_strlit("project_id");
        reveal_strlit("application_id");
        reveal_strlit("=");
        reveal_strlit("$1");
        reveal_strlit("$2");
        reveal_strlit("$3");
        reveal_strlit(" AND ");
        reveal_strlit(
            "WHERE i.organization_id=$1 AND i.project_id=$2 AND i.application_id=$3 AND ",
        );
    }
    text::lemma_filter_as_one(
        DnsGroupRepository::GROUP_CTE@,
        "WHERE "@,
        tenant::application_filter("i."@, Layout::Tight, Start::First),
        After::And.text(Layout::Tight),
        DnsGroupRepository::lookups_text(),
        DnsGroupRepository::GROUP_CTE_TAIL@,
        query,
    );
}

/// A lookup takes part in the grouping exactly where it has the identity
/// version, the kind of a domain, evidence, and what each filter that is given
/// asks for. Where no filter is given, every such lookup takes part, whatever its
/// query type or anything else of it.
pub proof fn lookups_take_part_by_the_given_filters(
    lookup: Record,
    filter: DnsGroupFilter<'_>,
    versions: Versions,
    rest: Seq<Bound>,
    count: i64,
    database: Database,
)
    requires
        condition::has(lookup, "i.occurrence_count"@, Bound::BigInt(Some(count))),
        !condition::lacks(lookup, "e.observed_at"@),
    ensures
        ({
            let values = filter.values(versions) + rest;
            let at = lookup["e.observed_at"@];
            let takes_part = forall|line: int|
                0 <= line < DnsGroupRepository::lookups().len() ==> condition::selects(
                    #[trigger] DnsGroupRepository::lookups()[line],
                    lookup,
                    values,
                    database,
                );
            takes_part <==> {
                &&& condition::has(
                    lookup,
                    "i.identity_version"@,
                    Bound::SmallInt(Some(versions.identity)),
                )
                &&& condition::has(lookup, "i.inventory_kind"@, Bound::Text(Some("domain"@)))
                &&& count > 0
                &&& filter.release_id matches Some(id) ==> condition::has(
                    lookup,
                    "e.release_id"@,
                    Bound::Uuid(Some(id)),
                )
                &&& filter.cluster_id matches Some(id) ==> condition::has(
                    lookup,
                    "e.cluster_id"@,
                    Bound::Uuid(Some(id)),
                )
                &&& filter.namespace matches Some(name) ==> condition::has(
                    lookup,
                    "e.namespace"@,
                    Bound::Text(Some(name@)),
                )
                &&& filter.workload_kind matches Some(name) ==> condition::has(
                    lookup,
                    "e.workload_kind"@,
                    Bound::Text(Some(name@)),
                )
                &&& filter.workload_name matches Some(name) ==> condition::has(
                    lookup,
                    "e.workload_name"@,
                    Bound::Text(Some(name@)),
                )
                &&& filter.container_name matches Some(name) ==> condition::has(
                    lookup,
                    "e.container_name"@,
                    Bound::Text(Some(name@)),
                )
                &&& filter.observed_from matches Some(from) ==> !(database.less)(
                    at,
                    Bound::Timestamp(Some(from)),
                )
                &&& filter.observed_to matches Some(to) ==> !(database.less)(
                    Bound::Timestamp(Some(to)),
                    at,
                )
                &&& filter.verdict is Some ==> (database.answers)(
                    DnsGroupRepository::IS_JUDGED@,
                    lookup,
                    values,
                )
                &&& filter.suppressed is Some ==> (database.answers)(
                    DnsGroupRepository::IS_SUPPRESSED@,
                    lookup,
                    values,
                )
                &&& filter.evaluation_pending is Some ==> (database.answers)(
                    DnsGroupRepository::IS_PENDING@,
                    lookup,
                    values,
                )
            }
        }),
{
    let values = filter.values(versions) + rest;
    let lines = DnsGroupRepository::lookups();
    let met = |line: int, i: int| lines[line][i].holds(lookup, values, database);
    assert(lines.len() == 9);
    assert(condition::selects(lines[0], lookup, values, database) <==> met(0, 0));
    assert(condition::selects(lines[1], lookup, values, database) <==> met(1, 0) && met(1, 1));
    assert(condition::selects(lines[2], lookup, values, database) <==> met(2, 0) && met(2, 1));
    assert(condition::selects(lines[3], lookup, values, database) <==> met(3, 0) && met(3, 1));
    assert(condition::selects(lines[4], lookup, values, database) <==> met(4, 0) && met(4, 1));
    assert(condition::selects(lines[5], lookup, values, database) <==> met(5, 0) && met(5, 1));
    assert(condition::selects(lines[6], lookup, values, database) <==> met(6, 0));
    assert(condition::selects(lines[7], lookup, values, database) <==> met(7, 0));
    assert(condition::selects(lines[8], lookup, values, database) <==> met(8, 0));
}

/// The conditions on a lookup are written line by line, each behind `AND`, and
/// nothing else stands between them. Those of each line are written as they are.
pub proof fn lookups_are_written_line_by_line()
    ensures
        ({
            let version = Condition::Compared("i.identity_version"@, Test::Equal, 4);
            let domain = Condition::Word("i.inventory_kind"@, "domain"@);
            let evidence = Condition::Positive("i.occurrence_count"@);
            let given = |column: Seq<char>, kind: Kind, number: nat|
                Condition::ComparedIfGiven(column, Test::Equal, kind, number).text();
            let window = |test: Test, number: nat|
                Condition::ComparedIfGiven(
                    "e.observed_at"@,
                    test,
                    Kind::Timestamp,
                    number,
                ).text();
            let asked = |text: Seq<char>, kind: Kind, number: nat|
                Condition::AskedIfGiven(text, kind, number).text();
            let line = "\n AND "@;
            let and = " AND "@;
            let identity = version.text() + line + (domain.text() + and + evidence.text());
            let source = given("e.release_id"@, Kind::Uuid, 5) + and + given(
                "e.cluster_id"@,
                Kind::Uuid,
                6,
            );
            let place = given("e.namespace"@, Kind::Text, 7) + and + given(
                "e.workload_kind"@,
                Kind::Text,
                8,
            );
            let workload = given("e.workload_name"@, Kind::Text, 9) + and + given(
                "e.container_name"@,
                Kind::Text,
                10,
            );
            let times = window(Test::From, 11) + and + window(Test::UpTo, 12);
            let verdict = asked(DnsGroupRepository::IS_JUDGED@, Kind::Text, 13);
            let suppressed = asked(DnsGroupRepository::IS_SUPPRESSED@, Kind::Boolean, 14);
            let pending = asked(DnsGroupRepository::IS_PENDING@, Kind::Boolean, 15);
            DnsGroupRepository::lookups_text() == identity + line + source + line + place + line
                + workload + line + times + line + verdict + line + suppressed + line + pending
        }),
{
    let lines = DnsGroupRepository::lookups();
    lemma_pair_text(lines[1]);
    lemma_pair_text(lines[2]);
    lemma_pair_text(lines[3]);
    lemma_pair_text(lines[4]);
    lemma_pair_text(lines[5]);
}

/// Two conditions are written with `AND` between them.
proof fn lemma_pair_text(conditions: Seq<Condition>)
    requires
        conditions.len() == 2,
    ensures
        condition::all_text(conditions) == conditions[0].text() + " AND "@ + conditions[1].text(),
{
    assert(condition::all_text(conditions.drop_last()) == conditions[0].text());
}

} // verus!
