//! Clusters and the agents in them: the clusters of an organization, the
//! credentials a cluster's agents authenticate with, the agents that
//! registered from each node, and their sessions.

use serde_json::Value;
use uuid::Uuid;
use vstd::prelude::*;

#[allow(unused_imports)]
use crate::statement::Bind;
use crate::condition::{Condition, Conditions, Database, Record, Test};
use crate::condition;
use crate::insert::{Row, Style};
use crate::insert;
use crate::statement::{Bound, Fetch, Statement, StatementView};
use crate::text;
use crate::update::{Change, Changes, Form};
use crate::update;
use crate::upsert::{Table, Target, Upsert, UpsertView};
use crate::upsert;

verus! {

broadcast use condition::known_words_are_plain;

/// Clusters, cluster credentials, agents and agent sessions.
#[derive(Clone, Copy, Debug)]
pub struct ClusterRepository;

impl ClusterRepository {
    /// A cluster by its external id, with its name.
    pub open spec fn named(
        id: Uuid,
        organization_id: Uuid,
        external_id: &str,
        name: &str,
    ) -> UpsertView {
        upsert::upsert(Style::Spaced, Target::Wide, "clusters"@)
            .kept("id"@, id.bound())
            .key("organization_id"@, organization_id.bound())
            .key("external_id"@, external_id.bound())
            .replaced("name"@, name.bound())
    }

    /// Records a cluster, or renames the organization's one with this
    /// external id, and returns its id.
    pub fn upsert(
        id: Uuid,
        organization_id: Uuid,
        external_id: &str,
        name: &str,
    ) -> (statement: Statement)
        ensures
            statement@ == Self::named(id, organization_id, external_id, name).finish(
                " RETURNING id"@,
                Fetch::One,
            ),
    {
        Upsert::new(Style::Spaced, Target::Wide, "clusters")
            .kept("id", id)
            .key("organization_id", organization_id)
            .key("external_id", external_id)
            .replaced("name", name)
            .finish(" RETURNING id", Fetch::One)
    }

    pub const UPSERT_CREDENTIAL: &'static str =
        " ON CONFLICT (credential_hash) DO UPDATE SET revoked_at = NULL";

    /// Records a cluster credential by its hash, or reinstates a revoked one.
    pub fn upsert_credential(
        id: Uuid,
        organization_id: Uuid,
        cluster_id: Uuid,
        credential_hash: Vec<u8>,
    ) -> (statement: Statement)
        ensures
            statement@ == insert::row(Style::Spaced, "cluster_credentials"@)
                .set("id"@, id.bound())
                .set("organization_id"@, organization_id.bound())
                .set("cluster_id"@, cluster_id.bound())
                .set("credential_hash"@, credential_hash.bound())
                .finish(Self::UPSERT_CREDENTIAL@, Fetch::Affected),
    {
        Row::new(Style::Spaced, "cluster_credentials")
            .set("id", id)
            .set("organization_id", organization_id)
            .set("cluster_id", cluster_id)
            .set("credential_hash", credential_hash)
            .finish(Self::UPSERT_CREDENTIAL, Fetch::Affected)
    }

    pub const UPSERT_BY_EXTERNAL_ID: &'static str =
        " ON CONFLICT(organization_id,external_id) DO UPDATE SET name=COALESCE($4,clusters.name) RETURNING id";

    /// Records the cluster an agent reports by its external id, or updates
    /// its name when one is given, and returns its id.
    pub fn upsert_by_external_id(
        id: Uuid,
        organization_id: Uuid,
        external_id: String,
        name: Option<&str>,
    ) -> (statement: Statement)
        ensures
            statement@ == insert::row(Style::Tight, "clusters"@)
                .set("id"@, id.bound())
                .set("organization_id"@, organization_id.bound())
                .set("external_id"@, external_id.bound())
                .computed_from_both("name"@, "COALESCE("@, name.bound(), ","@, 3, ")"@)
                .finish(Self::UPSERT_BY_EXTERNAL_ID@, Fetch::One),
    {
        Row::new(Style::Tight, "clusters")
            .set("id", id)
            .set("organization_id", organization_id)
            .set("external_id", external_id)
            .computed_from_both("name", "COALESCE(", name, ",", 3, ")")
            .finish(Self::UPSERT_BY_EXTERNAL_ID, Fetch::One)
    }

    /// The agent of a node.
    pub open spec fn agent(
        id: Uuid,
        organization_id: Uuid,
        cluster_id: Uuid,
        node_name: &str,
        agent_version: &str,
        architecture: Option<&str>,
        kernel_release: Option<&str>,
        capabilities: Value,
    ) -> UpsertView {
        upsert::upsert(Style::Mixed, Target::Spaced, "agents"@)
            .kept("id"@, id.bound())
            .kept("organization_id"@, organization_id.bound())
            .key("cluster_id"@, cluster_id.bound())
            .key("node_name"@, node_name.bound())
            .replaced("agent_version"@, agent_version.bound())
            .replaced("architecture"@, architecture.bound())
            .replaced("kernel_release"@, kernel_release.bound())
            .replaced("capabilities"@, capabilities.bound())
    }

    /// Records the agent of a node, or refreshes its version, platform and
    /// capabilities, and returns its id.
    pub fn register_agent(
        id: Uuid,
        organization_id: Uuid,
        cluster_id: Uuid,
        node_name: &str,
        agent_version: &str,
        architecture: Option<&str>,
        kernel_release: Option<&str>,
        capabilities: Value,
    ) -> (statement: Statement)
        ensures
            statement@ == Self::agent(
                id,
                organization_id,
                cluster_id,
                node_name,
                agent_version,
                architecture,
                kernel_release,
                capabilities,
            ).finish(", last_seen_at=now() RETURNING id"@, Fetch::One),
    {
        Upsert::new(Style::Mixed, Target::Spaced, "agents")
            .kept("id", id)
            .kept("organization_id", organization_id)
            .key("cluster_id", cluster_id)
            .key("node_name", node_name)
            .replaced("agent_version", agent_version)
            .replaced("architecture", architecture)
            .replaced("kernel_release", kernel_release)
            .replaced("capabilities", capabilities)
            .finish(", last_seen_at=now() RETURNING id", Fetch::One)
    }

    /// Records a new agent session.
    pub fn open_session(
        id: Uuid,
        organization_id: Uuid,
        cluster_id: Uuid,
        agent_id: Uuid,
        protocol_version: i32,
    ) -> (statement: Statement)
        ensures
            statement@ == insert::row(Style::Mixed, "agent_sessions"@)
                .set("id"@, id.bound())
                .set("organization_id"@, organization_id.bound())
                .set("cluster_id"@, cluster_id.bound())
                .set("agent_id"@, agent_id.bound())
                .set("protocol_version"@, protocol_version.bound())
                .finish(""@, Fetch::Affected),
    {
        Row::new(Style::Mixed, "agent_sessions")
            .set("id", id)
            .set("organization_id", organization_id)
            .set("cluster_id", cluster_id)
            .set("agent_id", agent_id)
            .set("protocol_version", protocol_version)
            .finish("", Fetch::Affected)
    }

    /// What a sign of life changes in an agent.
    pub open spec fn sign_of_life() -> Seq<Change> {
        seq![Change::Now("last_seen_at"@)]
    }

    /// The conditions on the agent of an id.
    pub open spec fn agent_by_id() -> Seq<Condition> {
        seq![Condition::Compared("id"@, Test::Equal, 1)]
    }

    /// Records that the agent was seen now.
    pub fn touch_agent(agent_id: Uuid) -> (statement: Statement)
        ensures
            statement@ == StatementView::affected(
                "UPDATE agents SET "@ + update::all_text(Self::sign_of_life(), Form::Tight)
                    + " WHERE "@ + condition::all_text(Self::agent_by_id()),
                seq![agent_id.bound()]),
    {
        let changes = Changes::new(Form::Tight)
            .now("last_seen_at");
        let conditions = Conditions::new().compared("id", Test::Equal, 1);
        assert(changes@ =~= Self::sign_of_life());
        assert(conditions@ =~= Self::agent_by_id());
        let text = text::join("UPDATE agents SET ", changes.into_text().as_str())
            .concat(" WHERE ")
            .concat(conditions.into_text().as_str());
        Statement::affected(text.as_str()).bind(agent_id)
    }
}

/// An organization has one cluster of an external id. Where one has it, only its
/// name changes and its id stays; where none has, the cluster is added. Every
/// other cluster is as it was.
pub proof fn external_id_keeps_one_cluster(
    table: Table,
    id: Uuid,
    organization_id: Uuid,
    external_id: &str,
    name: &str,
    less: spec_fn(Bound, Bound) -> bool,
)
    requires
        ({
            let key: Seq<Bound> = seq![organization_id.bound(), external_id.bound()];
            table.contains_key(key) ==> table[key].len() == 4
        }),
    ensures
        ({
            let key: Seq<Bound> = seq![organization_id.bound(), external_id.bound()];
            ClusterRepository::named(id, organization_id, external_id, name).applied(table, less)
                == table.insert(
                key,
                if table.contains_key(key) {
                    table[key].update(3, name.bound())
                } else {
                    seq![id.bound(), organization_id.bound(), external_id.bound(), name.bound()]
                },
            )
        }),
{
    let key: Seq<Bound> = seq![organization_id.bound(), external_id.bound()];
    let written = ClusterRepository::named(id, organization_id, external_id, name);
    assert(written.key =~= key);
    if table.contains_key(key) {
        assert(written.over(table[key], less) =~= table[key].update(3, name.bound()));
    } else {
        assert(written.values =~= seq![
            id.bound(),
            organization_id.bound(),
            external_id.bound(),
            name.bound(),
        ]);
    }
}

/// A node has one agent. Where one is registered, its version, platform and
/// capabilities change and its id stays; where none is, the agent is added. Every
/// other agent is as it was.
pub proof fn node_keeps_one_agent(
    table: Table,
    id: Uuid,
    organization_id: Uuid,
    cluster_id: Uuid,
    node_name: &str,
    agent_version: &str,
    architecture: Option<&str>,
    kernel_release: Option<&str>,
    capabilities: Value,
    less: spec_fn(Bound, Bound) -> bool,
)
    requires
        ({
            let key: Seq<Bound> = seq![cluster_id.bound(), node_name.bound()];
            table.contains_key(key) ==> table[key].len() == 8
        }),
    ensures
        ({
            let key: Seq<Bound> = seq![cluster_id.bound(), node_name.bound()];
            let reported: Seq<Bound> = seq![
                agent_version.bound(),
                architecture.bound(),
                kernel_release.bound(),
                capabilities.bound(),
            ];
            ClusterRepository::agent(
                id,
                organization_id,
                cluster_id,
                node_name,
                agent_version,
                architecture,
                kernel_release,
                capabilities,
            ).applied(table, less) == table.insert(
                key,
                if table.contains_key(key) {
                    table[key].take(4) + reported
                } else {
                    seq![
                        id.bound(),
                        organization_id.bound(),
                        cluster_id.bound(),
                        node_name.bound(),
                    ] + reported
                },
            )
        }),
{
    let key: Seq<Bound> = seq![cluster_id.bound(), node_name.bound()];
    let reported: Seq<Bound> = seq![
        agent_version.bound(),
        architecture.bound(),
        kernel_release.bound(),
        capabilities.bound(),
    ];
    let written = ClusterRepository::agent(
        id,
        organization_id,
        cluster_id,
        node_name,
        agent_version,
        architecture,
        kernel_release,
        capabilities,
    );
    assert(written.key =~= key);
    if table.contains_key(key) {
        assert(written.over(table[key], less) =~= table[key].take(4) + reported);
    } else {
        assert(written.values =~= seq![
            id.bound(),
            organization_id.bound(),
            cluster_id.bound(),
            node_name.bound(),
        ] + reported);
    }
}

/// The agent of the id was last seen now, and nothing else of it changes.
pub proof fn touched_agent_was_seen_now(
    agent: Record,
    agent_id: Uuid,
    database: Database,
)
    ensures
        ({
            let values: Seq<Bound> = seq![agent_id.bound()];
            &&& condition::selects(
                ClusterRepository::agent_by_id(),
                agent,
                values,
                database,
            ) <==> {
                &&& condition::has(agent, "id"@, agent_id.bound())
            }
            &&& update::changed(ClusterRepository::sign_of_life(), agent, values, database) == agent
                .insert("last_seen_at"@, database.now)
        }),
{
    broadcast use update::first_changes;

    let values: Seq<Bound> = seq![agent_id.bound()];
    let changes = ClusterRepository::sign_of_life();
    assert(changes =~= changes.take(changes.len() as int));
    let conditions = ClusterRepository::agent_by_id();
    assert(condition::selects(conditions, agent, values, database) <==> {
        &&& conditions[0].holds(agent, values, database)
    });
}

} // verus!
