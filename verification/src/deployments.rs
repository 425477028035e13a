//! Deployment evidence: the Kubernetes workload revisions agents report for an
//! application's releases, their readiness snapshots, and the deployment
//! episodes derived from them, each linked to the episodes it replaced.

use uuid::Uuid;
use vstd::prelude::*;

#[allow(unused_imports)]
use crate::statement::Bind;
use crate::condition;
use crate::condition::{Condition, Conditions, Database, Record, Test};
use crate::insert::{Row, Style};
use crate::insert;
use crate::statement::{Bound, Fetch, Statement, StatementView, Timestamp};
use crate::tenant::{After, Before, Layout};
use crate::tenant;
use crate::text;
use crate::update::{Change, Changes, Form};
use crate::update;
use crate::upsert::{Table, Target, Upsert, UpsertView};
use crate::upsert;

verus! {

broadcast use {tenant::known_aliases_name_tables, condition::known_words_are_plain};

/// Workload revisions, readiness snapshots and deployment episodes.
#[derive(Clone, Copy, Debug)]
pub struct DeploymentRepository;

impl DeploymentRepository {
    /// A workload revision, which a stored one meets only in its release and
    /// identity digest.
    pub open spec fn revision(
        id: Uuid,
        organization_id: Uuid,
        project_id: Uuid,
        application_id: Uuid,
        cluster_id: Uuid,
        release_id: Uuid,
        identity_version: i16,
        identity_digest: &[u8],
        namespace: &str,
        workload_uid: &str,
        workload_kind: &str,
        workload_name: &str,
        replica_set_uid: &str,
        replica_set_name: &str,
        pod_template_hash: Option<&str>,
        observed_at: Timestamp,
    ) -> UpsertView {
        upsert::upsert(Style::Tight, Target::Tight, "kubernetes_workload_revisions"@)
            .kept("id"@, id.bound())
            .kept("organization_id"@, organization_id.bound())
            .kept("project_id"@, project_id.bound())
            .key("application_id"@, application_id.bound())
            .key("cluster_id"@, cluster_id.bound())
            .kept("release_id"@, release_id.bound())
            .kept("identity_version"@, identity_version.bound())
            .kept("identity_digest"@, identity_digest.bound())
            .kept("namespace"@, namespace.bound())
            .key("workload_uid"@, workload_uid.bound())
            .kept("workload_kind"@, workload_kind.bound())
            .kept("workload_name"@, workload_name.bound())
            .key("replica_set_uid"@, replica_set_uid.bound())
            .kept("replica_set_name"@, replica_set_name.bound())
            .kept("pod_template_hash"@, pod_template_hash.bound())
            .kept("first_observed_at"@, observed_at.bound())
            .latest_again("last_observed_at"@, 16)
            .where_same(5)
            .where_same(7)
    }

    /// Records a workload revision, keyed by application, cluster, workload
    /// and replica set, and returns its id. Reporting it again refreshes its
    /// last observation; `None` when the replica set was recorded with a
    /// different release or identity digest.
    pub fn insert_revision(
        id: Uuid,
        organization_id: Uuid,
        project_id: Uuid,
        application_id: Uuid,
        cluster_id: Uuid,
        release_id: Uuid,
        identity_version: i16,
        identity_digest: &[u8],
        namespace: &str,
        workload_uid: &str,
        workload_kind: &str,
        workload_name: &str,
        replica_set_uid: &str,
        replica_set_name: &str,
        pod_template_hash: Option<&str>,
        observed_at: Timestamp,
    ) -> (statement: Statement)
        ensures
            statement@ == Self::revision(
                id,
                organization_id,
                project_id,
                application_id,
                cluster_id,
                release_id,
                identity_version,
                identity_digest,
                namespace,
                workload_uid,
                workload_kind,
                workload_name,
                replica_set_uid,
                replica_set_name,
                pod_template_hash,
                observed_at,
            ).finish(" RETURNING id"@, Fetch::Optional),
    {
        Upsert::new(Style::Tight, Target::Tight, "kubernetes_workload_revisions")
            .kept("id", id)
            .kept("organization_id", organization_id)
            .kept("project_id", project_id)
            .key("application_id", application_id)
            .key("cluster_id", cluster_id)
            .kept("release_id", release_id)
            .kept("identity_version", identity_version)
            .kept("identity_digest", identity_digest)
            .kept("namespace", namespace)
            .key("workload_uid", workload_uid)
            .kept("workload_kind", workload_kind)
            .kept("workload_name", workload_name)
            .key("replica_set_uid", replica_set_uid)
            .kept("replica_set_name", replica_set_name)
            .kept("pod_template_hash", pod_template_hash)
            .kept("first_observed_at", observed_at)
            .latest_again("last_observed_at", 16)
            .where_same(5, "release_id")
            .where_same(7, "identity_digest")
            .finish(" RETURNING id", Fetch::Optional)
    }

    pub const LOCK_REVISION: &'static str = "SELECT pg_advisory_xact_lock(hashtextextended($1,0))";

    /// Takes the transaction-scoped advisory lock for one workload revision,
    /// keyed `"{application}:{cluster}:{workload_uid}:{replica_set_uid}"`.
    pub fn lock_revision(lock_key: String) -> (statement: Statement)
        ensures
            statement@ == StatementView::affected(Self::LOCK_REVISION@, seq![lock_key.bound()]),
    {
        Statement::affected(Self::LOCK_REVISION).bind(lock_key)
    }

    pub const EPISODE_COUNT: &'static str =
        "SELECT count(*) FROM deployment_episodes WHERE ";

    /// The conditions on an episode that is counted.
    pub open spec fn of_revision() -> Seq<Condition> {
        seq![Condition::Compared("revision_id"@, Test::Equal, 1)]
    }

    /// How many episodes a revision has had.
    pub fn episode_count(revision_id: Uuid) -> (statement: Statement)
        ensures
            statement@ == StatementView::one(
                Self::EPISODE_COUNT@ + condition::all_text(Self::of_revision()),
                seq![revision_id.bound()],
            ),
    {
        let conditions = Conditions::new().compared("revision_id", Test::Equal, 1);
        assert(conditions@ =~= Self::of_revision());
        let text = text::join(Self::EPISODE_COUNT, conditions.into_text().as_str());
        Statement::one(text.as_str()).bind(revision_id)
    }

    pub const OPEN_EPISODE: &'static str =
        "SELECT id FROM deployment_episodes WHERE ";

    /// The revision's episode that has not ended, if any.
    pub fn open_episode(revision_id: Uuid) -> (statement: Statement)
        ensures
            statement@ == StatementView::optional(
                Self::OPEN_EPISODE@ + condition::all_text(Self::open_of_revision()),
                seq![revision_id.bound()],
            ),
    {
        let conditions = Conditions::new()
            .compared("revision_id", Test::Equal, 1)
            .not_word("state", "inactive");
        assert(conditions@ =~= Self::open_of_revision());
        let text = text::join(Self::OPEN_EPISODE, conditions.into_text().as_str());
        Statement::optional(text.as_str()).bind(revision_id)
    }

    /// What an observation changes in an episode.
    pub open spec fn observation() -> Seq<Change> {
        seq![
            Change::Raised("last_observed_at"@, 2),
            Change::Word("state"@, "active"@),
            Change::GivenOnce("first_ready_at"@, 2),
        ]
    }

    /// The conditions on the episode of an id.
    pub open spec fn episode_by_id() -> Seq<Condition> {
        seq![Condition::Compared("id"@, Test::Equal, 1)]
    }

    /// Marks an episode active and observed at `observed_at`, keeping its
    /// first ready time.
    pub fn touch_episode(episode_id: Uuid, observed_at: Timestamp) -> (statement: Statement)
        ensures
            statement@ == StatementView::affected(
                "UPDATE deployment_episodes SET "@ + update::all_text(Self::observation(), Form::Tight)
                    + " WHERE "@ + condition::all_text(Self::episode_by_id()),
                seq![episode_id.bound(), observed_at.bound()],
            ),
    {
        let changes = Changes::new(Form::Tight)
            .raised("last_observed_at", 2)
            .word("state", "active")
            .given_once("first_ready_at", 2);
        let conditions = Conditions::new().compared("id", Test::Equal, 1);
        assert(changes@ =~= Self::observation());
        assert(conditions@ =~= Self::episode_by_id());
        let text = text::join("UPDATE deployment_episodes SET ", changes.into_text().as_str())
            .concat(" WHERE ")
            .concat(conditions.into_text().as_str());
        Statement::affected(text.as_str()).bind(episode_id).bind(observed_at)
    }

    pub const ACTIVE_EPISODES: &'static str =
        "SELECT id,release_id FROM deployment_episodes ";

    pub const ACTIVE_EPISODES_TAIL: &'static str = " ORDER BY last_observed_at DESC,id DESC";

    /// The conditions on an active episode, besides its organization.
    pub open spec fn active_in_cluster() -> Seq<Condition> {
        seq![
            Condition::Compared("application_id"@, Test::Equal, 2),
            Condition::Compared("cluster_id"@, Test::Equal, 3),
            Condition::Word("state"@, "active"@),
        ]
    }

    /// The application's active episodes in the cluster with their release,
    /// most recently observed first.
    pub fn active_episodes(
        organization_id: Uuid,
        application_id: Uuid,
        cluster_id: Uuid,
    ) -> (statement: Statement)
        ensures
            statement@ == StatementView::all(
                tenant::organization_text(
                    Self::ACTIVE_EPISODES@,
                    Before::Where,
                    ""@,
                    Layout::Tight,
                    After::And,
                    condition::all_text(Self::active_in_cluster()) + Self::ACTIVE_EPISODES_TAIL@,
                ),
                seq![organization_id.bound(), application_id.bound(), cluster_id.bound()],
            ),
            tenant::filters_by_organization(statement@, organization_id),
    {
        let conditions = Conditions::new()
            .compared("application_id", Test::Equal, 2)
            .compared("cluster_id", Test::Equal, 3)
            .word("state", "active");
        assert(conditions@ =~= Self::active_in_cluster());
        let tail = conditions.into_text().concat(Self::ACTIVE_EPISODES_TAIL);
        let text = tenant::organization(
            Self::ACTIVE_EPISODES,
            Before::Where,
            "",
            Layout::Tight,
            After::And,
            tail.as_str(),
        );
        Statement::all(text.as_str()).bind(organization_id).bind(application_id).bind(cluster_id)
    }

    /// Opens an active, ready episode of a revision.
    pub fn insert_episode(
        id: Uuid,
        organization_id: Uuid,
        project_id: Uuid,
        application_id: Uuid,
        cluster_id: Uuid,
        release_id: Uuid,
        revision_id: Uuid,
        occurrence_number: i64,
        transition_kind: &str,
        observed_at: Timestamp,
    ) -> (statement: Statement)
        ensures
            statement@ == insert::row(Style::Tight, "deployment_episodes"@)
                .set("id"@, id.bound())
                .set("organization_id"@, organization_id.bound())
                .set("project_id"@, project_id.bound())
                .set("application_id"@, application_id.bound())
                .set("cluster_id"@, cluster_id.bound())
                .set("release_id"@, release_id.bound())
                .set("revision_id"@, revision_id.bound())
                .set("occurrence_number"@, occurrence_number.bound())
                .computed("state"@, "'active'"@)
                .set("transition_kind"@, transition_kind.bound())
                .set("first_observed_at"@, observed_at.bound())
                .again("first_ready_at"@, 10)
                .again("last_observed_at"@, 10)
                .finish(""@, Fetch::Affected),
    {
        Row::new(Style::Tight, "deployment_episodes")
            .set("id", id)
            .set("organization_id", organization_id)
            .set("project_id", project_id)
            .set("application_id", application_id)
            .set("cluster_id", cluster_id)
            .set("release_id", release_id)
            .set("revision_id", revision_id)
            .set("occurrence_number", occurrence_number)
            .computed("state", "'active'")
            .set("transition_kind", transition_kind)
            .set("first_observed_at", observed_at)
            .again("first_ready_at", 10)
            .again("last_observed_at", 10)
            .finish("", Fetch::Affected)
    }

    pub const LINK_PREDECESSOR: &'static str = " ON CONFLICT DO NOTHING";

    /// Records that an episode began while another was active.
    pub fn link_predecessor(
        organization_id: Uuid,
        project_id: Uuid,
        application_id: Uuid,
        episode_id: Uuid,
        predecessor_episode_id: Uuid,
        observed_at: Timestamp,
    ) -> (statement: Statement)
        ensures
            statement@ == insert::row(Style::Tight, "deployment_episode_predecessors"@)
                .set("organization_id"@, organization_id.bound())
                .set("project_id"@, project_id.bound())
                .set("application_id"@, application_id.bound())
                .set("episode_id"@, episode_id.bound())
                .set("predecessor_episode_id"@, predecessor_episode_id.bound())
                .set("observed_at"@, observed_at.bound())
                .computed("concurrent"@, "true"@)
                .finish(Self::LINK_PREDECESSOR@, Fetch::Affected),
    {
        Row::new(Style::Tight, "deployment_episode_predecessors")
            .set("organization_id", organization_id)
            .set("project_id", project_id)
            .set("application_id", application_id)
            .set("episode_id", episode_id)
            .set("predecessor_episode_id", predecessor_episode_id)
            .set("observed_at", observed_at)
            .computed("concurrent", "true")
            .finish(Self::LINK_PREDECESSOR, Fetch::Affected)
    }

    pub const REVISION_BY_DIGEST: &'static str =
        "SELECT id FROM kubernetes_workload_revisions ";

    /// The conditions on the revision of a digest, besides the path.
    pub open spec fn by_digest() -> Seq<Condition> {
        seq![
            Condition::Compared("cluster_id"@, Test::Equal, 4),
            Condition::Compared("identity_digest"@, Test::Equal, 5),
        ]
    }

    /// The application's revision in the cluster with this identity digest.
    pub fn revision_by_digest(
        organization_id: Uuid,
        project_id: Uuid,
        application_id: Uuid,
        cluster_id: Uuid,
        identity_digest: &[u8],
    ) -> (statement: Statement)
        ensures
            statement@ == StatementView::optional(
                tenant::application_text(
                    Self::REVISION_BY_DIGEST@,
                    Before::Where,
                    ""@,
                    Layout::Tight,
                    After::And,
                    condition::all_text(Self::by_digest()),
                ),
                seq![
                    organization_id.bound(),
                    project_id.bound(),
                    application_id.bound(),
                    cluster_id.bound(),
                    identity_digest.bound(),
                ],
            ),
            tenant::filters_by_application(statement@, organization_id, project_id, application_id),
    {
        let conditions = Conditions::new()
            .compared("cluster_id", Test::Equal, 4)
            .compared("identity_digest", Test::Equal, 5);
        assert(conditions@ =~= Self::by_digest());
        let tail = conditions.into_text();
        let text = tenant::application(
            Self::REVISION_BY_DIGEST,
            Before::Where,
            "",
            Layout::Tight,
            After::And,
            tail.as_str(),
        );
        Statement::optional(text.as_str())
            .bind(organization_id)
            .bind(project_id)
            .bind(application_id)
            .bind(cluster_id)
            .bind(identity_digest)
    }

    pub const INSERT_SNAPSHOT: &'static str = " ON CONFLICT DO NOTHING";

    /// Records a readiness snapshot of a revision, once per snapshot id.
    pub fn insert_snapshot(
        organization_id: Uuid,
        project_id: Uuid,
        application_id: Uuid,
        cluster_id: Uuid,
        revision_id: Uuid,
        snapshot_id: &str,
        observed_at: Timestamp,
        initialized: bool,
        continuous: bool,
        pod_count: i32,
        ready_pod_count: i32,
        workload_ready_pod_count: i32,
    ) -> (statement: Statement)
        ensures
            statement@ == insert::row(Style::Tight, "kubernetes_revision_snapshots"@)
                .set("organization_id"@, organization_id.bound())
                .set("project_id"@, project_id.bound())
                .set("application_id"@, application_id.bound())
                .set("cluster_id"@, cluster_id.bound())
                .set("revision_id"@, revision_id.bound())
                .set("snapshot_id"@, snapshot_id.bound())
                .set("observed_at"@, observed_at.bound())
                .set("initialized"@, initialized.bound())
                .set("continuous"@, continuous.bound())
                .set("pod_count"@, pod_count.bound())
                .set("ready_pod_count"@, ready_pod_count.bound())
                .set("workload_ready_pod_count"@, workload_ready_pod_count.bound())
                .finish(Self::INSERT_SNAPSHOT@, Fetch::Affected),
    {
        Row::new(Style::Tight, "kubernetes_revision_snapshots")
            .set("organization_id", organization_id)
            .set("project_id", project_id)
            .set("application_id", application_id)
            .set("cluster_id", cluster_id)
            .set("revision_id", revision_id)
            .set("snapshot_id", snapshot_id)
            .set("observed_at", observed_at)
            .set("initialized", initialized)
            .set("continuous", continuous)
            .set("pod_count", pod_count)
            .set("ready_pod_count", ready_pod_count)
            .set("workload_ready_pod_count", workload_ready_pod_count)
            .finish(Self::INSERT_SNAPSHOT, Fetch::Affected)
    }

    /// Whether the episode was last observed long enough before `$3`.
    pub const IS_STABLE: &'static str =
        "$3>=last_observed_at+($4::double precision*interval '1 second')";

    /// What its end changes in an episode.
    pub open spec fn ending() -> Seq<Change> {
        seq![
            Change::Zero("pod_count"@),
            Change::Zero("ready_pod_count"@),
            Change::Given("workload_ready_pod_count"@, 2),
            Change::Given("snapshot_observed_at"@, 3),
            Change::Word("state"@, "inactive"@),
            Change::Given("ended_at"@, 3),
        ]
    }

    /// The conditions on an episode that ends.
    pub open spec fn ended() -> Seq<Condition> {
        seq![
            Condition::Compared("revision_id"@, Test::Equal, 1),
            Condition::NotWord("state"@, "inactive"@),
            Condition::Asked(Self::IS_STABLE@),
        ]
    }

    /// Ends the revision's open episode when it has had no pods for
    /// `stabilization_seconds` since it was last observed.
    pub fn end_episode(
        revision_id: Uuid,
        workload_ready_pod_count: i32,
        observed_at: Timestamp,
        stabilization_seconds: i64,
    ) -> (statement: Statement)
        ensures
            statement@ == StatementView::affected(
                "UPDATE deployment_episodes SET "@ + update::all_text(Self::ending(), Form::Tight)
                    + " WHERE "@ + condition::all_text(Self::ended()),
                seq![
                    revision_id.bound(),
                    workload_ready_pod_count.bound(),
                    observed_at.bound(),
                    stabilization_seconds.bound(),
                ],
            ),
    {
        let changes = Changes::new(Form::Tight)
            .zero("pod_count")
            .zero("ready_pod_count")
            .given("workload_ready_pod_count", 2)
            .given("snapshot_observed_at", 3)
            .word("state", "inactive")
            .given("ended_at", 3);
        let conditions = Conditions::new()
            .compared("revision_id", Test::Equal, 1)
            .not_word("state", "inactive")
            .asked(Self::IS_STABLE);
        assert(changes@ =~= Self::ending());
        assert(conditions@ =~= Self::ended());
        let text = text::join("UPDATE deployment_episodes SET ", changes.into_text().as_str())
            .concat(" WHERE ")
            .concat(conditions.into_text().as_str());
        Statement::affected(text.as_str())
            .bind(revision_id)
            .bind(workload_ready_pod_count)
            .bind(observed_at)
            .bind(stabilization_seconds)
    }

    /// What a count of its pods changes in an episode.
    pub open spec fn pods() -> Seq<Change> {
        seq![
            Change::Given("pod_count"@, 2),
            Change::Given("ready_pod_count"@, 3),
            Change::Given("workload_ready_pod_count"@, 4),
            Change::Given("snapshot_observed_at"@, 5),
            Change::Raised("last_observed_at"@, 5),
        ]
    }

    /// The conditions on the revision's open episode.
    pub open spec fn open_of_revision() -> Seq<Condition> {
        seq![
            Condition::Compared("revision_id"@, Test::Equal, 1),
            Condition::NotWord("state"@, "inactive"@),
        ]
    }

    /// Records the pod counts of the revision's open episode.
    pub fn record_episode_pods(
        revision_id: Uuid,
        pod_count: i32,
        ready_pod_count: i32,
        workload_ready_pod_count: i32,
        observed_at: Timestamp,
    ) -> (statement: Statement)
        ensures
            statement@ == StatementView::affected(
                "UPDATE deployment_episodes SET "@ + update::all_text(Self::pods(), Form::Tight)
                    + " WHERE "@ + condition::all_text(Self::open_of_revision()),
                seq![
                    revision_id.bound(),
                    pod_count.bound(),
                    ready_pod_count.bound(),
                    workload_ready_pod_count.bound(),
                    observed_at.bound(),
                ],
            ),
    {
        let changes = Changes::new(Form::Tight)
            .given("pod_count", 2)
            .given("ready_pod_count", 3)
            .given("workload_ready_pod_count", 4)
            .given("snapshot_observed_at", 5)
            .raised("last_observed_at", 5);
        let conditions = Conditions::new()
            .compared("revision_id", Test::Equal, 1)
            .not_word("state", "inactive");
        assert(changes@ =~= Self::pods());
        assert(conditions@ =~= Self::open_of_revision());
        let text = text::join("UPDATE deployment_episodes SET ", changes.into_text().as_str())
            .concat(" WHERE ")
            .concat(conditions.into_text().as_str());
        Statement::affected(text.as_str())
            .bind(revision_id)
            .bind(pod_count)
            .bind(ready_pod_count)
            .bind(workload_ready_pod_count)
            .bind(observed_at)
    }
}

/// A replica set has one revision. Reporting it again with the release and the
/// identity digest that it has only refreshes its last observation; with another
/// it changes nothing. Every other revision is as it was.
pub proof fn replica_set_keeps_one_revision(
    table: Table,
    id: Uuid,
    organization_id: Uuid,
    project_id: Uuid,
    application_id: Uuid,
    cluster_id: Uuid,
    release_id: Uuid,
    identity_version: i16,
    identity_digest: &[u8],
    namespace: &str,
    workload_uid: &str,
    workload_kind: &str,
    workload_name: &str,
    replica_set_uid: &str,
    replica_set_name: &str,
    pod_template_hash: Option<&str>,
    observed_at: Timestamp,
    less: spec_fn(Bound, Bound) -> bool,
)
    requires
        ({
            let key: Seq<Bound> = seq![
                application_id.bound(),
                cluster_id.bound(),
                workload_uid.bound(),
                replica_set_uid.bound(),
            ];
            table.contains_key(key) ==> table[key].len() == 17
        }),
    ensures
        ({
            let key: Seq<Bound> = seq![
                application_id.bound(),
                cluster_id.bound(),
                workload_uid.bound(),
                replica_set_uid.bound(),
            ];
            let stored = table[key];
            let written = DeploymentRepository::revision(
                id,
                organization_id,
                project_id,
                application_id,
                cluster_id,
                release_id,
                identity_version,
                identity_digest,
                namespace,
                workload_uid,
                workload_kind,
                workload_name,
                replica_set_uid,
                replica_set_name,
                pod_template_hash,
                observed_at,
            );
            let after = written.applied(table, less);
            &&& after.contains_key(key)
            &&& after.remove(key) == table.remove(key)
            &&& !table.contains_key(key) ==> after[key] == written.values
            &&& table.contains_key(key) && stored[5] == release_id.bound() && stored[7]
                == identity_digest.bound() ==> after[key] == stored.update(
                16,
                condition::greatest(stored[16], observed_at.bound(), less),
            )
            &&& table.contains_key(key) && (stored[5] != release_id.bound() || stored[7]
                != identity_digest.bound()) ==> after == table
        }),
{
    let key: Seq<Bound> = seq![
        application_id.bound(),
        cluster_id.bound(),
        workload_uid.bound(),
        replica_set_uid.bound(),
    ];
    let stored = table[key];
    let written = DeploymentRepository::revision(
        id,
        organization_id,
        project_id,
        application_id,
        cluster_id,
        release_id,
        identity_version,
        identity_digest,
        namespace,
        workload_uid,
        workload_kind,
        workload_name,
        replica_set_uid,
        replica_set_name,
        pod_template_hash,
        observed_at,
    );
    assert(written.key =~= key);
    assert(written.guards =~= seq![5int, 7int]);
    assert(written.guards[0] == 5 && written.guards[1] == 7);
    let after = written.applied(table, less);
    assert(after.remove(key) =~= table.remove(key));
    if table.contains_key(key) && stored[5] == release_id.bound() && stored[7]
        == identity_digest.bound() {
        assert(written.passes(stored));
        assert(written.over(stored, less) =~= stored.update(
            16,
            condition::greatest(stored[16], observed_at.bound(), less),
        ));
    }
}

/// The episode of the id is active, was last observed at the time where that is
/// later, was first ready then where it never was, and nothing else of it
/// changes.
pub proof fn observed_episode_is_active(
    episode: Record,
    episode_id: Uuid,
    observed_at: Timestamp,
    database: Database,
)
    ensures
        ({
            let values: Seq<Bound> = seq![episode_id.bound(), observed_at.bound()];
            let latest_last_observed_at = if condition::lacks(episode, "last_observed_at"@) {
                observed_at.bound()
            } else {
                condition::greatest(
                    episode["last_observed_at"@],
                    observed_at.bound(),
                    database.less,
                )
            };
            let kept_first_ready_at = if condition::lacks(episode, "first_ready_at"@) {
                observed_at.bound()
            } else {
                episode["first_ready_at"@]
            };
            &&& condition::selects(
                DeploymentRepository::episode_by_id(),
                episode,
                values,
                database,
            ) <==> {
                &&& condition::has(episode, "id"@, episode_id.bound())
            }
            &&& update::changed(
                DeploymentRepository::observation(),
                episode,
                values,
                database,
            ) == episode
                .insert("last_observed_at"@, latest_last_observed_at)
                .insert("state"@, Bound::Text(Some("active"@)))
                .insert("first_ready_at"@, kept_first_ready_at)
        }),
{
    broadcast use update::first_changes;

    let values: Seq<Bound> = seq![episode_id.bound(), observed_at.bound()];
    let changes = DeploymentRepository::observation();
    assert(changes =~= changes.take(changes.len() as int));
    let conditions = DeploymentRepository::episode_by_id();
    assert(condition::selects(conditions, episode, values, database) <==> {
        &&& conditions[0].holds(episode, values, database)
    });
}

/// The open episode of the revision ends at the time, without pods, where it
/// has been stable for long enough, and nothing else of it changes.
pub proof fn open_episode_ends_once_stable(
    episode: Record,
    revision_id: Uuid,
    workload_ready_pod_count: i32,
    observed_at: Timestamp,
    stabilization_seconds: i64,
    database: Database,
)
    ensures
        ({
            let values: Seq<Bound> = seq![
                revision_id.bound(),
                workload_ready_pod_count.bound(),
                observed_at.bound(),
                stabilization_seconds.bound(),
            ];
            &&& condition::selects(
                DeploymentRepository::ended(),
                episode,
                values,
                database,
            ) <==> {
                &&& condition::has(episode, "revision_id"@, revision_id.bound())
                &&& !condition::lacks(episode, "state"@)
                &&& !condition::has(episode, "state"@, Bound::Text(Some("inactive"@)))
                &&& (database.answers)(DeploymentRepository::IS_STABLE@, episode, values)
            }
            &&& update::changed(
                DeploymentRepository::ending(),
                episode,
                values,
                database,
            ) == episode
                .insert("pod_count"@, Bound::Integer(Some(0)))
                .insert("ready_pod_count"@, Bound::Integer(Some(0)))
                .insert("workload_ready_pod_count"@, workload_ready_pod_count.bound())
                .insert("snapshot_observed_at"@, observed_at.bound())
                .insert("state"@, Bound::Text(Some("inactive"@)))
                .insert("ended_at"@, observed_at.bound())
        }),
{
    broadcast use update::first_changes;

    let values: Seq<Bound> = seq![
        revision_id.bound(),
        workload_ready_pod_count.bound(),
        observed_at.bound(),
        stabilization_seconds.bound(),
    ];
    let changes = DeploymentRepository::ending();
    assert(changes =~= changes.take(changes.len() as int));
    let conditions = DeploymentRepository::ended();
    assert(condition::selects(conditions, episode, values, database) <==> {
        &&& conditions[0].holds(episode, values, database)
        &&& conditions[1].holds(episode, values, database)
        &&& conditions[2].holds(episode, values, database)
    });
}

/// The open episode of the revision records the counts and the time, and that
/// it was last observed then where that is later; nothing else of it changes.
pub proof fn open_episode_records_its_pods(
    episode: Record,
    revision_id: Uuid,
    pod_count: i32,
    ready_pod_count: i32,
    workload_ready_pod_count: i32,
    observed_at: Timestamp,
    database: Database,
)
    ensures
        ({
            let values: Seq<Bound> = seq![
                revision_id.bound(),
                pod_count.bound(),
                ready_pod_count.bound(),
                workload_ready_pod_count.bound(),
                observed_at.bound(),
            ];
            let latest_last_observed_at = if condition::lacks(episode, "last_observed_at"@) {
                observed_at.bound()
            } else {
                condition::greatest(
                    episode["last_observed_at"@],
                    observed_at.bound(),
                    database.less,
                )
            };
            &&& condition::selects(
                DeploymentRepository::open_of_revision(),
                episode,
                values,
                database,
            ) <==> {
                &&& condition::has(episode, "revision_id"@, revision_id.bound())
                &&& !condition::lacks(episode, "state"@)
                &&& !condition::has(episode, "state"@, Bound::Text(Some("inactive"@)))
            }
            &&& update::changed(DeploymentRepository::pods(), episode, values, database) == episode
                .insert("pod_count"@, pod_count.bound())
                .insert("ready_pod_count"@, ready_pod_count.bound())
                .insert("workload_ready_pod_count"@, workload_ready_pod_count.bound())
                .insert("snapshot_observed_at"@, observed_at.bound())
                .insert("last_observed_at"@, latest_last_observed_at)
        }),
{
    broadcast use update::first_changes;

    let values: Seq<Bound> = seq![
        revision_id.bound(),
        pod_count.bound(),
        ready_pod_count.bound(),
        workload_ready_pod_count.bound(),
        observed_at.bound(),
    ];
    let changes = DeploymentRepository::pods();
    assert(changes =~= changes.take(changes.len() as int));
    let conditions = DeploymentRepository::open_of_revision();
    assert(condition::selects(conditions, episode, values, database) <==> {
        &&& conditions[0].holds(episode, values, database)
        &&& conditions[1].holds(episode, values, database)
    });
}

/// An episode is counted exactly where it is one of the revision.
pub proof fn episodes_of_the_revision_are_counted(
    episode: Record,
    revision_id: Uuid,
    database: Database,
)
    ensures
        ({
            let values: Seq<Bound> = seq![revision_id.bound()];
            condition::selects(
                DeploymentRepository::of_revision(),
                episode,
                values,
                database,
            ) <==> {
                &&& condition::has(episode, "revision_id"@, revision_id.bound())
            }
        }),
{
    let values: Seq<Bound> = seq![revision_id.bound()];
    let conditions = DeploymentRepository::of_revision();
    assert(condition::selects(conditions, episode, values, database) <==> {
        &&& conditions[0].holds(episode, values, database)
    });
}

/// The open episode is one of the revision that is not inactive.
pub proof fn open_episode_is_not_inactive(
    episode: Record,
    revision_id: Uuid,
    database: Database,
)
    ensures
        ({
            let values: Seq<Bound> = seq![revision_id.bound()];
            condition::selects(
                DeploymentRepository::open_of_revision(),
                episode,
                values,
                database,
            ) <==> {
                &&& condition::has(episode, "revision_id"@, revision_id.bound())
                &&& !condition::lacks(episode, "state"@)
                &&& !condition::has(episode, "state"@, Bound::Text(Some("inactive"@)))
            }
        }),
{
    let values: Seq<Bound> = seq![revision_id.bound()];
    let conditions = DeploymentRepository::open_of_revision();
    assert(condition::selects(conditions, episode, values, database) <==> {
        &&& conditions[0].holds(episode, values, database)
        &&& conditions[1].holds(episode, values, database)
    });
}

/// An episode is given exactly where it is one of the application in the
/// cluster, and active.
pub proof fn active_episodes_are_in_the_cluster(
    episode: Record,
    organization_id: Uuid,
    application_id: Uuid,
    cluster_id: Uuid,
    database: Database,
)
    ensures
        ({
            let values: Seq<Bound> = seq![
                organization_id.bound(),
                application_id.bound(),
                cluster_id.bound(),
            ];
            condition::selects(
                DeploymentRepository::active_in_cluster(),
                episode,
                values,
                database,
            ) <==> {
                &&& condition::has(episode, "application_id"@, application_id.bound())
                &&& condition::has(episode, "cluster_id"@, cluster_id.bound())
                &&& condition::has(episode, "state"@, Bound::Text(Some("active"@)))
            }
        }),
{
    let values: Seq<Bound> = seq![
        organization_id.bound(),
        application_id.bound(),
        cluster_id.bound(),
    ];
    let conditions = DeploymentRepository::active_in_cluster();
    assert(condition::selects(conditions, episode, values, database) <==> {
        &&& conditions[0].holds(episode, values, database)
        &&& conditions[1].holds(episode, values, database)
        &&& conditions[2].holds(episode, values, database)
    });
}

/// The revision is the one of the cluster with the digest.
pub proof fn revision_is_known_by_its_digest(
    revision: Record,
    organization_id: Uuid,
    project_id: Uuid,
    application_id: Uuid,
    cluster_id: Uuid,
    identity_digest: &[u8],
    database: Database,
)
    ensures
        ({
            let values: Seq<Bound> = seq![
                organization_id.bound(),
                project_id.bound(),
                application_id.bound(),
                cluster_id.bound(),
                identity_digest.bound(),
            ];
            condition::selects(
                DeploymentRepository::by_digest(),
                revision,
                values,
                database,
            ) <==> {
                &&& condition::has(revision, "cluster_id"@, cluster_id.bound())
                &&& condition::has(revision, "identity_digest"@, identity_digest.bound())
            }
        }),
{
    let values: Seq<Bound> = seq![
        organization_id.bound(),
        project_id.bound(),
        application_id.bound(),
        cluster_id.bound(),
        identity_digest.bound(),
    ];
    let conditions = DeploymentRepository::by_digest();
    assert(condition::selects(conditions, revision, values, database) <==> {
        &&& conditions[0].holds(revision, values, database)
        &&& conditions[1].holds(revision, values, database)
    });
}

/// An episode that ends is neither open nor active any more, and one that is
/// observed is open again.
pub proof fn episode_is_open_until_it_ends(
    episode: Record,
    values: Seq<Bound>,
    revision_id: Uuid,
    places: Seq<Bound>,
    database: Database,
)
    requires
        values.len() >= 4,
        places.len() >= 3,
        condition::has(episode, "revision_id"@, revision_id.bound()),
    ensures
        ({
            let revision: Seq<Bound> = seq![revision_id.bound()];
            let ended = update::changed(
                DeploymentRepository::ending(),
                episode,
                values,
                database,
            );
            let observed = update::changed(
                DeploymentRepository::observation(),
                episode,
                values,
                database,
            );
            &&& !condition::selects(DeploymentRepository::open_of_revision(), ended, revision, database)
            &&& !condition::selects(
                DeploymentRepository::active_in_cluster(),
                ended,
                places,
                database,
            )
            &&& condition::selects(DeploymentRepository::open_of_revision(), observed, revision, database)
        }),
{
    broadcast use update::first_changes;

    reveal_strlit("revision_id");
    reveal_strlit("state");
    reveal_strlit("active");
    reveal_strlit("inactive");
    reveal_strlit("pod_count");
    reveal_strlit("ready_pod_count");
    reveal_strlit("workload_ready_pod_count");
    reveal_strlit("snapshot_observed_at");
    reveal_strlit("ended_at");
    reveal_strlit("last_observed_at");
    reveal_strlit("first_ready_at");
    assert("revision_id"@.len() == 11 && "state"@.len() == 5);
    assert("pod_count"@.len() == 9 && "ready_pod_count"@.len() == 15);
    assert("workload_ready_pod_count"@.len() == 24 && "snapshot_observed_at"@.len() == 20);
    assert("ended_at"@.len() == 8 && "last_observed_at"@.len() == 16);
    assert("first_ready_at"@.len() == 14 && "active"@.len() == 6 && "inactive"@.len() == 8);
    let ending = DeploymentRepository::ending();
    let observation = DeploymentRepository::observation();
    assert(ending =~= ending.take(ending.len() as int));
    assert(observation =~= observation.take(observation.len() as int));
    let ended = update::changed(ending, episode, values, database);
    let observed = update::changed(observation, episode, values, database);
    let revision: Seq<Bound> = seq![revision_id.bound()];
    assert(condition::has(ended, "state"@, Bound::Text(Some("inactive"@))));
    assert(condition::has(observed, "state"@, Bound::Text(Some("active"@))));
    assert(condition::has(observed, "revision_id"@, revision_id.bound()));
    open_episode_is_not_inactive(ended, revision_id, database);
    open_episode_is_not_inactive(observed, revision_id, database);
    let active = DeploymentRepository::active_in_cluster();
    assert(!active[2].holds(ended, places, database));
}

} // verus!
