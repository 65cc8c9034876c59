//! The request executor: the one component that knows which node serves a
//! request and when the topology must be refreshed.
//!
//! One executor exists per database.  Its mutable state is modeled here as
//! a value, `RequestExecutorActor`, and every decision the running actor
//! takes is a verified transition on that value: the message loop outside
//! the library only carries messages, performs the HTTP calls, and feeds
//! the outcomes back in.
//!
//! Life of an executor: it starts in `TopologyPending` and queries each
//! seed URL in turn.  The first seed that answers with a topology document
//! makes it `Ready`; if every seed fails, a degraded topology synthesized
//! from the seeds themselves (each node tagged `"!"`) makes it `Ready` all
//! the same.  Once ready, a request is planned by picking a node and
//! rendering the command against it with the current topology version
//! stamped on the request; a stale-topology response header starts at most
//! one background refresh, whose outcome replaces the snapshot only when
//! it is strictly newer.

use vstd::prelude::*;

use crate::database_topology::{
    key_present, installed_from, DatabaseTopology, NodeHealth, TopologyDocument, find_by_key,
    failure_recorded,
};
use crate::document_conventions::DocumentConventions;
use crate::node_selector::{selection_ok_over, NodeSelector};
use crate::raven_command::{dec_rep, spec_full_url, spec_path, spec_query, HttpRequest,
    RavenCommand, RavenCommandVariant, u64_to_dec_string};
use crate::server_node::ServerNode;
use crate::urls::{str_eq, StoreUrl};
use crate::DnsOverrides;

verus! {

use vstd::string::StringExecFns;

/// What can go wrong on the executor's side; the kinds stay distinct so a
/// caller can tell configuration from transport from routing trouble.
#[derive(Clone, Debug)]
pub enum RequestExecutorError {
    /// The initial topology is not in place yet; the request was rejected,
    /// not queued.
    NotReady,
    /// The current topology holds no node at all.
    NoNodeAvailable,
    /// The command could not be turned into an HTTP request.
    RequestBuildFailed(String),
    /// The node could not be reached.
    TransportError(String),
    /// A topology document could not be decoded.
    DeserializationError(String),
    /// The owning actor is gone; fatal for this handle.
    ActorUnavailable,
    UnexpectedError(String),
}

impl RequestExecutorError {
    pub open spec fn message_spec(self) -> Seq<char> {
        match self {
            RequestExecutorError::NotReady =>
                "Unable to get topology, initial update not yet finished"@,
            RequestExecutorError::NoNodeAvailable => "No node is available to serve the request"@,
            RequestExecutorError::RequestBuildFailed(s) => "Unable to build request: "@ + s@,
            RequestExecutorError::TransportError(s) =>
                "Unable to send command to server. Caused by: "@ + s@,
            RequestExecutorError::DeserializationError(s) =>
                "Unable to deserialize cluster topology information. Caused by: "@ + s@,
            RequestExecutorError::ActorUnavailable =>
                "Could not receive result from request executor actor. Actor probably died."@,
            RequestExecutorError::UnexpectedError(s) => s@,
        }
    }

    /// A human-readable description of the error.
    pub fn message(&self) -> (r: String)
        ensures
            r@ == self.message_spec(),
    {
        match self {
            RequestExecutorError::NotReady => String::from_str(
                "Unable to get topology, initial update not yet finished",
            ),
            RequestExecutorError::NoNodeAvailable => String::from_str(
                "No node is available to serve the request",
            ),
            RequestExecutorError::RequestBuildFailed(s) => {
                let mut m = String::from_str("Unable to build request: ");
                m.append(s.as_str());
                m
            },
            RequestExecutorError::TransportError(s) => {
                let mut m = String::from_str("Unable to send command to server. Caused by: ");
                m.append(s.as_str());
                m
            },
            RequestExecutorError::DeserializationError(s) => {
                let mut m = String::from_str(
                    "Unable to deserialize cluster topology information. Caused by: ",
                );
                m.append(s.as_str());
                m
            },
            RequestExecutorError::ActorUnavailable => String::from_str(
                "Could not receive result from request executor actor. Actor probably died.",
            ),
            RequestExecutorError::UnexpectedError(s) => s.clone(),
        }
    }
}

/// Where an executor stands between creation and serving traffic.
#[derive(Clone, Copy, Debug, PartialEq, Eq, Structural)]
pub enum ExecutorPhase {
    /// The initial topology is still being discovered; requests are
    /// rejected with `NotReady`.
    TopologyPending,
    /// A topology (real or synthesized) is installed.
    Ready,
}

/// The state owned by one request executor.
pub struct RequestExecutorActor {
    pub database: String,
    pub conventions: DocumentConventions,
    pub dns_overrides: DnsOverrides,
    pub proxy_address: Option<String>,
    /// Whether to run speed tests; reserved extension point.
    pub run_speed_test: bool,
    /// The seed URLs discovery walks, and the fallback when it fails.
    pub last_known_urls: Vec<StoreUrl>,
    pub phase: ExecutorPhase,
    pub topology: Option<DatabaseTopology>,
    /// At most one background refresh runs; a second trigger is a no-op.
    pub refresh_in_flight: bool,
    /// How many seeds have already failed during discovery.
    pub next_seed: usize,
    /// The per-seed errors discovery has accumulated.
    pub seed_errors: Vec<(StoreUrl, RequestExecutorError)>,
}

/// `t` is the degraded topology synthesized from the seed URLs: each seed
/// exactly once as a node of this database, tagged `"!"`, all counters
/// zero, version zero.
pub open spec fn synthesized_from(
    t: DatabaseTopology,
    urls: Seq<StoreUrl>,
    database: Seq<char>,
) -> bool {
    &&& t.etag == 0
    &&& t.wf()
    &&& forall|i: int|
        0 <= i < t.nodes@.len() ==> (#[trigger] t.nodes@[i]).failures == 0
            && t.nodes@[i].response_speed_ms == 0 && t.nodes@[i].node.database@ == database
            && t.nodes@[i].node.cluster_tag@ == "!"@ && exists|j: int|
            0 <= j < urls.len() && t.nodes@[i].node.url == urls[j]
    &&& forall|j: int|
        0 <= j < urls.len() ==> key_present(t.nodes@, ((#[trigger] urls[j]).text@, database))
}

impl RequestExecutorActor {
    /// The state invariant: ready exactly when a topology is installed,
    /// the installed topology well formed, discovery within bounds.
    pub open spec fn wf(self) -> bool {
        &&& (self.phase == ExecutorPhase::Ready <==> self.topology is Some)
        &&& (self.topology matches Some(t) ==> t.wf())
        &&& self.next_seed <= self.last_known_urls@.len()
        &&& (self.phase == ExecutorPhase::TopologyPending && self.last_known_urls@.len() > 0
            ==> self.next_seed < self.last_known_urls@.len())
    }

    /// The installed topology version; zero before any is installed.
    pub open spec fn current_etag(self) -> u64 {
        match self.topology {
            Option::Some(t) => t.etag,
            Option::None => 0,
        }
    }

    /// Everything that is configuration rather than topology state.
    pub open spec fn same_config(pre: Self, post: Self) -> bool {
        &&& post.database == pre.database
        &&& post.conventions == pre.conventions
        &&& post.dns_overrides == pre.dns_overrides
        &&& post.proxy_address == pre.proxy_address
        &&& post.run_speed_test == pre.run_speed_test
        &&& post.last_known_urls == pre.last_known_urls
    }

    /// A new executor for one database: topology pending, nothing failed
    /// yet, no refresh in flight.
    pub fn new(
        database: String,
        initial_urls: Vec<StoreUrl>,
        dns_overrides: DnsOverrides,
        proxy_address: Option<String>,
        conventions: DocumentConventions,
    ) -> (r: Self)
        ensures
            r.wf(),
            r.database == database,
            r.conventions == conventions,
            r.dns_overrides == dns_overrides,
            r.proxy_address == proxy_address,
            !r.run_speed_test,
            r.last_known_urls == initial_urls,
            r.phase == ExecutorPhase::TopologyPending,
            r.topology is None,
            !r.refresh_in_flight,
            r.next_seed == 0,
            r.seed_errors@.len() == 0,
    {
        RequestExecutorActor {
            database,
            conventions,
            dns_overrides,
            proxy_address,
            run_speed_test: false,
            last_known_urls: initial_urls,
            phase: ExecutorPhase::TopologyPending,
            topology: Option::None,
            refresh_in_flight: false,
            next_seed: 0,
            seed_errors: Vec::new(),
        }
    }

    /// The seed discovery should query next, if discovery is still due.
    pub fn pending_seed(&self) -> (r: Option<StoreUrl>)
        requires
            self.wf(),
        ensures
            (r is Some) == (self.phase == ExecutorPhase::TopologyPending
                && self.last_known_urls@.len() > 0),
            r matches Some(u) ==> u == self.last_known_urls@[self.next_seed as int],
    {
        if self.phase == ExecutorPhase::TopologyPending && self.last_known_urls.len() > 0 {
            Option::Some(self.last_known_urls[self.next_seed].duplicate())
        } else {
            Option::None
        }
    }

    /// Discovery can no longer produce a node: the seed list was empty.
    /// The accumulated per-seed errors are all a caller can be given.
    pub fn discovery_failed(&self) -> (r: bool)
        ensures
            r == (self.phase == ExecutorPhase::TopologyPending && self.last_known_urls@.len()
                == 0),
    {
        self.phase == ExecutorPhase::TopologyPending && self.last_known_urls.len() == 0
    }

    /// Take in what one seed answered during discovery.  The first
    /// topology document makes the executor ready; a failure is recorded
    /// and, when it was the last seed, the degraded topology synthesized
    /// from the seeds themselves makes it ready instead.
    pub fn on_seed_response(&mut self, outcome: Result<TopologyDocument, RequestExecutorError>)
        requires
            old(self).wf(),
            old(self).phase == ExecutorPhase::TopologyPending,
            old(self).last_known_urls@.len() > 0,
        ensures
            final(self).wf(),
            Self::same_config(*old(self), *final(self)),
            final(self).refresh_in_flight == old(self).refresh_in_flight,
            match outcome {
                Result::Ok(doc) => {
                    &&& final(self).phase == ExecutorPhase::Ready
                    &&& final(self).topology matches Some(t) && installed_from(t, doc)
                    &&& final(self).next_seed == old(self).next_seed
                    &&& final(self).seed_errors == old(self).seed_errors
                },
                Result::Err(e) => {
                    &&& final(self).next_seed == old(self).next_seed + 1
                    &&& final(self).seed_errors@.len() == old(self).seed_errors@.len() + 1
                    &&& forall|i: int|
                        0 <= i < old(self).seed_errors@.len() ==> final(self).seed_errors@[i] == old(
                            self,
                        ).seed_errors@[i]
                    &&& final(self).seed_errors@.last() == (
                        old(self).last_known_urls@[old(self).next_seed as int],
                        e,
                    )
                    &&& if old(self).next_seed + 1 == old(self).last_known_urls@.len() {
                        &&& final(self).phase == ExecutorPhase::Ready
                        &&& final(self).topology matches Some(t) && synthesized_from(
                            t,
                            old(self).last_known_urls@,
                            old(self).database@,
                        )
                    } else {
                        &&& final(self).phase == ExecutorPhase::TopologyPending
                        &&& final(self).topology is None
                    }
                },
            },
    {
        match outcome {
            Result::Ok(doc) => {
                let topo = DatabaseTopology::from_document(&doc);
                self.topology = Option::Some(topo);
                self.phase = ExecutorPhase::Ready;
            },
            Result::Err(e) => {
                let idx = self.next_seed;
                let n = self.last_known_urls.len();
                proof {
                    assert(idx < n);
                }
                let url = self.last_known_urls[idx].duplicate();
                self.seed_errors.push((url, e));
                self.next_seed = idx + 1;
                if self.next_seed == n {
                    let topo = synthesize_topology(&self.last_known_urls, &self.database);
                    self.topology = Option::Some(topo);
                    self.phase = ExecutorPhase::Ready;
                }
            },
        }
    }

    /// Decide how to serve one command: reject while the topology is
    /// pending, report an empty topology, or pick a node by the selection
    /// policy and render the command against it with the current topology
    /// version stamped on the request.
    pub fn plan_execution(&self, command: &RavenCommand) -> (r: Result<
        (ServerNode, HttpRequest),
        RequestExecutorError,
    >)
        requires
            self.wf(),
        ensures
            match r {
                Result::Ok((n, req)) => {
                    &&& self.phase == ExecutorPhase::Ready
                    &&& self.topology matches Some(t) && t.nodes@.len() > 0 && selection_ok_over(
                        Some(t),
                        Some(n),
                    ) && self.stamped_request(command.command, n, req)
                },
                Result::Err(e) => match e {
                    RequestExecutorError::NotReady => self.phase == ExecutorPhase::TopologyPending,
                    RequestExecutorError::NoNodeAvailable => self.phase == ExecutorPhase::Ready
                        && (self.topology matches Some(t) && t.nodes@.len() == 0),
                    _ => false,
                },
            },
    {
        match &self.topology {
            Option::None => Result::Err(RequestExecutorError::NotReady),
            Option::Some(t) => {
                let selector = NodeSelector::new(Option::Some(t.duplicate()));
                match selector.get_preferred_node() {
                    Option::None => Result::Err(RequestExecutorError::NoNodeAvailable),
                    Option::Some(n) => {
                        let cmd = RavenCommand {
                            base_server_url: n.url.duplicate(),
                            command: command.command.duplicate(),
                        };
                        let mut req = cmd.get_http_request();
                        req.push_header("Topology-Etag", u64_to_dec_string(t.etag));
                        Result::Ok((n, req))
                    },
                }
            },
        }
    }

    /// The request planned for node `n`: the command rendered against the
    /// node's URL with exactly one header carrying the topology version.
    pub open spec fn stamped_request(
        self,
        v: RavenCommandVariant,
        n: ServerNode,
        req: HttpRequest,
    ) -> bool {
        &&& req.method@ == "GET"@
        &&& req.path@ == spec_path(v)
        &&& match (req.query, spec_query(v)) {
            (Option::None, Option::None) => true,
            (Option::Some(q), Option::Some(sq)) => q@ == sq,
            _ => false,
        }
        &&& req.url@ == spec_full_url(n.url.text@, v)
        &&& req.headers@.len() == 1
        &&& req.headers@[0].0@ == "Topology-Etag"@
        &&& req.headers@[0].1@ == dec_rep(self.current_etag() as nat)
    }

    /// A response arrived; its stale-topology header decides whether a
    /// background refresh starts now.  At most one refresh is in flight: a
    /// second trigger while one runs is a no-op.
    pub fn on_refresh_header(&mut self, refresh_topology: bool) -> (start: bool)
        requires
            old(self).wf(),
        ensures
            final(self).wf(),
            Self::same_config(*old(self), *final(self)),
            start == (refresh_topology && !old(self).refresh_in_flight && old(self).phase
                == ExecutorPhase::Ready),
            final(self).refresh_in_flight == (old(self).refresh_in_flight || start),
            final(self).phase == old(self).phase,
            final(self).topology == old(self).topology,
            final(self).next_seed == old(self).next_seed,
            final(self).seed_errors == old(self).seed_errors,
    {
        let start = refresh_topology && !self.refresh_in_flight && self.phase
            == ExecutorPhase::Ready;
        if start {
            self.refresh_in_flight = true;
        }
        start
    }

    /// Install the outcome of a background refresh.  A strictly newer
    /// document replaces the snapshot wholesale; an older or equal one,
    /// and any failure, leaves the working topology exactly as it was.
    /// Either way the refresh is no longer in flight and the version never
    /// goes backwards.
    pub fn on_refresh_outcome(&mut self, outcome: Result<TopologyDocument, RequestExecutorError>)
        requires
            old(self).wf(),
            old(self).phase == ExecutorPhase::Ready,
        ensures
            final(self).wf(),
            Self::same_config(*old(self), *final(self)),
            !final(self).refresh_in_flight,
            final(self).phase == ExecutorPhase::Ready,
            final(self).next_seed == old(self).next_seed,
            final(self).seed_errors == old(self).seed_errors,
            final(self).current_etag() >= old(self).current_etag(),
            match outcome {
                Result::Ok(doc) => if doc.etag > old(self).current_etag() {
                    final(self).topology matches Some(t) && installed_from(t, doc)
                } else {
                    final(self).topology == old(self).topology
                },
                Result::Err(_) => final(self).topology == old(self).topology,
            },
    {
        self.refresh_in_flight = false;
        match outcome {
            Result::Ok(doc) => {
                let newer = match &self.topology {
                    Option::Some(t) => doc.etag > t.etag,
                    Option::None => true,
                };
                if newer {
                    let topo = DatabaseTopology::from_document(&doc);
                    self.topology = Option::Some(topo);
                }
            },
            Result::Err(_) => {},
        }
    }

    /// Count one more failed request against `node`; used by the next
    /// selection, never to retry within the same call.
    pub fn record_failure(&mut self, node: &ServerNode)
        requires
            old(self).wf(),
        ensures
            final(self).wf(),
            Self::same_config(*old(self), *final(self)),
            final(self).phase == old(self).phase,
            final(self).refresh_in_flight == old(self).refresh_in_flight,
            final(self).next_seed == old(self).next_seed,
            final(self).seed_errors == old(self).seed_errors,
            match old(self).topology {
                Option::None => final(self).topology is None,
                Option::Some(t) => final(self).topology matches Some(t2) && failure_recorded(
                    t,
                    t2,
                    node.key(),
                ),
            },
    {
        match &mut self.topology {
            Option::Some(t) => t.record_failure(node),
            Option::None => {},
        }
    }

    /// The installed snapshot, as a copy.
    pub fn get_topology(&self) -> (r: Option<DatabaseTopology>)
        ensures
            (r is Some) == (self.topology is Some),
            r matches Some(t) ==> self.topology matches Some(t0) && t.etag == t0.etag && t.nodes@
                == t0.nodes@,
    {
        match &self.topology {
            Option::Some(t) => Option::Some(t.duplicate()),
            Option::None => Option::None,
        }
    }

    /// The nodes of the installed snapshot, as a copy.
    pub fn get_topology_nodes(&self) -> (r: Option<Vec<ServerNode>>)
        ensures
            (r is Some) == (self.topology is Some),
            r matches Some(v) ==> self.topology matches Some(t) && v@.len() == t.nodes@.len()
                && forall|i: int| 0 <= i < v@.len() ==> v@[i] == t.nodes@[i].node,
    {
        match &self.topology {
            Option::Some(t) => {
                let mut nodes: Vec<ServerNode> = Vec::new();
                let mut idx: usize = 0;
                while idx < t.nodes.len()
                    invariant
                        idx <= t.nodes@.len(),
                        nodes@.len() == idx,
                        forall|i: int| 0 <= i < idx ==> nodes@[i] == t.nodes@[i].node,
                    decreases t.nodes@.len() - idx,
                {
                    nodes.push(t.nodes[idx].node.duplicate());
                    idx += 1;
                }
                Option::Some(nodes)
            },
            Option::None => Option::None,
        }
    }

    /// The preferred node of the installed snapshot, by the selection
    /// policy.
    pub fn get_preferred_node(&self) -> (r: Option<ServerNode>)
        requires
            self.wf(),
        ensures
            selection_ok_over(self.topology, r),
    {
        let selector = NodeSelector::new(self.get_topology());
        selector.get_preferred_node()
    }

    /// The fastest node; delegates to the preferred node until the speed
    /// test lands.
    pub fn get_fastest_node(&self) -> (r: Option<ServerNode>)
        requires
            self.wf(),
        ensures
            selection_ok_over(self.topology, r),
    {
        self.get_preferred_node()
    }

    /// The node pinned to a logical session; reserved, same contract.
    pub fn get_node_by_session_id(&self, session_id: i32) -> (r: Option<ServerNode>)
        requires
            self.wf(),
        ensures
            selection_ok_over(self.topology, r),
    {
        let _ = session_id;
        self.get_preferred_node()
    }

    /// The node with a given cluster tag; reserved, same contract.
    pub fn get_requested_node(&self, tag: String) -> (r: Option<ServerNode>)
        requires
            self.wf(),
        ensures
            selection_ok_over(self.topology, r),
    {
        let _ = tag;
        self.get_preferred_node()
    }
}

/// `true` exactly when a stale-topology response header says so.
pub fn should_refresh_topology(header_value: Option<&String>) -> (r: bool)
    ensures
        r == (header_value matches Some(v) && v@ == "true"@),
{
    match header_value {
        Option::Some(v) => str_eq(v.as_str(), "true"),
        Option::None => false,
    }
}

/// The degraded topology used when every seed failed: each seed URL once,
/// wrapped as a node of this database and tagged `"!"` to mark that no
/// real cluster tag is known.
fn synthesize_topology(urls: &Vec<StoreUrl>, database: &String) -> (r: DatabaseTopology)
    ensures
        synthesized_from(r, urls@, database@),
{
    let mut entries: Vec<NodeHealth> = Vec::new();
    let mut idx: usize = 0;
    while idx < urls.len()
        invariant
            idx <= urls@.len(),
            forall|i: int, j: int|
                0 <= i < j < entries@.len() ==> (#[trigger] entries@[i]).node.key() != (
                #[trigger] entries@[j]).node.key(),
            forall|i: int|
                0 <= i < entries@.len() ==> (#[trigger] entries@[i]).failures == 0
                    && entries@[i].response_speed_ms == 0 && entries@[i].node.database@ == database@
                    && entries@[i].node.cluster_tag@ == "!"@ && exists|j: int|
                    0 <= j < urls@.len() && entries@[i].node.url == urls@[j],
            forall|j: int|
                0 <= j < idx ==> key_present(entries@, ((#[trigger] urls@[j]).text@, database@)),
        decreases urls@.len() - idx,
    {
        let mut node = ServerNode::new(urls[idx].duplicate(), database.clone());
        node.cluster_tag = String::from_str("!");
        let ghost pre = entries@;
        if find_by_key(&entries, &node).is_none() {
            let fresh = NodeHealth { node, failures: 0, response_speed_ms: 0 };
            proof {
                let ghost x = fresh;
                assert forall|j: int| 0 <= j < idx implies key_present(
                    pre.push(x),
                    ((#[trigger] urls@[j]).text@, database@),
                ) by {
                    crate::database_topology::lemma_key_present_push(
                        pre,
                        x,
                        (urls@[j].text@, database@),
                    );
                }
            }
            entries.push(fresh);
            proof {
                assert(entries@[entries@.len() - 1].node.key() == (
                    urls@[idx as int].text@,
                    database@,
                ));
            }
        }
        idx += 1;
    }
    DatabaseTopology { etag: 0, nodes: entries }
}

} // verus!
