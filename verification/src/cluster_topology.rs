//! The cluster-level topology document and its surrounding status types.
//!
//! The store keeps only what its routing logic reads: the tagged node
//! addresses and the version number.  The remaining status records are
//! plain data carried for callers.

use vstd::prelude::*;

use crate::urls::StoreUrl;

verus! {

/// The node map of the cluster: addresses keyed by their cluster tag.
#[derive(Clone, Debug)]
pub struct ClusterTopology {
    pub topology_id: String,
    pub all_nodes: Vec<(String, StoreUrl)>,
    pub members: Vec<(String, StoreUrl)>,
    pub promotables: Vec<(String, StoreUrl)>,
    pub watchers: Vec<(String, StoreUrl)>,
    pub last_node_id: Option<String>,
    pub etag: i64,
}

/// The cluster topology document a `/cluster/topology` response carries,
/// reduced to the fields the store reads.
#[derive(Clone, Debug)]
pub struct ClusterTopologyInfo {
    pub topology: ClusterTopology,
    pub etag: i64,
    pub leader: String,
    pub node_tag: String,
}

impl ClusterTopology {
    pub fn empty() -> (r: Self)
        ensures
            r.all_nodes@.len() == 0,
            r.members@.len() == 0,
            r.promotables@.len() == 0,
            r.watchers@.len() == 0,
            r.last_node_id is None,
            r.etag == 0,
            r.topology_id@ == Seq::<char>::empty(),
    {
        ClusterTopology {
            topology_id: String::new(),
            all_nodes: Vec::new(),
            members: Vec::new(),
            promotables: Vec::new(),
            watchers: Vec::new(),
            last_node_id: None,
            etag: 0,
        }
    }
}

impl ClusterTopologyInfo {
    /// The state before the first successful discovery: no nodes, version
    /// zero.
    pub fn empty() -> (r: Self)
        ensures
            r.topology.all_nodes@.len() == 0,
            r.etag == 0,
            r.leader@ == Seq::<char>::empty(),
            r.node_tag@ == Seq::<char>::empty(),
    {
        ClusterTopologyInfo {
            topology: ClusterTopology::empty(),
            etag: 0,
            leader: String::new(),
            node_tag: String::new(),
        }
    }
}

/// Version information a node reports about itself.
#[derive(Clone, Debug)]
pub struct BuildInfo {
    pub product_version: Option<String>,
    pub build_version: Option<i64>,
    pub commit_hash: Option<String>,
    pub full_version: Option<String>,
}

/// Operating-system information a node reports about itself.
#[derive(Clone, Debug)]
pub struct OsInfo {
    pub os_type: Option<String>,
    pub full_name: Option<String>,
    pub version: Option<String>,
    pub build_version: Option<String>,
    pub is_64_bit: bool,
}

/// Connection status of one node as seen by the answering node.
#[derive(Clone, Debug)]
pub struct NodeStatus {
    pub name: Option<String>,
    pub connected: bool,
    pub error_details: Option<String>,
    pub last_sent: Option<String>,
    pub last_reply: Option<String>,
    pub last_sent_message: Option<String>,
    pub last_matching_index: Option<i64>,
}

/// The role a node currently plays in the cluster consensus.
#[derive(Clone, Copy, Debug, PartialEq, Eq, Structural)]
pub enum NodeState {
    Undefined,
    Passive,
    Candidate,
    Follower,
    LeaderElect,
    Leader,
}

impl Default for NodeState {
    fn default() -> (r: Self)
        ensures
            r == NodeState::Undefined,
    {
        NodeState::Undefined
    }
}

} // verus!
