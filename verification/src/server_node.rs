//! A single server of the cluster as the topology reports it.

use vstd::prelude::*;

use crate::cluster_topology::ClusterTopology;
use crate::urls::StoreUrl;

verus! {

#[derive(Clone, Copy, Debug, PartialEq, Eq, Structural, Hash)]
pub enum ServerRole {
    Unassigned,
    Promotable,
    Member,
    Rehab,
}

impl Default for ServerRole {
    fn default() -> (r: Self)
        ensures
            r == ServerRole::Unassigned,
    {
        ServerRole::Unassigned
    }
}

/// A node address together with the database it serves.  Nodes are
/// identified by `(url, database)`; the cluster tag and the role are
/// corrected only by topology refreshes.
#[derive(Clone, Debug)]
pub struct ServerNode {
    pub url: StoreUrl,
    pub database: String,
    pub cluster_tag: String,
    pub server_role: ServerRole,
}

impl ServerNode {
    /// The pair a node is identified by.
    pub open spec fn key(self) -> (Seq<char>, Seq<char>) {
        (self.url.text@, self.database@)
    }

    pub fn new(url: StoreUrl, database: String) -> (r: Self)
        ensures
            r.url == url,
            r.database == database,
            r.cluster_tag@ == Seq::<char>::empty(),
            r.server_role == ServerRole::Unassigned,
    {
        ServerNode { url, database, cluster_tag: String::new(), server_role: ServerRole::Unassigned }
    }

    /// An equal copy; written out so that the equality is a contract.
    pub fn duplicate(&self) -> (r: Self)
        ensures
            r == *self,
    {
        ServerNode {
            url: self.url.duplicate(),
            database: self.database.clone(),
            cluster_tag: self.cluster_tag.clone(),
            server_role: self.server_role,
        }
    }

    pub fn same_key(&self, other: &ServerNode) -> (r: bool)
        ensures
            r == (self.key() == other.key()),
    {
        let same_url = self.url.same_address(&other.url);
        let same_db = self.database == other.database;
        same_url && same_db
    }
}

/// One server node per tagged address of a cluster topology, each serving
/// the given database.
pub fn create_server_nodes_from_cluster_topology(
    topology: &ClusterTopology,
    database: &String,
) -> (r: Vec<ServerNode>)
    ensures
        r@.len() == topology.all_nodes@.len(),
        forall|i: int|
            0 <= i < r@.len() ==> (#[trigger] r@[i]).url == topology.all_nodes@[i].1
                && r@[i].cluster_tag == topology.all_nodes@[i].0 && r@[i].database@ == database@
                && r@[i].server_role == ServerRole::Unassigned,
{
    let mut nodes: Vec<ServerNode> = Vec::new();
    let mut i: usize = 0;
    while i < topology.all_nodes.len()
        invariant
            i <= topology.all_nodes@.len(),
            nodes@.len() == i,
            forall|k: int|
                0 <= k < i ==> (#[trigger] nodes@[k]).url == topology.all_nodes@[k].1
                    && nodes@[k].cluster_tag == topology.all_nodes@[k].0 && nodes@[k].database@
                    == database@ && nodes@[k].server_role == ServerRole::Unassigned,
        decreases topology.all_nodes@.len() - i,
    {
        let mut node = ServerNode::new(topology.all_nodes[i].1.duplicate(), database.clone());
        node.cluster_tag = topology.all_nodes[i].0.clone();
        nodes.push(node);
        i += 1;
    }
    nodes
}

} // verus!
