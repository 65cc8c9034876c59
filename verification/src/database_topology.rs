//! The database-level topology snapshot: a version number and the known
//! nodes with their health counters.

use vstd::prelude::*;
use vstd::pervasive::VecAdditionalExecFns;

use crate::cluster_topology::ClusterTopologyInfo;
use crate::server_node::{create_server_nodes_from_cluster_topology, ServerNode};

verus! {

/// One node of a database topology together with its health counters.
#[derive(Clone, Debug)]
pub struct NodeHealth {
    pub node: ServerNode,
    /// How many requests against this node failed since this snapshot was
    /// installed.
    pub failures: u32,
    /// Last measured response time; reserved for the speed-test extension.
    pub response_speed_ms: u32,
}

/// A topology document as a discovery or refresh response hands it over:
/// a version and the member nodes, before any health is recorded.
#[derive(Clone, Debug)]
pub struct TopologyDocument {
    pub etag: u64,
    pub nodes: Vec<ServerNode>,
}

/// A versioned snapshot of the nodes serving one database.  The node list
/// is keyed by `(url, database)` and keys are unique; counters change only
/// through explicit failure reports, never through node selection.
#[derive(Clone, Debug)]
pub struct DatabaseTopology {
    pub etag: u64,
    pub nodes: Vec<NodeHealth>,
}

/// Some entry of the list carries a node with the key `k`.
pub open spec fn key_present(entries: Seq<NodeHealth>, k: (Seq<char>, Seq<char>)) -> bool {
    exists|i: int| 0 <= i < entries.len() && (#[trigger] entries[i]).node.key() == k
}

pub(crate) proof fn lemma_key_present_push(
    entries: Seq<NodeHealth>,
    x: NodeHealth,
    k: (Seq<char>, Seq<char>),
)
    requires
        key_present(entries, k),
    ensures
        key_present(entries.push(x), k),
{
    let i = choose|i: int| 0 <= i < entries.len() && (#[trigger] entries[i]).node.key() == k;
    assert(entries.push(x)[i].node.key() == k);
}

pub open spec fn saturating_inc(n: u32) -> u32 {
    if n < u32::MAX {
        (n + 1) as u32
    } else {
        n
    }
}

/// `t` is the snapshot a topology document installs: the document's
/// version, each of its nodes exactly once, and every counter at zero.
pub open spec fn installed_from(t: DatabaseTopology, doc: TopologyDocument) -> bool {
    &&& t.etag == doc.etag
    &&& t.wf()
    &&& forall|i: int|
        0 <= i < t.nodes@.len() ==> (#[trigger] t.nodes@[i]).failures == 0
            && t.nodes@[i].response_speed_ms == 0 && exists|j: int|
            0 <= j < doc.nodes@.len() && t.nodes@[i].node == doc.nodes@[j]
    &&& forall|j: int|
        0 <= j < doc.nodes@.len() ==> key_present(t.nodes@, (#[trigger] doc.nodes@[j]).key())
}

/// `post` is `pre` with one more failure counted against the node keyed
/// `k`: that entry's counter is bumped, everything else is as it was.
pub open spec fn failure_recorded(
    pre: DatabaseTopology,
    post: DatabaseTopology,
    k: (Seq<char>, Seq<char>),
) -> bool {
    &&& post.etag == pre.etag
    &&& post.nodes@.len() == pre.nodes@.len()
    &&& forall|i: int|
        0 <= i < pre.nodes@.len() && (#[trigger] pre.nodes@[i]).node.key() != k
            ==> post.nodes@[i] == pre.nodes@[i]
    &&& forall|i: int|
        0 <= i < pre.nodes@.len() && (#[trigger] pre.nodes@[i]).node.key() == k ==> post.nodes@[i].node
            == pre.nodes@[i].node && post.nodes@[i].response_speed_ms
            == pre.nodes@[i].response_speed_ms && post.nodes@[i].failures == saturating_inc(
            pre.nodes@[i].failures,
        )
}

impl NodeHealth {
    pub fn duplicate(&self) -> (r: Self)
        ensures
            r == *self,
    {
        NodeHealth {
            node: self.node.duplicate(),
            failures: self.failures,
            response_speed_ms: self.response_speed_ms,
        }
    }
}

impl DatabaseTopology {
    /// Keys are unique: the same node never appears twice.
    pub open spec fn wf(self) -> bool {
        forall|i: int, j: int|
            0 <= i < j < self.nodes@.len() ==> (#[trigger] self.nodes@[i]).node.key() != (
            #[trigger] self.nodes@[j]).node.key()
    }

    pub open spec fn has_zero_failure_node(self) -> bool {
        exists|i: int| 0 <= i < self.nodes@.len() && (#[trigger] self.nodes@[i]).failures == 0
    }

    pub fn empty() -> (r: Self)
        ensures
            r.etag == 0,
            r.nodes@.len() == 0,
    {
        DatabaseTopology { etag: 0, nodes: Vec::new() }
    }

    /// Install a topology document as a fresh snapshot: every node of the
    /// document is taken over exactly once (the first occurrence wins when
    /// the document repeats a key) and all counters start at zero.
    pub fn from_document(doc: &TopologyDocument) -> (r: Self)
        ensures
            installed_from(r, *doc),
    {
        let mut entries: Vec<NodeHealth> = Vec::new();
        let mut idx: usize = 0;
        while idx < doc.nodes.len()
            invariant
                idx <= doc.nodes@.len(),
                forall|i: int, j: int|
                    0 <= i < j < entries@.len() ==> (#[trigger] entries@[i]).node.key() != (
                    #[trigger] entries@[j]).node.key(),
                forall|i: int|
                    0 <= i < entries@.len() ==> (#[trigger] entries@[i]).failures == 0
                        && entries@[i].response_speed_ms == 0 && exists|j: int|
                        0 <= j < doc.nodes@.len() && entries@[i].node == doc.nodes@[j],
                forall|j: int|
                    0 <= j < idx ==> key_present(entries@, (#[trigger] doc.nodes@[j]).key()),
            decreases doc.nodes@.len() - idx,
        {
            let ghost pre = entries@;
            if find_by_key(&entries, &doc.nodes[idx]).is_none() {
                let fresh = NodeHealth {
                    node: doc.nodes[idx].duplicate(),
                    failures: 0,
                    response_speed_ms: 0,
                };
                proof {
                    let ghost x = fresh;
                    assert forall|j: int| 0 <= j < idx implies key_present(
                        pre.push(x),
                        (#[trigger] doc.nodes@[j]).key(),
                    ) by {
                        lemma_key_present_push(pre, x, doc.nodes@[j].key());
                    }
                }
                entries.push(fresh);
                proof {
                    assert(entries@[entries@.len() - 1].node.key() == doc.nodes@[idx as int].key());
                }
            }
            idx += 1;
        }
        DatabaseTopology { etag: doc.etag, nodes: entries }
    }

    /// An equivalent copy: same version, same entries.
    pub fn duplicate(&self) -> (r: Self)
        ensures
            r.etag == self.etag,
            r.nodes@ == self.nodes@,
    {
        let mut nodes: Vec<NodeHealth> = Vec::new();
        let mut idx: usize = 0;
        while idx < self.nodes.len()
            invariant
                idx <= self.nodes@.len(),
                nodes@.len() == idx,
                forall|i: int| 0 <= i < idx ==> nodes@[i] == self.nodes@[i],
            decreases self.nodes@.len() - idx,
        {
            nodes.push(self.nodes[idx].duplicate());
            idx += 1;
        }
        proof {
            assert(nodes@ =~= self.nodes@);
        }
        DatabaseTopology { etag: self.etag, nodes }
    }

    /// Count one more failed request against `node`.  Nothing but that
    /// node's failure counter changes; an unknown node changes nothing.
    pub fn record_failure(&mut self, node: &ServerNode)
        requires
            old(self).wf(),
        ensures
            final(self).wf(),
            failure_recorded(*old(self), *final(self), node.key()),
    {
        let found = find_by_key(&self.nodes, node);
        if let Some(idx) = found {
            let entry = &self.nodes[idx];
            let bumped = if entry.failures < u32::MAX {
                entry.failures + 1
            } else {
                entry.failures
            };
            let updated = NodeHealth {
                node: entry.node.duplicate(),
                failures: bumped,
                response_speed_ms: entry.response_speed_ms,
            };
            self.nodes.set(idx, updated);
        }
    }
}

/// The database-level topology document a cluster topology answer stands
/// for: the answer's version (a negative one counts as zero) and one node
/// per tagged address, serving the given database.
pub fn topology_document_from_cluster(info: &ClusterTopologyInfo, database: &String) -> (r:
    TopologyDocument)
    ensures
        r.etag == (if info.etag >= 0 {
            info.etag as u64
        } else {
            0
        }),
        r.nodes@.len() == info.topology.all_nodes@.len(),
        forall|i: int|
            0 <= i < r.nodes@.len() ==> (#[trigger] r.nodes@[i]).url
                == info.topology.all_nodes@[i].1 && r.nodes@[i].cluster_tag
                == info.topology.all_nodes@[i].0 && r.nodes@[i].database@ == database@,
{
    let nodes = create_server_nodes_from_cluster_topology(&info.topology, database);
    let etag: u64 = if info.etag >= 0 {
        info.etag as u64
    } else {
        0
    };
    TopologyDocument { etag, nodes }
}

/// Find the entry whose node has the given node's key.
pub(crate) fn find_by_key(entries: &Vec<NodeHealth>, node: &ServerNode) -> (r: Option<usize>)
    ensures
        r matches Some(i) ==> i < entries@.len() && entries@[i as int].node.key() == node.key(),
        r is None ==> forall|i: int|
            0 <= i < entries@.len() ==> (#[trigger] entries@[i]).node.key() != node.key(),
{
    let mut idx: usize = 0;
    while idx < entries.len()
        invariant
            idx <= entries@.len(),
            forall|i: int|
                0 <= i < idx ==> (#[trigger] entries@[i]).node.key() != node.key(),
        decreases entries@.len() - idx,
    {
        if entries[idx].node.same_key(node) {
            return Some(idx);
        }
        idx += 1;
    }
    None
}

} // verus!
