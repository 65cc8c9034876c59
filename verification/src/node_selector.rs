//! The node-selection policy: which node of a topology snapshot should
//! serve a request.
//!
//! Selection is a pure query.  Every function here borrows the selector
//! immutably, so no failure or speed counter can change through it; the
//! counters move only when the owning actor records a failure or installs
//! a fresh snapshot.

use vstd::prelude::*;

use crate::database_topology::{DatabaseTopology, NodeHealth};
use crate::server_node::ServerNode;

verus! {

/// Pure selection policy over a database topology snapshot with its
/// per-node health counters.
#[derive(Clone, Debug)]
pub struct NodeSelector {
    /// Whether to run speed tests; reserved extension point.
    pub run_speed_test: bool,
    pub topology: Option<DatabaseTopology>,
}

/// `i` is the first entry with a zero failure count.
pub open spec fn is_first_zero_failure(entries: Seq<NodeHealth>, i: int) -> bool {
    &&& 0 <= i < entries.len()
    &&& entries[i].failures == 0
    &&& forall|j: int| 0 <= j < i ==> (#[trigger] entries[j]).failures != 0
}

/// What every selection function promises of a topology snapshot: no node
/// exactly when the topology is absent or empty; otherwise some known
/// node, and the first zero-failure node whenever any node has a clean
/// record.
pub open spec fn selection_ok_over(topology: Option<DatabaseTopology>, r: Option<ServerNode>) -> bool {
    match topology {
        Option::None => r is None,
        Option::Some(t) => {
            &&& (r is None <==> t.nodes@.len() == 0)
            &&& (r matches Some(n) ==> exists|i: int|
                0 <= i < t.nodes@.len() && (#[trigger] t.nodes@[i]).node == n)
            &&& (t.has_zero_failure_node() ==> exists|i: int|
                #[trigger] is_first_zero_failure(t.nodes@, i) && r == Some(t.nodes@[i].node))
        },
    }
}

impl NodeSelector {
    /// The selection policy over this selector's snapshot.
    pub open spec fn selection_ok(self, r: Option<ServerNode>) -> bool {
        selection_ok_over(self.topology, r)
    }

    pub fn new(topology: Option<DatabaseTopology>) -> (r: Self)
        ensures
            !r.run_speed_test,
            r.topology == topology,
    {
        NodeSelector { run_speed_test: false, topology }
    }

    /// The fastest node.  Until the speed test lands this delegates to the
    /// preferred node; the contract is fixed so callers survive the change.
    pub fn get_fastest_node(&self) -> (r: Option<ServerNode>)
        ensures
            self.selection_ok(r),
    {
        self.get_preferred_node()
    }

    /// The node pinned to a logical session.  Reserved; delegates to the
    /// preferred node under the same contract.
    pub fn get_node_by_session_id(&self, session_id: i32) -> (r: Option<ServerNode>)
        ensures
            self.selection_ok(r),
    {
        let _ = session_id;
        self.get_preferred_node()
    }

    /// The node with a given cluster tag.  Reserved; delegates to the
    /// preferred node under the same contract.
    pub fn get_requested_node(&self, tag: String) -> (r: Option<ServerNode>)
        ensures
            self.selection_ok(r),
    {
        let _ = tag;
        self.get_preferred_node()
    }

    /// The first node with a clean failure record; when every node has
    /// recorded failures, an arbitrary node of the topology, so traffic
    /// does not herd onto one survivor.
    pub fn get_preferred_node(&self) -> (r: Option<ServerNode>)
        ensures
            self.selection_ok(r),
    {
        match &self.topology {
            Option::None => Option::None,
            Option::Some(t) => {
                match find_zero_failure(&t.nodes) {
                    Option::Some(i) => Option::Some(t.nodes[i].node.duplicate()),
                    Option::None => self.select_random_node(),
                }
            },
        }
    }

    /// An arbitrary node of the topology, or none when it is empty.
    fn select_random_node(&self) -> (r: Option<ServerNode>)
        ensures
            match self.topology {
                Option::None => r is None,
                Option::Some(t) => {
                    &&& (r is None <==> t.nodes@.len() == 0)
                    &&& (r matches Some(n) ==> exists|i: int|
                        0 <= i < t.nodes@.len() && (#[trigger] t.nodes@[i]).node == n)
                },
            },
    {
        match &self.topology {
            Option::None => Option::None,
            Option::Some(t) => {
                if t.nodes.len() == 0 {
                    Option::None
                } else {
                    let i = random_index(t.nodes.len());
                    Option::Some(t.nodes[i].node.duplicate())
                }
            },
        }
    }
}

/// The index of the first entry with a zero failure count, if any.
fn find_zero_failure(entries: &Vec<NodeHealth>) -> (r: Option<usize>)
    ensures
        r matches Some(i) ==> is_first_zero_failure(entries@, i as int),
        r is None ==> forall|j: int|
            0 <= j < entries@.len() ==> (#[trigger] entries@[j]).failures != 0,
{
    let mut idx: usize = 0;
    while idx < entries.len()
        invariant
            idx <= entries@.len(),
            forall|j: int| 0 <= j < idx ==> (#[trigger] entries@[j]).failures != 0,
        decreases entries@.len() - idx,
    {
        if entries[idx].failures == 0 {
            return Some(idx);
        }
        idx += 1;
    }
    None
}

/// Law: when exactly one node of the topology has a zero failure count,
/// every selection that meets the policy contract returns that node.
pub proof fn lemma_unique_zero_failure_node_is_selected(
    s: NodeSelector,
    t: DatabaseTopology,
    k: int,
    r: Option<ServerNode>,
)
    requires
        s.topology == Some(t),
        0 <= k < t.nodes@.len(),
        t.nodes@[k].failures == 0,
        forall|i: int|
            0 <= i < t.nodes@.len() && i != k ==> (#[trigger] t.nodes@[i]).failures != 0,
        s.selection_ok(r),
    ensures
        r == Some(t.nodes@[k].node),
{
    assert(t.has_zero_failure_node()) by {
        assert(0 <= k < t.nodes@.len() && t.nodes@[k].failures == 0);
    }
    let i = choose|i: int|
        #[trigger] is_first_zero_failure(t.nodes@, i) && r == Some(t.nodes@[i].node);
    assert(i == k) by {
        if i < k {
            assert(t.nodes@[i].failures != 0);
        }
        if i > k {
            assert(t.nodes@[k].failures != 0);
        }
    }
}

/// Relies on `rand::Rng::gen_range` over the thread-local generator: the
/// result lies inside the given range, which is non-empty here.
#[verifier::external_body]
pub(crate) fn random_index(n: usize) -> (r: usize)
    requires
        1 <= n,
    ensures
        r < n,
{
    rand::Rng::gen_range(&mut rand::thread_rng(), 0..n)
}

} // verus!
