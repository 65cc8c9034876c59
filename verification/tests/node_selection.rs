use ravendb_client::database_topology::{DatabaseTopology, NodeHealth};
use ravendb_client::node_selector::NodeSelector;
use ravendb_client::server_node::ServerNode;
use ravendb_client::urls::StoreUrl;

fn url(text: &str) -> StoreUrl {
    StoreUrl { text: text.to_string(), scheme: "http".to_string() }
}

fn node(text: &str) -> ServerNode {
    ServerNode::new(url(text), "db".to_string())
}

fn entry(text: &str, failures: u32) -> NodeHealth {
    NodeHealth { node: node(text), failures, response_speed_ms: 0 }
}

#[test]
fn preferred_node_is_the_unique_zero_failure_node() {
    let topology = DatabaseTopology {
        etag: 1,
        nodes: vec![
            entry("http://n1/", 3),
            entry("http://n2/", 0),
            entry("http://n3/", 7),
        ],
    };
    let selector = NodeSelector::new(Some(topology));

    for _ in 0..20 {
        let chosen = selector.get_preferred_node().unwrap();
        assert_eq!(chosen.url.text, "http://n2/");
    }
}

#[test]
fn all_failed_nodes_still_yield_some_known_node() {
    let topology = DatabaseTopology {
        etag: 1,
        nodes: vec![entry("http://n1/", 1), entry("http://n2/", 2)],
    };
    let selector = NodeSelector::new(Some(topology));

    for _ in 0..20 {
        let chosen = selector.get_preferred_node().unwrap();
        assert!(chosen.url.text == "http://n1/" || chosen.url.text == "http://n2/");
    }
}

#[test]
fn empty_topology_yields_no_node() {
    let selector = NodeSelector::new(Some(DatabaseTopology::empty()));
    assert!(selector.get_preferred_node().is_none());

    let absent = NodeSelector::new(None);
    assert!(absent.get_preferred_node().is_none());
    assert!(absent.get_fastest_node().is_none());
    assert!(absent.get_node_by_session_id(7).is_none());
    assert!(absent.get_requested_node("A".to_string()).is_none());
}

#[test]
fn delegating_selectors_agree_with_the_policy() {
    let topology = DatabaseTopology {
        etag: 1,
        nodes: vec![entry("http://n1/", 1), entry("http://n2/", 0)],
    };
    let selector = NodeSelector::new(Some(topology));

    assert_eq!(selector.get_fastest_node().unwrap().url.text, "http://n2/");
    assert_eq!(selector.get_node_by_session_id(42).unwrap().url.text, "http://n2/");
    assert_eq!(selector.get_requested_node("B".to_string()).unwrap().url.text, "http://n2/");
}

#[test]
fn selection_leaves_counters_untouched() {
    // Selection is a pure query: repeated selection from an unmodified
    // topology never moves a failure or speed counter.
    let topology = DatabaseTopology {
        etag: 1,
        nodes: vec![entry("http://n1/", 4), entry("http://n2/", 0)],
    };
    let selector = NodeSelector::new(Some(topology));

    for _ in 0..10 {
        selector.get_preferred_node();
        selector.get_fastest_node();
        selector.get_node_by_session_id(1);
    }

    let t = selector.topology.as_ref().unwrap();
    assert_eq!(t.nodes[0].failures, 4);
    assert_eq!(t.nodes[1].failures, 0);
    assert_eq!(t.nodes[0].response_speed_ms, 0);
    assert_eq!(t.nodes[1].response_speed_ms, 0);
}

#[test]
fn record_failure_moves_exactly_one_counter() {
    let mut topology = DatabaseTopology {
        etag: 1,
        nodes: vec![entry("http://n1/", 0), entry("http://n2/", 0)],
    };
    let target = node("http://n2/");

    topology.record_failure(&target);

    assert_eq!(topology.nodes[0].failures, 0);
    assert_eq!(topology.nodes[1].failures, 1);
    assert_eq!(topology.etag, 1);
}
