use ravendb_client::cluster_topology::{ClusterTopology, ClusterTopologyInfo};
use ravendb_client::database_topology::topology_document_from_cluster;
use ravendb_client::document_store::{
    DocumentStoreActor, DocumentStoreBuilder, DocumentStoreError, ExecutorCacheOutcome,
};
use ravendb_client::server_node::ServerRole;
use ravendb_client::raven_command::{RavenCommand, RavenCommandVariant};
use ravendb_client::request_executor::ExecutorPhase;
use ravendb_client::urls::StoreUrl;

fn store(urls: &[&str], database: Option<&str>) -> DocumentStoreActor {
    let urls: Vec<String> = urls.iter().map(|u| u.to_string()).collect();
    let mut builder = DocumentStoreBuilder::new().set_urls(&urls);
    if let Some(db) = database {
        builder = builder.set_database_name(db);
    }
    DocumentStoreActor::new(builder.build().unwrap())
}

fn info(etag: i64, tagged: &[(&str, &str)]) -> ClusterTopologyInfo {
    let mut topo = ClusterTopology::empty();
    for (tag, url) in tagged {
        topo.all_nodes.push((
            tag.to_string(),
            StoreUrl { text: url.to_string(), scheme: "http".to_string() },
        ));
    }
    let mut out = ClusterTopologyInfo::empty();
    out.topology = topo;
    out.etag = etag;
    out
}

#[test]
fn server_address_falls_back_to_seeds_before_discovery() {
    let store = store(&["http://node1"], None);

    let address = store.get_server_address().unwrap();
    assert_eq!(address.text, "http://node1/");
}

#[test]
fn server_address_prefers_the_known_topology() {
    let mut store = store(&["http://node1"], None);
    store.on_topology_refreshed(Ok(info(4, &[("A", "http://node7/"), ("B", "http://node8/")])));

    for _ in 0..10 {
        let address = store.get_server_address().unwrap();
        assert!(address.text == "http://node7/" || address.text == "http://node8/");
    }
}

#[test]
fn topology_refresh_ignores_stale_documents() {
    let mut store = store(&["http://node1"], None);

    store.on_topology_refreshed(Ok(info(4, &[("A", "http://node7/")])));
    assert_eq!(store.topology_info.etag, 4);

    // Equal-or-lower versions are ignored.
    store.on_topology_refreshed(Ok(info(4, &[("A", "http://node9/")])));
    assert_eq!(store.topology_info.topology.all_nodes[0].1.text, "http://node7/");
    store.on_topology_refreshed(Ok(info(2, &[("A", "http://node9/")])));
    assert_eq!(store.topology_info.etag, 4);

    // A failed refresh never nulls out a working topology.
    store.on_topology_refreshed(Err(DocumentStoreError::UnexpectedError("boom".to_string())));
    assert_eq!(store.topology_info.etag, 4);
    assert_eq!(store.topology_info.topology.all_nodes.len(), 1);
}

#[test]
fn refresh_is_not_duplicated_while_one_is_in_flight() {
    let mut store = store(&["http://node1"], None);

    let first = store.refresh_topology().unwrap();
    let request = first.expect("a refresh should start");
    assert_eq!(request.path, "/cluster/topology");
    assert_eq!(request.headers[0].0, "Topology-Etag");
    assert_eq!(request.headers[0].1, "0");

    // While it runs, another trigger is a no-op.
    assert!(store.refresh_topology().unwrap().is_none());

    store.on_topology_refreshed(Ok(info(1, &[("A", "http://node7/")])));
    let request = store.refresh_topology().unwrap().expect("a new refresh may start");
    assert_eq!(request.headers[0].1, "1");
    assert_eq!(request.url, "http://node7/cluster/topology");
}

#[test]
fn prepared_commands_carry_the_topology_version() {
    let mut store = store(&["http://node1"], None);
    store.on_topology_refreshed(Ok(info(9, &[("A", "http://node7/")])));

    let command = RavenCommand {
        base_server_url: store.get_server_address().unwrap(),
        command: RavenCommandVariant::GetAllDocumentsFromDatabase {
            database: "sample".to_string(),
            page_size: Some(1),
            start: None,
        },
    };
    let request = store.prepare_raven_command_request(&command);

    assert_eq!(request.url, "http://node7/databases/sample/docs?pageSize=1");
    assert_eq!(request.headers.len(), 1);
    assert_eq!(request.headers[0].1, "9");
}

#[test]
fn executor_cache_hands_out_one_executor_per_database() {
    let mut store = store(&["http://node1"], Some("default-db"));

    let created = store.get_request_executor(Some("sales".to_string())).unwrap();
    let (slot, actor) = match created {
        ExecutorCacheOutcome::Created(slot, actor) => (slot, actor),
        ExecutorCacheOutcome::Cached(i) => {
            panic!("expected a created executor, got cached slot {}", i)
        },
    };
    assert_eq!(slot, 0);
    assert_eq!(actor.database, "sales");
    assert_eq!(actor.phase, ExecutorPhase::TopologyPending);
    assert_eq!(actor.last_known_urls.len(), 1);
    assert_eq!(actor.last_known_urls[0].text, "http://node1/");

    // The same database resolves to the cached slot, nothing new spawns.
    match store.get_request_executor(Some("sales".to_string())).unwrap() {
        ExecutorCacheOutcome::Cached(i) => assert_eq!(i, 0),
        ExecutorCacheOutcome::Created(..) => panic!("a second executor for one database"),
    }

    // No explicit name: the store's default database is used.
    match store.get_request_executor(None).unwrap() {
        ExecutorCacheOutcome::Created(i, actor) => {
            assert_eq!(i, 1);
            assert_eq!(actor.database, "default-db");
        },
        ExecutorCacheOutcome::Cached(_) => panic!("default database had no executor yet"),
    }
    match store.get_request_executor(None).unwrap() {
        ExecutorCacheOutcome::Cached(i) => assert_eq!(i, 1),
        ExecutorCacheOutcome::Created(..) => panic!("a second executor for the default database"),
    }
}

#[test]
fn cluster_answers_become_database_topology_documents() {
    let answer = info(6, &[("A", "http://node7/"), ("B", "http://node8/")]);

    let document = topology_document_from_cluster(&answer, &"sample".to_string());

    assert_eq!(document.etag, 6);
    assert_eq!(document.nodes.len(), 2);
    assert_eq!(document.nodes[0].cluster_tag, "A");
    assert_eq!(document.nodes[0].url.text, "http://node7/");
    assert_eq!(document.nodes[0].database, "sample");
    assert_eq!(document.nodes[0].server_role, ServerRole::Unassigned);

    // A negative version counts as zero.
    let stale = info(-3, &[("A", "http://node7/")]);
    assert_eq!(topology_document_from_cluster(&stale, &"sample".to_string()).etag, 0);
}

#[test]
fn missing_database_name_is_its_own_error() {
    let mut store = store(&["http://node1"], None);

    assert!(matches!(
        store.get_request_executor(None),
        Err(DocumentStoreError::NoDatabaseSpecified)
    ));
}
