use ravendb_client::raven_command::{
    i64_to_dec_string, u64_to_dec_string, RavenCommand, RavenCommandVariant,
};
use ravendb_client::urls::StoreUrl;

fn base(text: &str) -> StoreUrl {
    StoreUrl { text: text.to_string(), scheme: "https".to_string() }
}

#[test]
fn cluster_topology_request_matches_the_endpoint_table() {
    let command = RavenCommand {
        base_server_url: base("https://node1/"),
        command: RavenCommandVariant::GetClusterTopology,
    };

    let request = command.get_http_request();

    assert_eq!(request.method, "GET");
    assert_eq!(request.path, "/cluster/topology");
    assert!(request.query.is_none());
    assert_eq!(request.url, "https://node1/cluster/topology");
    assert!(request.headers.is_empty());
}

#[test]
fn documents_request_with_page_size_only() {
    let command = RavenCommand {
        base_server_url: base("https://node1/"),
        command: RavenCommandVariant::GetAllDocumentsFromDatabase {
            database: "sample".to_string(),
            page_size: Some(1),
            start: None,
        },
    };

    let request = command.get_http_request();

    assert_eq!(request.path, "/databases/sample/docs");
    assert_eq!(request.query.as_deref(), Some("pageSize=1"));
    assert_eq!(request.url, "https://node1/databases/sample/docs?pageSize=1");
}

#[test]
fn documents_request_with_start_only() {
    let command = RavenCommand {
        base_server_url: base("https://node1/"),
        command: RavenCommandVariant::GetAllDocumentsFromDatabase {
            database: "sample".to_string(),
            page_size: None,
            start: Some(25),
        },
    };

    let request = command.get_http_request();

    assert_eq!(request.path, "/databases/sample/docs");
    assert_eq!(request.query.as_deref(), Some("start=25"));
    assert_eq!(request.url, "https://node1/databases/sample/docs?start=25");
}

#[test]
fn documents_request_with_both_query_parts() {
    let command = RavenCommand {
        base_server_url: base("https://node1/"),
        command: RavenCommandVariant::GetAllDocumentsFromDatabase {
            database: "sample".to_string(),
            page_size: Some(128),
            start: Some(5),
        },
    };

    let request = command.get_http_request();

    assert_eq!(request.query.as_deref(), Some("pageSize=128&start=5"));
    assert_eq!(request.url, "https://node1/databases/sample/docs?pageSize=128&start=5");
}

#[test]
fn documents_request_without_query_parts_keeps_an_empty_query() {
    let command = RavenCommand {
        base_server_url: base("https://node1/"),
        command: RavenCommandVariant::GetAllDocumentsFromDatabase {
            database: "sample".to_string(),
            page_size: None,
            start: None,
        },
    };

    let request = command.get_http_request();

    assert_eq!(request.query.as_deref(), Some(""));
    assert_eq!(request.url, "https://node1/databases/sample/docs?");
}

#[test]
fn base_without_trailing_slash_still_joins_cleanly() {
    let command = RavenCommand {
        base_server_url: base("https://node1:8080"),
        command: RavenCommandVariant::GetClusterTopology,
    };

    let request = command.get_http_request();

    assert_eq!(request.url, "https://node1:8080/cluster/topology");
}

#[test]
fn negative_numbers_render_with_a_sign() {
    let command = RavenCommand {
        base_server_url: base("https://node1/"),
        command: RavenCommandVariant::GetAllDocumentsFromDatabase {
            database: "sample".to_string(),
            page_size: Some(-3),
            start: None,
        },
    };

    let request = command.get_http_request();

    assert_eq!(request.query.as_deref(), Some("pageSize=-3"));
}

#[test]
fn decimal_rendering_is_exact() {
    assert_eq!(u64_to_dec_string(0), "0");
    assert_eq!(u64_to_dec_string(7), "7");
    assert_eq!(u64_to_dec_string(1234567890), "1234567890");
    assert_eq!(u64_to_dec_string(u64::MAX), "18446744073709551615");
    assert_eq!(i64_to_dec_string(-1), "-1");
    assert_eq!(i64_to_dec_string(i64::MIN), "-9223372036854775808");
    assert_eq!(i64_to_dec_string(i64::MAX), "9223372036854775807");
}

#[test]
fn push_header_appends_one_pair() {
    let command = RavenCommand {
        base_server_url: base("https://node1/"),
        command: RavenCommandVariant::GetClusterTopology,
    };
    let mut request = command.get_http_request();

    request.push_header("Topology-Etag", u64_to_dec_string(5));

    assert_eq!(request.headers.len(), 1);
    assert_eq!(request.headers[0].0, "Topology-Etag");
    assert_eq!(request.headers[0].1, "5");
}
