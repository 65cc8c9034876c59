use ravendb_client::default_document_store::{
    Certificate, Conventions, DefaultDocumentStoreBuilder,
};
use ravendb_client::document_conventions::DocumentConventions;
use ravendb_client::document_session::RavenDbVersion;
use ravendb_client::ravendb_error::RavenDbError;

#[test]
fn it_works() {
    let result = 2 + 2;
    assert_eq!(result, 4);
}

#[test]
fn conventions_default_leaves_topology_updates_enabled() {
    let conventions = DocumentConventions::default();
    assert!(!conventions.topology_updates_disabled());

    let single = DocumentConventions::default_for_single_server();
    assert!(!single.topology_updates_disabled());
    assert!(!single.send_application_identified);
}

#[test]
fn default_store_builder_is_a_template() {
    let mut builder = DefaultDocumentStoreBuilder::new();
    builder.set_urls(vec!["http://node1".to_string()]);
    builder.set_database("sample".to_string());
    builder.set_conventions(Conventions);
    builder.set_certificate(Certificate);

    let first = builder.build();
    let second = builder.build();

    assert_eq!(first.urls, vec!["http://node1".to_string()]);
    assert_eq!(first.database.as_deref(), Some("sample"));
    assert!(first.conventions.is_some());
    assert!(first.certificate.is_some());
    assert_eq!(second.urls, first.urls);
    assert_eq!(second.database, first.database);
}

#[test]
fn ravendb_error_messages_are_exact() {
    assert_eq!(
        RavenDbError::BadAuthorization.message(),
        "Invalid authorization, ensure valid certificate supplied"
    );
    assert_eq!(
        RavenDbError::DatabaseDoesNotExist("northwind".to_string()).message(),
        "Database `northwind` does not exist"
    );
    assert_eq!(RavenDbError::UnexpectedError("boom".to_string()).message(), "boom");
}

#[test]
fn ravendb_version_wraps_its_text() {
    let version = RavenDbVersion::new("5.4".to_string());
    assert_eq!(version.as_str(), "5.4");
}
