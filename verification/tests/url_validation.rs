use ravendb_client::document_store::{validate_urls, DocumentStoreError};

fn texts(urls: &[ravendb_client::urls::StoreUrl]) -> Vec<String> {
    let mut out: Vec<String> = urls.iter().map(|u| u.text.clone()).collect();
    out.sort();
    out
}

#[allow(non_snake_case)]
#[test]
fn validate_urls_returns_vec_of_URL_for_http_strings() {
    let urls = vec!["http://starwars.com".to_string(), "http://google.com".to_string()];

    let result = validate_urls(&urls, false).unwrap();

    assert_eq!(
        texts(&result),
        vec!["http://google.com/".to_string(), "http://starwars.com/".to_string()]
    );
}

#[allow(non_snake_case)]
#[test]
fn validate_urls_returns_vec_of_URL_for_https_strings() {
    let urls = vec!["https://starwars.com".to_string(), "https://google.com".to_string()];

    let result = validate_urls(&urls, true).unwrap();

    assert_eq!(
        texts(&result),
        vec!["https://google.com/".to_string(), "https://starwars.com/".to_string()]
    );
}

#[allow(non_snake_case)]
#[test]
fn validate_urls_returns_correct_HashMap_for_http_strings() {
    // The result is keyed by the normalized serialization.
    let urls = vec!["http://starwars.com".to_string(), "http://google.com".to_string()];

    let result = validate_urls(&urls, false).unwrap();

    assert_eq!(result.len(), 2);
    assert!(result.iter().any(|u| u.text == "http://starwars.com/"));
    assert!(result.iter().any(|u| u.text == "http://google.com/"));
}

#[allow(non_snake_case)]
#[test]
fn validate_urls_returns_correct_HashMap_for_https_strings() {
    let urls = vec!["https://starwars.com".to_string(), "https://google.com".to_string()];

    let result = validate_urls(&urls, true).unwrap();

    assert_eq!(result.len(), 2);
    assert!(result.iter().any(|u| u.text == "https://starwars.com/"));
    assert!(result.iter().any(|u| u.text == "https://google.com/"));
}

#[test]
fn document_store_validate_urls_fails_for_mixed_http_and_https_strings() {
    let urls = vec!["https://starwars.com".to_string(), "http://google.com".to_string()];

    assert!(validate_urls(&urls, true).is_err());
    assert!(validate_urls(&urls, false).is_err());
}

#[test]
fn document_store_builder_validate_urls_fails_for_mixed_http_and_https_strings() {
    let urls = vec!["https://starwars.com".to_string(), "http://google.com".to_string()];

    assert!(validate_urls(&urls, true).is_err());
    assert!(validate_urls(&urls, false).is_err());
}

#[test]
fn validate_urls_rejects_unparseable_url() {
    let urls = vec!["not a url at all".to_string()];

    match validate_urls(&urls, false) {
        Err(DocumentStoreError::InvalidUrl(s)) => assert_eq!(s, "not a url at all"),
        other => panic!("expected InvalidUrl, got {:?}", other),
    }
}

#[test]
fn validate_urls_reports_the_offending_scheme() {
    let urls = vec!["http://starwars.com".to_string()];

    match validate_urls(&urls, true) {
        Err(DocumentStoreError::UrlSchemeError(s)) => assert_eq!(s, "http://starwars.com/"),
        other => panic!("expected UrlSchemeError, got {:?}", other),
    }
}

#[test]
fn validate_urls_collapses_duplicate_urls() {
    // Two spellings of one address normalize to the same serialization and
    // collapse to one entry.
    let urls = vec!["http://starwars.com".to_string(), "http://starwars.com/".to_string()];

    let result = validate_urls(&urls, false).unwrap();

    assert_eq!(result.len(), 1);
    assert_eq!(result[0].text, "http://starwars.com/");
    assert_eq!(result[0].scheme, "http");
}

#[test]
fn validate_urls_accepts_empty_list() {
    let urls: Vec<String> = Vec::new();

    let result = validate_urls(&urls, false).unwrap();

    assert!(result.is_empty());
}
