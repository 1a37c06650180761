use gnostic::discovery::{Api, ApiList};

fn api(name: &str, version: &str, preferred: bool) -> Api {
    Api {
        kind: "discovery#directoryItem".to_string(),
        id: format!("{}:{}", name, version),
        name: name.to_string(),
        version: version.to_string(),
        title: String::new(),
        description: String::new(),
        discovery_rest_url: String::new(),
        documentation_link: String::new(),
        preferred,
    }
}

fn list() -> ApiList {
    ApiList {
        kind: "discovery#directoryList".to_string(),
        discovery_version: "v1".to_string(),
        items: vec![
            api("books", "v1", false),
            api("books", "v2", true),
            api("drive", "v2", true),
            api("books", "v2", false),
            api("books", "v3", true),
        ],
    }
}

#[test]
fn api_with_name_and_version_finds_the_first() {
    let list = list();
    let found = list.api_with_name_and_version("books", "v2").unwrap();
    assert_eq!(found.id, "books:v2");
    assert!(found.preferred);
    assert!(list.api_with_name_and_version("books", "v9").is_none());
    assert!(list.api_with_name_and_version("v2", "books").is_none());
    assert_eq!(list.api_with_name_and_version("drive", "v2").unwrap().name, "drive");
}

#[test]
fn preferred_api_finds_the_first_preferred() {
    let list = list();
    assert_eq!(list.preferred_api("books").unwrap().version, "v2");
    assert_eq!(list.preferred_api("drive").unwrap().version, "v2");
    assert!(list.preferred_api("gmail").is_none());
    let none_preferred = ApiList { kind: String::new(), discovery_version: String::new(), items: vec![api("a", "1", false)] };
    assert!(none_preferred.preferred_api("a").is_none());
}

#[test]
fn a_discovery_document_is_read() {
    let text = br#"{
        "kind": "discovery#restDescription",
        "discoveryVersion": "v1",
        "id": "books:v1",
        "name": "books",
        "version": "v1",
        "revision": "20240101",
        "title": "Books API",
        "description": "Searches for books.",
        "documentationLink": "https://example.com/books/docs",
        "protocol": "rest",
        "baseUrl": "https://example.com/books/v1/",
        "basePath": "/books/v1/",
        "rootUrl": "https://example.com/",
        "servicePath": "books/v1/",
        "batchPath": "batch/books/v1"
    }"#;
    let doc = gnostic::discovery::parse_document(text).unwrap();
    assert_eq!(doc.kind, "discovery#restDescription");
    assert_eq!(doc.discovery_version, "v1");
    assert_eq!(doc.id, "books:v1");
    assert_eq!(doc.name, "books");
    assert_eq!(doc.version, "v1");
    assert_eq!(doc.revision, "20240101");
    assert_eq!(doc.title, "Books API");
    assert_eq!(doc.description, "Searches for books.");
    assert_eq!(doc.documentation_link, "https://example.com/books/docs");
    assert_eq!(doc.protocol, "rest");
    assert_eq!(doc.base_url, "https://example.com/books/v1/");
    assert_eq!(doc.base_path, "/books/v1/");
    assert_eq!(doc.root_url, "https://example.com/");
    assert_eq!(doc.service_path, "books/v1/");
    assert_eq!(doc.batch_path, "batch/books/v1");
}

#[test]
fn a_discovery_document_must_be_a_mapping() {
    let failed = gnostic::discovery::parse_document(b"42").unwrap_err();
    assert_eq!(failed.len(), 1);
    assert_eq!(failed.errors[0].to_string(), "$ expected mapping, got Integer(42)");
    let empty = gnostic::discovery::parse_document(b"{}").unwrap();
    assert_eq!(empty, gnostic::discovery::Document::default());
}
