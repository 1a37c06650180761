use gnostic::error::CompilerError;
use gnostic::helpers::{int_for_scalar_node, map_value_for_key, string_for_scalar_node};
use gnostic::locator::{directory_of, locate, resolve_reference, Source};
use gnostic::node::Node;
use gnostic::reader::{
    clear_caches, clear_file_cache, clear_info_cache, complete_ref, disable_file_cache, disable_info_cache,
    enable_file_cache, enable_info_cache, fetch_file, finish_fetch, first_node, parse_bytes, read_bytes_for_file,
    read_info_for_ref, read_info_from_bytes, remove_from_file_cache, remove_from_info_cache, resolve_fragment,
    set_verbose_reader, ReadStep, Reader, RefStep,
};

#[test]
fn test_cache_operations() {
    let mut reader = Reader::new();
    clear_caches(&mut reader);
    enable_file_cache(&mut reader);
    enable_info_cache(&mut reader);

    assert!(reader.file_cache_enabled());
    assert!(reader.info_cache_enabled());

    disable_file_cache(&mut reader);
    disable_info_cache(&mut reader);

    assert!(!reader.file_cache_enabled());
    assert!(!reader.info_cache_enabled());

    enable_file_cache(&mut reader);
    enable_info_cache(&mut reader);
}

#[test]
fn test_read_info_from_bytes() {
    let mut reader = Reader::new();
    let yaml_content = b"name: test\nvalue: 123";
    let result = read_info_from_bytes(&mut reader, "test.yaml", yaml_content);
    assert!(result.is_ok());

    let yaml = result.unwrap();
    assert!(matches!(yaml, Node::Mapping(_)));
}

#[test]
fn new_reader_has_both_caches_on_and_is_quiet() {
    let reader = Reader::new();
    assert!(reader.file_cache_enabled());
    assert!(reader.info_cache_enabled());
    assert!(!reader.verbose());
    assert!(reader.file_cache_entry("x").is_none());
    assert!(reader.info_cache_entry("x").is_none());
}

#[test]
fn set_verbose_reader_sets_the_flag_only() {
    let mut reader = Reader::new();
    set_verbose_reader(&mut reader, true);
    assert!(reader.verbose());
    assert!(reader.file_cache_enabled());
    set_verbose_reader(&mut reader, false);
    assert!(!reader.verbose());
}

#[test]
fn a_second_read_is_answered_from_the_cache() {
    let mut reader = Reader::new();
    let first = read_info_from_bytes(&mut reader, "doc.yaml", b"a: 1").unwrap();
    let second = read_info_from_bytes(&mut reader, "doc.yaml", b"b: [this, is, not, looked, at]").unwrap();
    assert!(first.same(&second));
    let third = read_info_from_bytes(&mut reader, "doc.yaml", b"{ this is not even a document").unwrap();
    assert!(first.same(&third));
    let not_text = read_info_from_bytes(&mut reader, "doc.yaml", &[0xff, 0xfe]).unwrap();
    assert!(first.same(&not_text));
}

#[test]
fn the_empty_locator_is_never_cached() {
    let mut reader = Reader::new();
    let first = read_info_from_bytes(&mut reader, "", b"a: 1").unwrap();
    let second = read_info_from_bytes(&mut reader, "", b"a: 2").unwrap();
    assert!(!first.same(&second));
    assert!(reader.info_cache_entry("").is_none());
}

#[test]
fn a_disabled_cache_neither_answers_nor_keeps() {
    let mut reader = Reader::new();
    disable_info_cache(&mut reader);
    let first = read_info_from_bytes(&mut reader, "doc.yaml", b"a: 1").unwrap();
    assert!(reader.info_cache_entry("doc.yaml").is_none());
    let second = read_info_from_bytes(&mut reader, "doc.yaml", b"a: 2").unwrap();
    assert!(!first.same(&second));
    enable_info_cache(&mut reader);
    let third = read_info_from_bytes(&mut reader, "doc.yaml", b"a: 3").unwrap();
    disable_info_cache(&mut reader);
    let fourth = read_info_from_bytes(&mut reader, "doc.yaml", b"a: 4").unwrap();
    assert!(!third.same(&fourth));
    enable_info_cache(&mut reader);
    let fifth = read_info_from_bytes(&mut reader, "doc.yaml", b"a: 5").unwrap();
    assert!(third.same(&fifth));
}

#[test]
fn a_failed_parse_is_not_cached() {
    let mut reader = Reader::new();
    let failed = read_info_from_bytes(&mut reader, "doc.yaml", b"a: [1, 2");
    assert!(matches!(failed, Err(CompilerError::Yaml(_))));
    assert!(reader.info_cache_entry("doc.yaml").is_none());
    let ok = read_info_from_bytes(&mut reader, "doc.yaml", b"a: [1, 2]");
    assert!(ok.is_ok());
}

#[test]
fn bytes_that_are_no_text_are_a_parse_error() {
    let error = parse_bytes(&[b'a', 0xff, b'b']).unwrap_err();
    match error {
        CompilerError::Yaml(message) => assert!(message.starts_with("Invalid UTF-8: "), "{}", message),
        other => panic!("unexpected error {:?}", other),
    }
}

#[test]
fn parse_bytes_reads_every_kind_of_node() {
    let doc = parse_bytes(b"s: text\ni: -4\nr: 1.5\nb: true\nn: ~\nl: [1, 2]\nm: {k: v}\n").unwrap();
    assert!(matches!(map_value_for_key(&doc, "s"), Some(Node::String(_))));
    assert!(matches!(map_value_for_key(&doc, "i"), Some(Node::Integer(-4))));
    assert!(matches!(map_value_for_key(&doc, "r"), Some(Node::Real(_))));
    assert!(matches!(map_value_for_key(&doc, "b"), Some(Node::Boolean(true))));
    assert!(matches!(map_value_for_key(&doc, "n"), Some(Node::Null)));
    assert!(matches!(map_value_for_key(&doc, "l"), Some(Node::Sequence(_))));
    assert!(matches!(map_value_for_key(&doc, "m"), Some(Node::Mapping(_))));
    let json = parse_bytes(b"{\"name\": \"x\", \"list\": [1, 2.5, null, false]}").unwrap();
    assert_eq!(string_for_scalar_node(map_value_for_key(&json, "name").unwrap()), Some("x".to_string()));
}

#[test]
fn the_first_document_is_the_one_that_counts() {
    assert!(matches!(parse_bytes(b"").unwrap(), Node::Null));
    let doc = parse_bytes(b"a: 1\n---\nb: 2\n").unwrap();
    assert!(map_value_for_key(&doc, "a").is_some());
    assert!(map_value_for_key(&doc, "b").is_none());
    assert!(matches!(first_node(vec![]), Node::Null));
    assert!(matches!(first_node(vec![Node::Integer(1), Node::Integer(2)]), Node::Integer(1)));
}

#[test]
fn removing_and_clearing_the_info_cache() {
    let mut reader = Reader::new();
    read_info_from_bytes(&mut reader, "a.yaml", b"a: 1").unwrap();
    read_info_from_bytes(&mut reader, "b.yaml", b"b: 1").unwrap();
    remove_from_info_cache(&mut reader, "a.yaml");
    assert!(reader.info_cache_entry("a.yaml").is_none());
    assert!(reader.info_cache_entry("b.yaml").is_some());
    disable_info_cache(&mut reader);
    remove_from_info_cache(&mut reader, "b.yaml");
    assert!(reader.info_cache_entry("b.yaml").is_some());
    clear_info_cache(&mut reader);
    assert!(reader.info_cache_entry("b.yaml").is_none());
    assert!(!reader.info_cache_enabled());
}

#[test]
fn fetching_goes_through_the_file_cache() {
    let mut reader = Reader::new();
    let url = "http://example.com/a.yaml";
    assert!(matches!(fetch_file(&reader, url), ReadStep::Fetch(ref u) if u == url));
    let kept = finish_fetch(&mut reader, url, Ok(vec![1, 2, 3])).unwrap();
    assert_eq!(kept, vec![1, 2, 3]);
    assert!(matches!(fetch_file(&reader, url), ReadStep::Done(ref b) if b == &vec![1, 2, 3]));
    assert!(matches!(read_bytes_for_file(&reader, url), ReadStep::Done(ref b) if b == &vec![1, 2, 3]));
    finish_fetch(&mut reader, url, Ok(vec![9])).unwrap();
    assert_eq!(reader.file_cache_entry(url), Some(&vec![9]));
    disable_file_cache(&mut reader);
    assert!(matches!(fetch_file(&reader, url), ReadStep::Fetch(_)));
    remove_from_file_cache(&mut reader, url);
    assert!(reader.file_cache_entry(url).is_some());
    enable_file_cache(&mut reader);
    remove_from_file_cache(&mut reader, url);
    assert!(reader.file_cache_entry(url).is_none());
}

#[test]
fn a_failed_fetch_is_handed_on_and_not_kept() {
    let mut reader = Reader::new();
    let url = "http://example.com/missing.yaml";
    let failed = finish_fetch(&mut reader, url, Err(CompilerError::Http("Error downloading: 404".to_string())));
    assert_eq!(failed.unwrap_err().to_string(), "HTTP error: Error downloading: 404");
    assert!(reader.file_cache_entry(url).is_none());
    disable_file_cache(&mut reader);
    finish_fetch(&mut reader, url, Ok(vec![1])).unwrap();
    assert!(reader.file_cache_entry(url).is_none());
}

#[test]
fn clearing_empties_the_caches() {
    let mut reader = Reader::new();
    finish_fetch(&mut reader, "http://h/x", Ok(vec![1])).unwrap();
    read_info_from_bytes(&mut reader, "x", b"a: 1").unwrap();
    clear_file_cache(&mut reader);
    assert!(reader.file_cache_entry("http://h/x").is_none());
    assert!(reader.info_cache_entry("x").is_some());
    finish_fetch(&mut reader, "http://h/x", Ok(vec![1])).unwrap();
    clear_caches(&mut reader);
    assert!(reader.file_cache_entry("http://h/x").is_none());
    assert!(reader.info_cache_entry("x").is_none());
}

#[test]
fn locators_are_remote_only_with_http_or_https() {
    assert_eq!(locate("http://example.com/a.yaml"), Source::Remote);
    assert_eq!(locate("HTTPS://example.com/a.yaml"), Source::Remote);
    assert_eq!(locate("ftp://example.com/a.yaml"), Source::Local);
    assert_eq!(locate("file:///tmp/a.yaml"), Source::Local);
    assert_eq!(locate("dir/a.yaml"), Source::Local);
    assert_eq!(locate("/abs/a.yaml"), Source::Local);
    assert_eq!(locate(""), Source::Local);
    let reader = Reader::new();
    assert!(matches!(read_bytes_for_file(&reader, "dir/a.yaml"), ReadStep::ReadFile(ref p) if p == "dir/a.yaml"));
    assert!(matches!(read_bytes_for_file(&reader, "https://h/a"), ReadStep::Fetch(ref u) if u == "https://h/a"));
}

#[test]
fn directory_is_what_stands_before_the_last_slash() {
    assert_eq!(directory_of("dir/a.yaml"), Some("dir".to_string()));
    assert_eq!(directory_of("a/b/c.yaml"), Some("a/b".to_string()));
    assert_eq!(directory_of("/a.yaml"), Some(String::new()));
    assert_eq!(directory_of("a.yaml"), None);
    assert_eq!(directory_of(""), None);
}

#[test]
fn references_are_resolved_beside_the_referring_document() {
    assert_eq!(
        resolve_reference("dir/a.yaml", "b.yaml#/defs/Widget"),
        ("dir/b.yaml".to_string(), "/defs/Widget".to_string())
    );
    assert_eq!(resolve_reference("dir/a.yaml", "#/defs/Widget"), ("dir/a.yaml".to_string(), "/defs/Widget".to_string()));
    assert_eq!(resolve_reference("a.yaml", "b.yaml#/x"), ("b.yaml".to_string(), "/x".to_string()));
    assert_eq!(resolve_reference("a/b/c.yaml", "../d.yaml"), ("a/b/../d.yaml".to_string(), String::new()));
    assert_eq!(
        resolve_reference("dir/a.yaml", "http://example.com/x.yaml#/a#b"),
        ("http://example.com/x.yaml".to_string(), "/a#b".to_string())
    );
    assert_eq!(
        resolve_reference("http://example.com/dir/a.yaml", "b.yaml#/x"),
        ("http://example.com/dir/b.yaml".to_string(), "/x".to_string())
    );
}

#[test]
fn a_reference_is_resolved_in_the_other_document() {
    let mut reader = Reader::new();
    let reference = "b.yaml#/defs/Widget";
    let locator = match read_info_for_ref(&reader, "dir/a.yaml", reference) {
        RefStep::Load(locator) => locator,
        other => panic!("unexpected step {:?}", other),
    };
    assert_eq!(locator, "dir/b.yaml");
    let bytes = b"defs:\n  Gadget:\n    size: 1\n  Widget:\n    size: 3\n";
    let node = complete_ref(&mut reader, reference, &locator, bytes).unwrap();
    assert_eq!(int_for_scalar_node(map_value_for_key(&node, "size").unwrap()), Some(3));
    match read_info_for_ref(&reader, "dir/a.yaml", reference) {
        RefStep::Done(Ok(again)) => assert!(again.same(&node)),
        other => panic!("unexpected step {:?}", other),
    }
    assert!(reader.info_cache_entry("dir/b.yaml").is_some());
}

#[test]
fn a_reference_without_file_part_points_into_the_base_document() {
    let reader = Reader::new();
    match read_info_for_ref(&reader, "dir/a.yaml", "#/defs/Widget") {
        RefStep::Load(locator) => assert_eq!(locator, "dir/a.yaml"),
        other => panic!("unexpected step {:?}", other),
    }
}

#[test]
fn a_reference_that_leads_nowhere_fails_and_is_remembered() {
    let mut reader = Reader::new();
    let reference = "b.yaml#/defs/Missing";
    let locator = match read_info_for_ref(&reader, "dir/a.yaml", reference) {
        RefStep::Load(locator) => locator,
        other => panic!("unexpected step {:?}", other),
    };
    let error = complete_ref(&mut reader, reference, &locator, b"defs:\n  Widget: {}\n").unwrap_err();
    assert_eq!(error.to_string(), "could not resolve b.yaml#/defs/Missing");
    match read_info_for_ref(&reader, "dir/a.yaml", reference) {
        RefStep::Done(Err(again)) => assert_eq!(again.to_string(), "could not resolve b.yaml#/defs/Missing"),
        other => panic!("unexpected step {:?}", other),
    }
    assert!(matches!(reader.info_cache_entry(reference), Some(None)));
}

#[test]
fn a_path_through_a_scalar_leads_nowhere() {
    let mut reader = Reader::new();
    let error = complete_ref(&mut reader, "#/a/b", "doc.yaml", b"a: 5\n").unwrap_err();
    assert_eq!(error.to_string(), "could not resolve #/a/b");
    assert!(matches!(read_info_for_ref(&reader, "doc.yaml", "#/a/b"), RefStep::Done(Err(_))));
}

#[test]
fn a_reference_to_a_null_node_is_resolved() {
    let mut reader = Reader::new();
    let node = complete_ref(&mut reader, "#/a", "doc.yaml", b"a: ~\n").unwrap();
    assert!(matches!(node, Node::Null));
    assert!(matches!(read_info_for_ref(&reader, "doc.yaml", "#/a"), RefStep::Done(Ok(Node::Null))));
}

#[test]
fn without_the_cache_nothing_is_remembered() {
    let mut reader = Reader::new();
    disable_info_cache(&mut reader);
    assert!(complete_ref(&mut reader, "#/missing", "doc.yaml", b"a: 1\n").is_err());
    assert!(matches!(read_info_for_ref(&reader, "doc.yaml", "#/missing"), RefStep::Load(_)));
    assert!(complete_ref(&mut reader, "#/a", "doc.yaml", b"a: 1\n").is_ok());
    assert!(matches!(read_info_for_ref(&reader, "doc.yaml", "#/a"), RefStep::Load(_)));
}

#[test]
fn a_document_that_cannot_be_parsed_fails_the_reference() {
    let mut reader = Reader::new();
    let error = complete_ref(&mut reader, "b.yaml#/a", "b.yaml", b"a: [").unwrap_err();
    assert!(matches!(error, CompilerError::Yaml(_)));
    assert!(reader.info_cache_entry("b.yaml#/a").is_none());
    assert!(matches!(read_info_for_ref(&reader, "a.yaml", "b.yaml#/a"), RefStep::Load(_)));
}

#[test]
fn fragments_skip_empty_segments_and_the_first() {
    let doc = parse_bytes(b"a:\n  b:\n    c: deep\nx: top\n").unwrap();
    let value = |fragment: &str| resolve_fragment(&doc, fragment).and_then(|n| string_for_scalar_node(&n));
    assert_eq!(value("/a/b/c"), Some("deep".to_string()));
    assert_eq!(value("//a///b/c/"), Some("deep".to_string()));
    assert_eq!(value("ignored/x"), Some("top".to_string()));
    assert_eq!(value("x"), None);
    assert!(resolve_fragment(&doc, "x").unwrap().same(&doc));
    assert!(resolve_fragment(&doc, "").unwrap().same(&doc));
    assert!(resolve_fragment(&doc, "/").unwrap().same(&doc));
    assert!(resolve_fragment(&doc, "/a/missing").is_none());
    assert!(resolve_fragment(&doc, "/x/deeper").is_none());
}
