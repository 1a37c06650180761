use gnostic::helpers::{
    bool_for_scalar_node, display, int_for_scalar_node, invalid_keys_in_map, is_mapping, is_scalar, is_sequence,
    iter_map, iter_sequence, map_has_key, map_value_for_key, marshal, missing_keys_in_map, new_mapping_node,
    new_null_node, new_scalar_node_for_bool, new_scalar_node_for_int, new_scalar_node_for_string,
    new_sequence_node, new_sequence_node_for_string_array, plural_properties, position_from_yaml,
    sequence_node_for_node, sorted_keys_for_map, string_array_contains_value, string_array_contains_values,
    string_array_for_sequence_node, string_for_scalar_node, unpack_map,
};
use gnostic::node::{Mapping, Node};
use gnostic::reader::parse_bytes;
use regex::Regex;

fn parse_yaml(s: &str) -> Node {
    parse_bytes(s.as_bytes()).unwrap()
}

#[test]
fn test_is_mapping() {
    let yaml = parse_yaml("key: value");
    assert!(is_mapping(&yaml));

    let yaml = parse_yaml("- item");
    assert!(!is_mapping(&yaml));
}

#[test]
fn test_is_sequence() {
    let yaml = parse_yaml("- item\n- item2");
    assert!(is_sequence(&yaml));

    let yaml = parse_yaml("key: value");
    assert!(!is_sequence(&yaml));
}

#[test]
fn test_map_value_for_key() {
    let yaml = parse_yaml("name: test\nvalue: 123");
    let name = map_value_for_key(&yaml, "name");
    assert!(name.is_some());
    assert_eq!(string_for_scalar_node(name.unwrap()), Some("test".to_string()));

    let missing = map_value_for_key(&yaml, "missing");
    assert!(missing.is_none());
}

#[test]
fn test_string_for_scalar_node() {
    let yaml = parse_yaml("test");
    assert_eq!(string_for_scalar_node(&yaml), Some("test".to_string()));

    let yaml = parse_yaml("123");
    assert_eq!(string_for_scalar_node(&yaml), Some("123".to_string()));
}

#[test]
fn test_bool_for_scalar_node() {
    let yaml = parse_yaml("true");
    assert_eq!(bool_for_scalar_node(&yaml), Some(true));

    let yaml = parse_yaml("false");
    assert_eq!(bool_for_scalar_node(&yaml), Some(false));
}

#[test]
fn test_int_for_scalar_node() {
    let yaml = parse_yaml("42");
    assert_eq!(int_for_scalar_node(&yaml), Some(42));
}

#[test]
fn test_string_array_for_sequence_node() {
    let yaml = parse_yaml("- a\n- b\n- c");
    let arr = string_array_for_sequence_node(&yaml);
    assert_eq!(arr, vec!["a", "b", "c"]);
}

#[test]
fn test_sorted_keys_for_map() {
    let yaml = parse_yaml("z: 1\na: 2\nm: 3");
    let keys = sorted_keys_for_map(&yaml);
    assert_eq!(keys, vec!["a", "m", "z"]);
}

#[test]
fn test_missing_keys_in_map() {
    let yaml = parse_yaml("a: 1\nb: 2");
    let missing = missing_keys_in_map(&yaml, &["a", "b", "c"]);
    assert_eq!(missing, vec!["c"]);
}

#[test]
fn test_invalid_keys_in_map() {
    let yaml = parse_yaml("valid: 1\nx-ext: 2\ninvalid: 3");
    let pattern = Regex::new(r"^x-").unwrap();
    let invalid = invalid_keys_in_map(&yaml, &["valid"], &[&pattern]);
    assert_eq!(invalid, vec!["invalid"]);
}

#[test]
fn kinds_of_scalars() {
    assert!(is_scalar(&Node::String("s".to_string())));
    assert!(is_scalar(&Node::Integer(1)));
    assert!(is_scalar(&Node::Real("1.5".to_string())));
    assert!(is_scalar(&Node::Boolean(false)));
    assert!(is_scalar(&Node::Null));
    assert!(!is_scalar(&Node::Sequence(vec![])));
    assert!(!is_scalar(&new_mapping_node()));
    assert!(!is_scalar(&Node::Alias(1)));
    assert!(!is_scalar(&Node::BadValue));
}

#[test]
fn string_for_scalar_node_covers_every_scalar() {
    assert_eq!(string_for_scalar_node(&Node::Integer(-17)), Some("-17".to_string()));
    assert_eq!(string_for_scalar_node(&parse_yaml("3.14")), Some("3.14".to_string()));
    assert_eq!(string_for_scalar_node(&Node::Boolean(true)), Some("true".to_string()));
    assert_eq!(string_for_scalar_node(&Node::Boolean(false)), Some("false".to_string()));
    assert_eq!(string_for_scalar_node(&Node::Null), Some(String::new()));
    assert_eq!(string_for_scalar_node(&parse_yaml("- a")), None);
    assert_eq!(string_for_scalar_node(&parse_yaml("a: b")), None);
    assert_eq!(string_for_scalar_node(&Node::BadValue), None);
}

#[test]
fn scalars_of_other_kinds_give_no_bool_or_int() {
    assert_eq!(bool_for_scalar_node(&Node::String("true".to_string())), None);
    assert_eq!(bool_for_scalar_node(&Node::Integer(1)), None);
    assert_eq!(int_for_scalar_node(&Node::String("42".to_string())), None);
    assert_eq!(int_for_scalar_node(&Node::Boolean(true)), None);
    assert_eq!(int_for_scalar_node(&Node::Integer(i64::MIN)), Some(i64::MIN));
}

#[test]
fn string_array_skips_what_is_no_scalar() {
    let yaml = parse_yaml("- a\n- [x, y]\n- 7\n- k: v\n- true\n- ~\n");
    assert_eq!(string_array_for_sequence_node(&yaml), vec!["a", "7", "true", ""]);
    assert!(string_array_for_sequence_node(&parse_yaml("a: b")).is_empty());
}

#[test]
fn sorted_keys_are_in_code_point_order_and_skip_other_keys() {
    let yaml = parse_yaml("b: 1\nB: 2\n10: 3\nab: 4\na: 5\n\"\": 6\n");
    assert_eq!(sorted_keys_for_map(&yaml), vec!["", "B", "a", "ab", "b"]);
    assert!(sorted_keys_for_map(&parse_yaml("- a")).is_empty());
}

#[test]
fn map_has_key_only_for_text_keys_of_mappings() {
    let yaml = parse_yaml("name: x\n7: y\n");
    assert!(map_has_key(&yaml, "name"));
    assert!(!map_has_key(&yaml, "7"));
    assert!(!map_has_key(&yaml, "other"));
    assert!(!map_has_key(&parse_yaml("- name"), "name"));
}

#[test]
fn missing_keys_keep_the_order_of_the_request() {
    let yaml = parse_yaml("b: 1");
    assert_eq!(missing_keys_in_map(&yaml, &["z", "b", "a", "z"]), vec!["z", "a", "z"]);
    assert_eq!(missing_keys_in_map(&parse_yaml("- b"), &["b"]), vec!["b"]);
    assert!(missing_keys_in_map(&yaml, &[]).is_empty());
}

#[test]
fn invalid_keys_keep_the_order_of_the_mapping() {
    let yaml = parse_yaml("zeta: 1\nx-one: 2\nalpha: 3\nok: 4\ny-two: 5\n3: 6\n");
    let x = Regex::new(r"^x-").unwrap();
    let y = Regex::new(r"two$").unwrap();
    assert_eq!(invalid_keys_in_map(&yaml, &["ok"], &[&x, &y]), vec!["zeta", "alpha"]);
    assert_eq!(invalid_keys_in_map(&yaml, &[], &[]), vec!["zeta", "x-one", "alpha", "ok", "y-two"]);
    assert!(invalid_keys_in_map(&parse_yaml("- a"), &[], &[]).is_empty());
}

#[test]
fn unpack_and_sequence_give_the_contents() {
    let map = parse_yaml("a: 1\nb: 2");
    assert_eq!(unpack_map(&map).unwrap().len(), 2);
    assert!(unpack_map(&parse_yaml("- a")).is_none());
    let seq = parse_yaml("- a\n- b\n- c");
    assert_eq!(sequence_node_for_node(&seq).unwrap().len(), 3);
    assert!(sequence_node_for_node(&map).is_none());
}

#[test]
fn constructors_make_the_nodes() {
    assert!(matches!(new_null_node(), Node::Null));
    assert!(matches!(new_scalar_node_for_bool(true), Node::Boolean(true)));
    assert!(matches!(new_scalar_node_for_int(-3), Node::Integer(-3)));
    assert!(new_scalar_node_for_string("s").same(&Node::String("s".to_string())));
    assert!(matches!(new_sequence_node(), Node::Sequence(ref items) if items.is_empty()));
    assert_eq!(unpack_map(&new_mapping_node()).unwrap().len(), 0);
    let strings = vec!["a".to_string(), "b".to_string()];
    let node = new_sequence_node_for_string_array(&strings);
    assert!(node.same(&parse_yaml("- a\n- b")));
}

#[test]
fn plural_properties_agrees_with_the_count() {
    assert_eq!(plural_properties(0), "properties");
    assert_eq!(plural_properties(1), "property");
    assert_eq!(plural_properties(2), "properties");
}

#[test]
fn string_arrays_contain_values() {
    let array = vec!["a".to_string(), "b".to_string()];
    assert!(string_array_contains_value(&array, "a"));
    assert!(!string_array_contains_value(&array, "c"));
    assert!(!string_array_contains_value(&[], "a"));
    assert!(string_array_contains_values(&array, &["b", "a", "b"]));
    assert!(!string_array_contains_values(&array, &["a", "c"]));
    assert!(string_array_contains_values(&array, &[]));
}

#[test]
fn display_describes_each_kind() {
    assert_eq!(display(&Node::String("x".to_string())), "x (string)");
    assert_eq!(display(&Node::Integer(-5)), "-5 (integer)");
    assert_eq!(display(&Node::Real("2.5".to_string())), "2.5 (float)");
    assert_eq!(display(&Node::Boolean(true)), "true (boolean)");
    assert_eq!(display(&Node::Null), "null");
    assert_eq!(display(&parse_yaml("- a")), "[array]");
    assert_eq!(display(&parse_yaml("a: b")), "{object}");
    assert_eq!(display(&Node::Alias(3)), "Alias(3)");
    assert_eq!(display(&Node::BadValue), "BadValue");
}

#[test]
fn marshal_writes_the_document() {
    assert_eq!(marshal(&parse_yaml("a: b\nc:\n  - 1\n  - true\n")), b"---\na: b\nc:\n  - 1\n  - true".to_vec());
    assert_eq!(marshal(&Node::Null), b"---\n~".to_vec());
    let mut map = Mapping::new();
    map.insert(Node::String("k".to_string()), Node::String("needs: quotes".to_string()));
    assert_eq!(marshal(&Node::Mapping(map)), b"---\nk: \"needs: quotes\"".to_vec());
}

#[test]
fn iter_map_gives_the_text_entries_in_order() {
    let yaml = parse_yaml("b: 1\n2: x\na: 3\n");
    let entries = iter_map(&yaml);
    let keys: Vec<&str> = entries.iter().map(|(k, _)| k.as_str()).collect();
    assert_eq!(keys, vec!["b", "a"]);
    assert_eq!(int_for_scalar_node(entries[0].1), Some(1));
    assert_eq!(int_for_scalar_node(entries[1].1), Some(3));
    assert!(iter_map(&parse_yaml("- a")).is_empty());
}

#[test]
fn iter_sequence_gives_the_items_with_their_indices() {
    let yaml = parse_yaml("- x\n- y");
    let items = iter_sequence(&yaml);
    assert_eq!(items.len(), 2);
    assert_eq!(items[0].0, 0);
    assert_eq!(items[1].0, 1);
    assert_eq!(string_for_scalar_node(items[1].1), Some("y".to_string()));
    assert!(iter_sequence(&parse_yaml("a: b")).is_empty());
}

#[test]
fn position_from_yaml_knows_no_position() {
    assert_eq!(position_from_yaml(&parse_yaml("a: b")), (None, None));
}

#[test]
fn mapping_insert_moves_an_old_key_to_the_end() {
    let mut map = Mapping::new();
    assert!(map.is_empty());
    assert!(map.insert(Node::String("a".to_string()), Node::Integer(1)).is_none());
    assert!(map.insert(Node::String("b".to_string()), Node::Integer(2)).is_none());
    let old = map.insert(Node::String("a".to_string()), Node::Integer(3)).unwrap();
    assert!(old.same(&Node::Integer(1)));
    assert_eq!(map.len(), 2);
    assert!(map.key_at(0).same(&Node::String("b".to_string())));
    assert!(map.key_at(1).same(&Node::String("a".to_string())));
    assert!(map.value_at(1).same(&Node::Integer(3)));
    assert!(map.get(&Node::String("a".to_string())).unwrap().same(&Node::Integer(3)));
    assert!(map.get(&Node::Integer(1)).is_none());
    assert!(map.contains_key(&Node::String("b".to_string())));
    assert!(Node::Mapping(map.clone()).same(&Node::Mapping(map)));
}

#[test]
fn same_tells_trees_apart() {
    let a = parse_yaml("k: [1, {x: y}, ~]");
    let b = parse_yaml("k:\n  - 1\n  - x: y\n  - null\n");
    assert!(a.same(&b));
    assert!(a.clone().same(&a));
    assert!(!a.same(&parse_yaml("k: [1, {x: z}, ~]")));
    assert!(!a.same(&parse_yaml("k: [1, {x: y}]")));
    assert!(!parse_yaml("a: 1\nb: 2").same(&parse_yaml("b: 2\na: 1")));
    assert!(!Node::Integer(1).same(&Node::String("1".to_string())));
    assert!(!Node::Real("1.0".to_string()).same(&Node::Real("1.00".to_string())));
}
