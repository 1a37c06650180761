use gnostic::context::Context;
use gnostic::error::{CompilerError, ErrorGroup};

#[test]
fn test_error_with_location() {
    let ctx = Context::new("test.field", Some(10), Some(5), None);
    let err = CompilerError::new(&ctx, "invalid value");
    assert_eq!(err.to_string(), "[10,5] test.field invalid value");
}

#[test]
fn test_error_without_location() {
    let ctx = Context::new("test.field", None, None, None);
    let err = CompilerError::new(&ctx, "invalid value");
    assert_eq!(err.to_string(), "test.field invalid value");
}

#[test]
fn test_error_group() {
    let ctx = Context::root("root");
    let mut group = ErrorGroup::default();
    group.push(CompilerError::new(&ctx, "error 1"));
    group.push(CompilerError::new(&ctx, "error 2"));
    assert_eq!(group.len(), 2);
    assert!(!group.is_empty());
}

#[test]
fn test_error_group_from_errors() {
    let empty: Vec<CompilerError> = vec![];
    assert!(ErrorGroup::from_errors(empty).is_none());

    let errors = vec![CompilerError::Simple("test".to_string())];
    assert!(ErrorGroup::from_errors(errors).is_some());
}

#[test]
fn new_gives_located_only_with_line_and_column() {
    let located = CompilerError::new(&Context::new("p", Some(1), Some(2), None), "m");
    assert!(matches!(located, CompilerError::Located { line: 1, column: 2, .. }));
    let no_column = CompilerError::new(&Context::new("p", Some(1), None, None), "m");
    assert!(matches!(no_column, CompilerError::Unlocated { .. }));
    let no_line = CompilerError::new(&Context::new("p", None, Some(2), None), "m");
    assert!(matches!(no_line, CompilerError::Unlocated { .. }));
}

#[test]
fn new_opt_without_context_is_simple() {
    let error = CompilerError::new_opt(None, "no document yet");
    assert!(matches!(error, CompilerError::Simple(_)));
    assert_eq!(error.to_string(), "no document yet");
    let ctx = Context::root("$");
    let with = CompilerError::new_opt(Some(&ctx), "bad");
    assert_eq!(with.to_string(), "$ bad");
}

#[test]
fn each_kind_of_error_is_rendered() {
    assert_eq!(CompilerError::Simple("plain".to_string()).to_string(), "plain");
    assert_eq!(CompilerError::Io("gone".to_string()).to_string(), "IO error: gone");
    assert_eq!(CompilerError::Yaml("bad".to_string()).to_string(), "YAML error: bad");
    assert_eq!(CompilerError::Http("404".to_string()).to_string(), "HTTP error: 404");
    let located = CompilerError::Located {
        line: 120,
        column: 0,
        path: "$.paths".to_string(),
        message: "expected mapping".to_string(),
    };
    assert_eq!(located.to_string(), "[120,0] $.paths expected mapping");
    let unlocated = CompilerError::Unlocated { path: "$".to_string(), message: "x".to_string() };
    assert_eq!(unlocated.to_string(), "$ x");
}

#[test]
fn from_errors_keeps_length_and_order() {
    let errors = vec![
        CompilerError::Simple("first".to_string()),
        CompilerError::Io("second".to_string()),
        CompilerError::Simple("first".to_string()),
    ];
    let group = ErrorGroup::from_errors(errors).unwrap();
    assert_eq!(group.len(), 3);
    let lines: Vec<String> = group.errors.iter().map(|e| e.to_string()).collect();
    assert_eq!(lines, vec!["first", "IO error: second", "first"]);
}

#[test]
fn extend_appends_in_order() {
    let mut group = ErrorGroup::new(vec![CompilerError::Simple("a".to_string())]);
    let other = ErrorGroup::new(vec![CompilerError::Simple("b".to_string()), CompilerError::Simple("c".to_string())]);
    group.extend(other);
    assert_eq!(group.len(), 3);
    assert_eq!(group.to_string(), "a\nb\nc");
}

#[test]
fn into_result_is_ok_only_when_empty() {
    assert!(ErrorGroup::default().into_result().is_ok());
    let group = ErrorGroup::new(vec![CompilerError::Simple("a".to_string())]);
    let failed = group.into_result().unwrap_err();
    assert_eq!(failed.len(), 1);
    assert_eq!(failed.errors[0].to_string(), "a");
}

#[test]
fn group_is_rendered_one_error_per_line() {
    assert_eq!(ErrorGroup::default().to_string(), "");
    let single = ErrorGroup::new(vec![CompilerError::Yaml("x".to_string())]);
    assert_eq!(single.to_string(), "YAML error: x");
    let ctx = Context::new("$.info", Some(2), Some(3), None);
    let mut group = ErrorGroup::default();
    group.push(CompilerError::new(&ctx, "first"));
    group.push(CompilerError::Simple("second".to_string()));
    assert_eq!(group.to_string(), "[2,3] $.info first\nsecond");
}
