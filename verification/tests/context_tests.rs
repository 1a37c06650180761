use gnostic::context::Context;
use gnostic::extensions::ExtensionHandler;
use std::sync::Arc;

#[test]
fn test_context_description() {
    let root = Arc::new(Context::root("root"));
    assert_eq!(root.description(), "root");

    let child = Arc::new(root.child("child"));
    assert_eq!(child.description(), "root.child");

    let grandchild = child.child("grandchild");
    assert_eq!(grandchild.description(), "root.child.grandchild");
}

#[test]
fn test_location_description() {
    let ctx = Context::new("test", Some(10), Some(5), None);
    assert_eq!(ctx.location_description(), "[10,5] test");

    let ctx_no_pos = Context::new("test", None, None, None);
    assert_eq!(ctx_no_pos.location_description(), "test");
}

#[test]
fn description_has_one_dot_for_each_ancestor() {
    let mut context = Arc::new(Context::root("n0"));
    for depth in 1..6 {
        let name = format!("n{}", depth);
        context = Arc::new(context.child(&name));
        let description = context.description();
        assert_eq!(description.matches('.').count(), depth);
    }
    assert_eq!(context.description(), "n0.n1.n2.n3.n4.n5");
}

#[test]
fn description_keeps_dots_of_names() {
    let root = Arc::new(Context::root("a.b"));
    let child = root.child("c");
    assert_eq!(child.description(), "a.b.c");
}

#[test]
fn location_description_needs_line_and_column() {
    let only_line = Context::new("x", Some(3), None, None);
    assert_eq!(only_line.location_description(), "x");
    let only_column = Context::new("x", None, Some(4), None);
    assert_eq!(only_column.location_description(), "x");
    let both = Context::new("x", Some(0), Some(1234567), None);
    assert_eq!(both.location_description(), "[0,1234567] x");
}

#[test]
fn child_with_position_carries_the_position() {
    let root = Arc::new(Context::root("$"));
    let child = root.child_with_position("info", 7, 12);
    assert_eq!(child.line, Some(7));
    assert_eq!(child.column, Some(12));
    assert_eq!(child.location_description(), "[7,12] $.info");
    assert!(child.parent.is_some());
}

#[test]
fn root_has_no_parent_position_or_handlers() {
    let root = Context::root("$");
    assert!(root.parent.is_none());
    assert!(root.line.is_none());
    assert!(root.column.is_none());
    assert!(root.extension_handlers.is_none());
}

#[test]
fn new_inherits_the_handlers_of_the_parent() {
    let handlers = Arc::new(vec![ExtensionHandler::new("first"), ExtensionHandler::new("second")]);
    let root = Arc::new(Context::new_with_extensions("$", None, None, None, Some(handlers)));
    let child = Arc::new(root.child("paths"));
    let grandchild = Context::new("get", Some(1), Some(2), Some(child.clone()));
    let names: Vec<String> = grandchild.extension_handlers.unwrap().iter().map(|h| h.name.clone()).collect();
    assert_eq!(names, vec!["first", "second"]);
    let orphan = Context::new("x", None, None, None);
    assert!(orphan.extension_handlers.is_none());
}

#[test]
fn new_with_extensions_does_not_inherit() {
    let handlers = Arc::new(vec![ExtensionHandler::new("first")]);
    let root = Arc::new(Context::new_with_extensions("$", None, None, None, Some(handlers)));
    let child = Context::new_with_extensions("c", None, None, Some(root), None);
    assert!(child.extension_handlers.is_none());
    assert_eq!(child.description(), "$.c");
}
