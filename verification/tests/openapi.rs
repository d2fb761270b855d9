use corekit::openapi::with_prefix;

#[test]
fn with_prefix_replaces_root_path_with_prefix() {
    assert_eq!(with_prefix("/todos", "/"), "/todos");
    assert_eq!(with_prefix("/todos", "/activity"), "/todos/activity");
}

#[test]
fn with_prefix_appends_nested_and_empty_paths() {
    assert_eq!(with_prefix("/api", "/todos/{id}"), "/api/todos/{id}");
    assert_eq!(with_prefix("/api", ""), "/api");
    assert_eq!(with_prefix("", "/"), "");
    assert_eq!(with_prefix("/api", "//"), "/api//");
}
