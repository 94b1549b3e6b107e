use configme::path::{join, parent};

#[test]
fn join_puts_one_separator_between() {
    assert_eq!(join("/home/u/demo", "cache"), "/home/u/demo/cache");
    assert_eq!(join("/home/u/demo", "db/app.sqlite"), "/home/u/demo/db/app.sqlite");
    assert_eq!(join("a", "b"), "a/b");
}

#[test]
fn join_adds_no_separator_behind_one() {
    assert_eq!(join("/home/u/demo/", "cache"), "/home/u/demo/cache");
    assert_eq!(join("/", "opt"), "/opt");
}

#[test]
fn join_onto_empty_base_is_the_name() {
    assert_eq!(join("", "cache"), "cache");
    assert_eq!(join("", ""), "");
}

#[test]
fn join_with_empty_name_ends_in_separator() {
    assert_eq!(join("/home/u/demo", ""), "/home/u/demo/");
    assert_eq!(join("/home/u/demo/", ""), "/home/u/demo/");
}

#[test]
fn join_absolute_name_replaces_base() {
    assert_eq!(join("/home/u/demo", "/etc/passwd"), "/etc/passwd");
    assert_eq!(join("", "/etc"), "/etc");
}

#[test]
fn join_handles_characters_of_several_bytes() {
    assert_eq!(join("/home/ü", "é.txt"), "/home/ü/é.txt");
}

#[test]
fn parent_drops_last_component() {
    assert_eq!(parent("/home/u/demo/x.txt"), Some(String::from("/home/u/demo")));
    assert_eq!(parent("/home/u/example/db/app.sqlite"), Some(String::from("/home/u/example/db")));
    assert_eq!(parent("a/b"), Some(String::from("a")));
}

#[test]
fn parent_ignores_trailing_and_repeated_separators() {
    assert_eq!(parent("/a/b/"), Some(String::from("/a")));
    assert_eq!(parent("/a/b///"), Some(String::from("/a")));
    assert_eq!(parent("a//b"), Some(String::from("a")));
}

#[test]
fn parent_of_single_relative_component_is_empty() {
    assert_eq!(parent("x.txt"), Some(String::new()));
    assert_eq!(parent("x/"), Some(String::new()));
}

#[test]
fn parent_directly_under_root_is_root() {
    assert_eq!(parent("/x"), Some(String::from("/")));
    assert_eq!(parent("//x"), Some(String::from("/")));
    assert_eq!(parent("/x/"), Some(String::from("/")));
}

#[test]
fn parent_of_root_and_of_empty_path_is_none() {
    assert_eq!(parent(""), None);
    assert_eq!(parent("/"), None);
    assert_eq!(parent("///"), None);
}

#[test]
fn parent_handles_characters_of_several_bytes() {
    assert_eq!(parent("/home/ü/é.txt"), Some(String::from("/home/ü")));
}

#[test]
fn parent_of_joined_component_is_the_base() {
    assert_eq!(parent(&join("/home/u/demo", "x.txt")), Some(String::from("/home/u/demo")));
}
