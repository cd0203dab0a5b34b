//! The path-text model: joining, file-name extraction, extension stripping.

use windres::paths::{file_name_of, join_path, resource_stem, stem_of};

#[test]
fn join_inserts_a_backslash() {
    assert_eq!(join_path("C:\\dir", "file"), "C:\\dir\\file");
}

#[test]
fn join_keeps_an_existing_trailing_separator() {
    assert_eq!(join_path("C:\\dir\\", "file"), "C:\\dir\\file");
    assert_eq!(join_path("C:/dir/", "file"), "C:/dir/file");
}

#[test]
fn file_name_is_the_text_after_the_last_separator() {
    assert_eq!(file_name_of("a\\b\\c.rc").unwrap(), "c.rc");
    assert_eq!(file_name_of("a/b/c.rc").unwrap(), "c.rc");
    assert_eq!(file_name_of("plain.rc").unwrap(), "plain.rc");
}

#[test]
fn relative_components_are_not_file_names() {
    assert_eq!(file_name_of(""), None);
    assert_eq!(file_name_of("dir\\"), None);
    assert_eq!(file_name_of("."), None);
    assert_eq!(file_name_of(".."), None);
    assert_eq!(file_name_of("a\\.."), None);
}

#[test]
fn stem_strips_only_the_last_extension() {
    assert_eq!(stem_of("app.rc"), "app");
    assert_eq!(stem_of("a.b.c"), "a.b");
    assert_eq!(stem_of("app"), "app");
    assert_eq!(stem_of("app."), "app");
}

#[test]
fn a_leading_dot_alone_is_not_an_extension() {
    assert_eq!(stem_of(".rc"), ".rc");
    assert_eq!(stem_of(".a.rc"), ".a");
}

#[test]
fn resource_stem_combines_both_steps() {
    assert_eq!(resource_stem("res\\app.rc").unwrap(), "app");
    assert_eq!(resource_stem("res\\"), None);
}
