use http_timing::backend::{item_url, list_url, CoreError, Entry, FileBackend, Item};
use std::path::{Path, PathBuf};

fn file(name: &str) -> Entry {
    Entry { name: name.to_string(), is_file: true }
}

fn dir(name: &str) -> Entry {
    Entry { name: name.to_string(), is_file: false }
}

#[test]
fn file_backend_lists_files() {
    let fb = FileBackend::new(Path::new("/tmp/items"));
    assert_eq!(fb.dir(), &PathBuf::from("/tmp/items"));
    let mut items = FileBackend::list(&[file("b.txt"), dir("sub"), file("a.txt")]);
    items.sort_by(|a, b| a.id.cmp(&b.id));
    assert_eq!(items.len(), 2);
    assert_eq!(items[0].id, "a.txt");
    assert_eq!(items[1].id, "b.txt");
}

#[test]
fn file_backend_get_ok_and_not_found() {
    assert!(matches!(FileBackend::get("x", true, true), Ok(_)));
    assert!(matches!(FileBackend::get("y", false, false), Err(CoreError::NotFound)));
}

#[test]
fn file_backend_keeps_its_directory() {
    assert_eq!(FileBackend::new("data").dir(), Path::new("data"));
    assert_eq!(FileBackend::new(String::from("a/b")).dir(), Path::new("a/b"));
    assert_eq!(FileBackend::new(PathBuf::from("/")).dir(), Path::new("/"));
}

#[test]
fn list_keeps_listing_order_and_skips_what_is_no_file() {
    assert_eq!(FileBackend::list(&[]), Vec::<Item>::new());
    assert_eq!(FileBackend::list(&[dir("a"), dir("b")]), Vec::<Item>::new());
    let items = FileBackend::list(&[file("z"), dir("d"), file("a"), file("z")]);
    let ids: Vec<&str> = items.iter().map(|i| i.id.as_str()).collect();
    assert_eq!(ids, vec!["z", "a", "z"]);
}

#[test]
fn get_needs_an_existing_regular_file() {
    assert_eq!(FileBackend::get("x", true, true), Ok(Item { id: "x".to_string() }));
    assert_eq!(FileBackend::get("x", true, false), Err(CoreError::NotFound));
    assert_eq!(FileBackend::get("x", false, true), Err(CoreError::NotFound));
    assert_eq!(FileBackend::get("", false, false), Err(CoreError::NotFound));
}

#[test]
fn urls_are_built_under_v1_items() {
    assert_eq!(list_url("http://127.0.0.1:8080"), "http://127.0.0.1:8080/v1/items");
    assert_eq!(item_url("http://127.0.0.1:8080", "abc"), "http://127.0.0.1:8080/v1/items/abc");
    assert_eq!(list_url(""), "/v1/items");
    assert_eq!(item_url("", ""), "/v1/items/");
}

#[test]
fn errors_read_as_kind_and_message() {
    assert_eq!(CoreError::Io("denied".to_string()).message(), "io: denied");
    assert_eq!(CoreError::Http("timeout".to_string()).message(), "http: timeout");
    assert_eq!(CoreError::Json("eof".to_string()).message(), "json: eof");
    assert_eq!(CoreError::NotFound.message(), "not found");
}
