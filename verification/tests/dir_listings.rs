use noteworthy::fs_interface::MetadataType;
use noteworthy::intern_error::Error;
use noteworthy::ui::dir_block::{dir_fetch, dir_listing, LocalEntry};
use noteworthy::ui::file_item::FileItem;

fn dir(name: &str) -> LocalEntry {
    LocalEntry { name: String::from(name), is_dir: true, is_file: false }
}

fn file(name: &str) -> LocalEntry {
    LocalEntry { name: String::from(name), is_dir: false, is_file: true }
}

fn other(name: &str) -> LocalEntry {
    LocalEntry { name: String::from(name), is_dir: false, is_file: false }
}

fn shape(items: &Vec<FileItem>) -> Vec<(String, String, MetadataType)> {
    items.iter().map(|i| (i.name.clone(), i.path.clone(), i.file_type)).collect()
}

fn entry(name: &str, path: &str, kind: MetadataType) -> (String, String, MetadataType) {
    (String::from(name), String::from(path), kind)
}

#[test]
fn a_directory_lists_its_link_then_collections_then_documents() {
    let read = vec![file("notes.txt"), file(".secret"), dir("sub")];
    let listing = dir_listing("/home/user", &read, false);
    assert_eq!(
        shape(&listing),
        vec![
            entry("", "/home", MetadataType::ReturnType),
            entry("sub", "/home/user/sub", MetadataType::CollectionType),
            entry("notes.txt", "/home/user/notes.txt", MetadataType::DocumentType),
        ]
    );
    for item in &listing {
        assert_eq!(item.uuid, "");
        assert!(!item.highlighted);
    }
}

#[test]
fn the_root_has_no_link_to_a_parent() {
    let read = vec![file("notes.txt"), file(".secret"), dir("sub")];
    assert_eq!(
        shape(&dir_listing("/", &read, false)),
        vec![
            entry("sub", "/sub", MetadataType::CollectionType),
            entry("notes.txt", "/notes.txt", MetadataType::DocumentType),
        ]
    );
}

#[test]
fn hidden_entries_are_listed_when_asked_for() {
    let read = vec![file("notes.txt"), file(".secret"), dir(".git"), dir("sub")];
    assert_eq!(
        shape(&dir_listing("/home/", &read, true)),
        vec![
            entry("", "/", MetadataType::ReturnType),
            entry(".git", "/home/.git", MetadataType::CollectionType),
            entry("sub", "/home/sub", MetadataType::CollectionType),
            entry(".secret", "/home/.secret", MetadataType::DocumentType),
            entry("notes.txt", "/home/notes.txt", MetadataType::DocumentType),
        ]
    );
}

#[test]
fn entries_that_are_neither_directory_nor_file_are_dropped() {
    let read = vec![other("socket"), file("a"), other(".dev")];
    assert_eq!(
        shape(&dir_listing("/run", &read, true)),
        vec![entry("", "/", MetadataType::ReturnType), entry("a", "/run/a", MetadataType::DocumentType)]
    );
}

#[test]
fn hidden_entries_are_dropped_before_the_listing_is_ordered() {
    let read = vec![file("b"), file(".a"), file("A"), dir(".z"), dir("c")];
    assert_eq!(
        shape(&dir_listing("/d", &read, false)),
        vec![
            entry("", "/", MetadataType::ReturnType),
            entry("c", "/d/c", MetadataType::CollectionType),
            entry("A", "/d/A", MetadataType::DocumentType),
            entry("b", "/d/b", MetadataType::DocumentType),
        ]
    );
}

#[test]
fn an_empty_directory_lists_its_link_only() {
    assert_eq!(
        shape(&dir_listing("/home/user/", &Vec::new(), false)),
        vec![entry("", "/home", MetadataType::ReturnType)]
    );
    assert_eq!(shape(&dir_listing("/", &Vec::new(), false)), vec![]);
}

#[test]
fn listing_twice_gives_the_same_listing() {
    let read = vec![file("b"), dir("x"), file("a"), dir("X")];
    let once = dir_listing("/p", &read, false);
    let twice = dir_listing("/p", &read, false);
    assert_eq!(shape(&once), shape(&twice));
}

#[test]
fn dir_fetch_hands_a_failure_on() {
    let failed = dir_fetch("/p", Err(Error::CrosstermError(String::from("denied"))), false);
    assert_eq!(failed.err(), Some(Error::CrosstermError(String::from("denied"))));
    let listed = dir_fetch("/p", Ok(vec![file("a")]), false).unwrap();
    assert_eq!(
        shape(&listed),
        vec![entry("", "/", MetadataType::ReturnType), entry("a", "/p/a", MetadataType::DocumentType)]
    );
}
