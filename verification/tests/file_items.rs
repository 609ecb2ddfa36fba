use noteworthy::fs_interface::MetadataType;
use noteworthy::ui::file_item::{key_precedes, sort_by_folded_names, sort_items, FileItem};

fn item(name: &str, kind: MetadataType) -> FileItem {
    FileItem::new().name(name).file_type(kind).path(&format!("/t/{}", name))
}

fn names(items: &Vec<FileItem>) -> Vec<String> {
    items.iter().map(|i| i.name.clone()).collect()
}

fn chars(s: &str) -> Vec<char> {
    s.chars().collect()
}

#[test]
fn new_item_is_unclassified_at_root() {
    let item = FileItem::new();
    assert_eq!(item.name, "");
    assert_eq!(item.path, "/");
    assert_eq!(item.file_type, MetadataType::DefaultType);
    assert_eq!(item.uuid, "");
    assert!(!item.highlighted);
}

#[test]
fn builders_set_one_field_each() {
    let item = FileItem::new()
        .name("notes.txt")
        .path("/home/notes.txt")
        .file_type(MetadataType::DocumentType)
        .uuid(String::from("4c1d"));
    assert_eq!(item.name, "notes.txt");
    assert_eq!(item.path, "/home/notes.txt");
    assert_eq!(item.file_type, MetadataType::DocumentType);
    assert_eq!(item.uuid, "4c1d");
    assert!(!item.highlighted);
}

#[test]
fn clone_keeps_every_field() {
    let mut item = item("a", MetadataType::CollectionType).uuid(String::from("u"));
    item.highlighted = true;
    let copy = item.clone();
    assert_eq!(copy.name, "a");
    assert_eq!(copy.path, "/t/a");
    assert_eq!(copy.file_type, MetadataType::CollectionType);
    assert_eq!(copy.uuid, "u");
    assert!(copy.highlighted);
}

#[test]
fn entries_are_the_same_when_path_and_identifier_agree() {
    let a = FileItem::new().name("a").path("/x").uuid(String::from("1"));
    let mut b = FileItem::new().name("other name").path("/x").uuid(String::from("1"));
    b.highlighted = true;
    b = b.file_type(MetadataType::DocumentType);
    assert!(a == b);
    assert!(a.same_entity(&b));
    let c = FileItem::new().name("a").path("/y").uuid(String::from("1"));
    assert!(a != c);
    assert!(!a.same_entity(&c));
    let d = FileItem::new().name("a").path("/x").uuid(String::from("2"));
    assert!(a != d);
    assert!(!a.same_entity(&d));
}

#[test]
fn folded_name_is_the_name_in_lowercase() {
    assert_eq!(item("ReadMe.TXT", MetadataType::DocumentType).folded_name(), chars("readme.txt"));
    assert_eq!(item("ÄÖü", MetadataType::DocumentType).folded_name(), chars("äöü"));
    assert_eq!(item("", MetadataType::DocumentType).folded_name(), chars(""));
}

#[test]
fn key_precedes_orders_by_kind_then_by_folded_name() {
    let dir = item("zeta", MetadataType::CollectionType);
    let doc = item("alpha", MetadataType::DocumentType);
    let link = FileItem::new().file_type(MetadataType::ReturnType);
    assert!(key_precedes(&dir, &chars("zeta"), &doc, &chars("alpha")));
    assert!(!key_precedes(&doc, &chars("alpha"), &dir, &chars("zeta")));
    assert!(key_precedes(&link, &chars(""), &dir, &chars("zeta")));
    assert!(!key_precedes(&dir, &chars("zeta"), &link, &chars("")));
    let other = item("beta", MetadataType::DocumentType);
    assert!(key_precedes(&doc, &chars("alpha"), &other, &chars("beta")));
    assert!(!key_precedes(&other, &chars("beta"), &doc, &chars("alpha")));
    assert!(key_precedes(&doc, &chars("same"), &other, &chars("same")));
    assert!(key_precedes(&other, &chars("same"), &doc, &chars("same")));
    assert!(key_precedes(&doc, &chars("ab"), &other, &chars("abc")));
    assert!(!key_precedes(&doc, &chars("abc"), &other, &chars("ab")));
}

#[test]
fn sort_items_orders_by_kind_first() {
    let items = vec![
        item("b.txt", MetadataType::DocumentType),
        item("zoo", MetadataType::CollectionType),
        FileItem::new().file_type(MetadataType::ReturnType).path("/"),
        item("a.txt", MetadataType::DocumentType),
        item("attic", MetadataType::CollectionType),
    ];
    let sorted = sort_items(&items);
    assert_eq!(names(&sorted), vec!["", "attic", "zoo", "a.txt", "b.txt"]);
    assert_eq!(sorted[0].file_type, MetadataType::ReturnType);
}

#[test]
fn sort_items_takes_no_account_of_case() {
    let items = vec![
        item("B", MetadataType::DocumentType),
        item("a", MetadataType::DocumentType),
        item("C", MetadataType::DocumentType),
        item("b2", MetadataType::DocumentType),
    ];
    assert_eq!(names(&sort_items(&items)), vec!["a", "B", "b2", "C"]);
}

#[test]
fn sort_items_keeps_the_order_of_entries_it_cannot_tell_apart() {
    let items = vec![
        item("Readme", MetadataType::DocumentType).uuid(String::from("1")),
        item("README", MetadataType::DocumentType).uuid(String::from("2")),
        item("a", MetadataType::DocumentType).uuid(String::from("3")),
        item("readme", MetadataType::DocumentType).uuid(String::from("4")),
    ];
    let sorted = sort_items(&items);
    assert_eq!(names(&sorted), vec!["a", "Readme", "README", "readme"]);
    let reversed: Vec<FileItem> = items.iter().rev().cloned().collect();
    assert_eq!(names(&sort_items(&reversed)), vec!["a", "readme", "README", "Readme"]);
}

#[test]
fn sort_items_keeps_every_entry() {
    let items = vec![
        item("x", MetadataType::DocumentType),
        item("x", MetadataType::DocumentType),
        item("x", MetadataType::CollectionType),
        item("y", MetadataType::ErrorType),
        item("w", MetadataType::DefaultType),
    ];
    let sorted = sort_items(&items);
    assert_eq!(sorted.len(), 5);
    assert_eq!(names(&sorted), vec!["x", "x", "x", "y", "w"]);
    assert_eq!(sorted[0].file_type, MetadataType::CollectionType);
    assert_eq!(sorted[3].file_type, MetadataType::ErrorType);
    assert_eq!(sorted[4].file_type, MetadataType::DefaultType);
    assert_eq!(sort_items(&Vec::new()).len(), 0);
}

#[test]
fn sorting_a_sorted_listing_changes_nothing() {
    let items = vec![
        item("b", MetadataType::DocumentType),
        item("A", MetadataType::DocumentType),
        item("c", MetadataType::CollectionType),
        item("a", MetadataType::DocumentType),
    ];
    let once = sort_items(&items);
    let twice = sort_items(&once);
    assert_eq!(names(&once), names(&twice));
    assert_eq!(names(&once), vec!["c", "A", "a", "b"]);
}

#[test]
fn sort_by_folded_names_goes_by_the_names_it_is_given() {
    let items = vec![
        item("one", MetadataType::DocumentType),
        item("two", MetadataType::DocumentType),
        item("three", MetadataType::CollectionType),
    ];
    let folded = vec![chars("z"), chars("a"), chars("zz")];
    assert_eq!(names(&sort_by_folded_names(&items, &folded)), vec!["three", "two", "one"]);
}
