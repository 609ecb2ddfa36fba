use std::sync::Arc;

use noteworthy::fs_interface::{
    children_of, parent_of, resolve_file_tree, DescriptorFile, MetadataType,
};
use noteworthy::intern_error::Error;
use noteworthy::store::IndexEntry;
use noteworthy::ui::block::FSListBlock;
use noteworthy::ui::db_block::{listing_of_rows, DBBlock};
use noteworthy::ui::file_item::FileItem;
use noteworthy::ui::CursorDirection;

fn descriptor(id: &str, parent: &str, kind: &str, name: &str) -> DescriptorFile {
    DescriptorFile {
        file_name: format!("{}.metadata", id),
        contents: Some(format!(
            "{{\n    \"lastModified\": \"1683213598895\",\n    \"parent\": \"{}\",\n    \"pinned\": false,\n    \"type\": \"{}\",\n    \"visibleName\": \"{}\"\n}}\n",
            parent, kind, name
        )),
    }
}

fn index_of(files: &Vec<DescriptorFile>) -> Arc<rusqlite::Connection> {
    let db = Arc::new(rusqlite::Connection::open_in_memory().unwrap());
    assert_eq!(resolve_file_tree(Arc::clone(&db), files), Ok(()));
    db
}

fn shape(items: &Vec<FileItem>) -> Vec<(String, String, MetadataType)> {
    items.iter().map(|i| (i.uuid.clone(), i.name.clone(), i.file_type)).collect()
}

fn entry(uuid: &str, name: &str, kind: MetadataType) -> (String, String, MetadataType) {
    (String::from(uuid), String::from(name), kind)
}

fn stored(uuid: &str, name: &str, kind: &str) -> Option<IndexEntry> {
    Some(IndexEntry {
        uuid: String::from(uuid),
        name: String::from(name),
        object_type: String::from(kind),
    })
}

fn notes_and_todo() -> Vec<DescriptorFile> {
    vec![
        descriptor("A", "", "CollectionType", "Notes"),
        descriptor("B", "A", "DocumentType", "todo"),
    ]
}

#[test]
fn the_index_answers_for_children_and_parents() {
    let db = index_of(&notes_and_todo());
    assert_eq!(children_of(&db, "root"), Ok(vec![stored("A", "Notes", "CollectionType")]));
    assert_eq!(children_of(&db, "A"), Ok(vec![stored("B", "todo", "DocumentType")]));
    assert_eq!(children_of(&db, "B"), Ok(Vec::new()));
    assert_eq!(parent_of(&db, "B"), Ok(Some(String::from("A"))));
    assert_eq!(parent_of(&db, "A"), Ok(Some(String::from("root"))));
    assert_eq!(parent_of(&db, "root"), Ok(None));
    assert_eq!(parent_of(&db, "nowhere"), Ok(None));
}

#[test]
fn the_index_gives_children_in_the_order_of_the_files() {
    let db = index_of(&vec![
        descriptor("3", "", "DocumentType", "c"),
        descriptor("1", "", "CollectionType", "a"),
        descriptor("2", "", "Unheard", "b"),
    ]);
    assert_eq!(
        children_of(&db, "root"),
        Ok(vec![
            stored("3", "c", "DocumentType"),
            stored("1", "a", "CollectionType"),
            stored("2", "b", "ErrorType"),
        ])
    );
}

#[test]
fn an_index_that_was_not_built_cannot_be_asked() {
    let db = Arc::new(rusqlite::Connection::open_in_memory().unwrap());
    match children_of(&db, "root") {
        Err(Error::SQLiteError(_)) => {}
        other => panic!("{:?}", other),
    }
    match parent_of(&db, "A") {
        Err(Error::SQLiteError(_)) => {}
        other => panic!("{:?}", other),
    }
}

#[test]
fn the_index_lists_children_by_parent() {
    let db = index_of(&notes_and_todo());
    let mut block = DBBlock::new("db", Some(db));
    assert_eq!(block.resolve(), Ok(()));
    assert_eq!(
        shape(block.get_resolved_content()),
        vec![entry("A", "Notes", MetadataType::CollectionType)]
    );
    assert_eq!(block.expand_selection(), Ok(()));
    assert_eq!(block.block().parent_reference(), "A");
    assert_eq!(
        shape(block.get_resolved_content()),
        vec![entry("root", "", MetadataType::ReturnType), entry("B", "todo", MetadataType::DocumentType)]
    );
    assert_eq!(block.get_cursor_idx(), 0);
    for item in block.get_resolved_content() {
        assert_eq!(item.path, ".");
        assert!(!item.highlighted);
    }
}

#[test]
fn the_link_of_a_collection_leads_back_to_where_it_is_listed() {
    let db = index_of(&vec![
        descriptor("A", "", "CollectionType", "Notes"),
        descriptor("C", "A", "CollectionType", "Drafts"),
        descriptor("D", "C", "DocumentType", "draft one"),
    ]);
    let mut block = DBBlock::new("db", Some(db));
    assert_eq!(block.resolve(), Ok(()));
    assert_eq!(block.expand_selection(), Ok(()));
    assert_eq!(block.block().parent_reference(), "A");
    block.cursor_move(CursorDirection::Down);
    assert_eq!(block.expand_selection(), Ok(()));
    assert_eq!(block.block().parent_reference(), "C");
    assert_eq!(
        shape(block.get_resolved_content()),
        vec![entry("A", "", MetadataType::ReturnType), entry("D", "draft one", MetadataType::DocumentType)]
    );
    assert_eq!(block.expand_selection(), Ok(()));
    assert_eq!(block.block().parent_reference(), "A");
    assert_eq!(
        shape(block.get_resolved_content()),
        vec![
            entry("root", "", MetadataType::ReturnType),
            entry("C", "Drafts", MetadataType::CollectionType),
        ]
    );
    assert_eq!(block.expand_selection(), Ok(()));
    assert_eq!(block.block().parent_reference(), "root");
    assert_eq!(
        shape(block.get_resolved_content()),
        vec![entry("A", "Notes", MetadataType::CollectionType)]
    );
}

#[test]
fn listings_of_the_index_are_in_listing_order() {
    let db = index_of(&vec![
        descriptor("1", "", "DocumentType", "beta"),
        descriptor("2", "", "CollectionType", "Zulu"),
        descriptor("3", "", "DocumentType", "Alpha"),
        descriptor("4", "", "CollectionType", "yankee"),
        descriptor("5", "", "Unheard", "broken"),
        descriptor("6", "elsewhere", "DocumentType", "not here"),
    ]);
    let mut block = DBBlock::new("db", Some(db));
    assert_eq!(block.resolve(), Ok(()));
    assert_eq!(
        shape(block.get_resolved_content()),
        vec![
            entry("4", "yankee", MetadataType::CollectionType),
            entry("2", "Zulu", MetadataType::CollectionType),
            entry("3", "Alpha", MetadataType::DocumentType),
            entry("1", "beta", MetadataType::DocumentType),
        ]
    );
}

#[test]
fn resolving_twice_from_an_unchanged_index_gives_the_same_listing() {
    let db = index_of(&notes_and_todo());
    let mut block = DBBlock::starting_at("db", Some(db), "A");
    assert_eq!(block.resolve(), Ok(()));
    let once = shape(block.get_resolved_content());
    assert_eq!(block.resolve(), Ok(()));
    assert_eq!(shape(block.get_resolved_content()), once);
    assert_eq!(once.len(), 2);
}

#[test]
fn building_the_index_again_replaces_it() {
    let db = index_of(&notes_and_todo());
    assert_eq!(
        resolve_file_tree(Arc::clone(&db), &vec![descriptor("Z", "", "DocumentType", "only")]),
        Ok(())
    );
    let mut block = DBBlock::new("db", Some(db));
    assert_eq!(block.resolve(), Ok(()));
    assert_eq!(
        shape(block.get_resolved_content()),
        vec![entry("Z", "only", MetadataType::DocumentType)]
    );
}

#[test]
fn an_unusable_descriptor_does_not_stop_the_build() {
    let mut files = notes_and_todo();
    files.insert(1, DescriptorFile { file_name: String::from("X.metadata"), contents: None });
    files.insert(1, DescriptorFile {
        file_name: String::from("Y.metadata"),
        contents: Some(String::from("\"visibleName\"")),
    });
    let db = index_of(&files);
    let mut block = DBBlock::starting_at("db", Some(db), "A");
    assert_eq!(block.resolve(), Ok(()));
    assert_eq!(
        shape(block.get_resolved_content()),
        vec![entry("root", "", MetadataType::ReturnType), entry("B", "todo", MetadataType::DocumentType)]
    );
}

#[test]
fn a_block_without_index_says_so() {
    let mut block = DBBlock::new("db", None);
    assert_eq!(block.resolve(), Err(Error::NoDBConnectionError));
    assert!(block.get_resolved_content().is_empty());
    assert_eq!(block.expand_selection(), Err(Error::VecAccessError(0)));
}

#[test]
fn a_store_without_index_fails_the_query() {
    let db = Arc::new(rusqlite::Connection::open_in_memory().unwrap());
    let mut block = DBBlock::new("db", Some(db));
    match block.resolve() {
        Err(Error::SQLiteError(text)) => assert!(text.contains("objects"), "{}", text),
        other => panic!("{:?}", other),
    }
    assert!(block.get_resolved_content().is_empty());
}

#[test]
fn a_failed_expansion_returns_to_the_parent() {
    let db = index_of(&notes_and_todo());
    let mut block = DBBlock::new("db", Some(Arc::clone(&db)));
    assert_eq!(block.resolve(), Ok(()));
    db.execute_batch("DROP TABLE objects").unwrap();
    match block.expand_selection() {
        Err(Error::SQLiteError(_)) => {}
        other => panic!("{:?}", other),
    }
    assert_eq!(block.block().parent_reference(), "root");
    assert_eq!(
        shape(block.get_resolved_content()),
        vec![entry("A", "Notes", MetadataType::CollectionType)]
    );
    assert!(!block.block().is_waiting());
}

#[test]
fn an_object_that_the_index_does_not_know_has_no_link() {
    let db = index_of(&notes_and_todo());
    let mut block = DBBlock::starting_at("db", Some(db), "nowhere");
    assert_eq!(block.resolve(), Ok(()));
    assert!(block.get_resolved_content().is_empty());
}

#[test]
fn rows_become_a_listing() {
    let rows = vec![
        stored("2", "b", "DocumentType"),
        None,
        stored("3", "gone", "ErrorType"),
        stored("4", "odd", "SomethingElse"),
        stored("1", "A", "CollectionType"),
        stored("5", "a", "DocumentType"),
    ];
    assert_eq!(
        shape(&listing_of_rows(Some(String::from("up")), &rows)),
        vec![
            entry("up", "", MetadataType::ReturnType),
            entry("1", "A", MetadataType::CollectionType),
            entry("5", "a", MetadataType::DocumentType),
            entry("2", "b", MetadataType::DocumentType),
        ]
    );
    assert_eq!(
        shape(&listing_of_rows(None, &rows)),
        vec![
            entry("1", "A", MetadataType::CollectionType),
            entry("5", "a", MetadataType::DocumentType),
            entry("2", "b", MetadataType::DocumentType),
        ]
    );
    assert!(listing_of_rows(None, &Vec::new()).is_empty());
}

#[test]
fn pinned_and_dates_are_stored_with_the_row() {
    let db = index_of(&vec![DescriptorFile {
        file_name: String::from("P.metadata"),
        contents: Some(String::from(
            "\"lastModified\": \"17\",\n\"pinned\": true,\n\"type\": \"DocumentType\",\n\"visibleName\": \"p\"",
        )),
    }]);
    let row: (String, String, String, String, bool, String) = db
        .query_row("SELECT uuid, name, last_modified, parent, pinned, object_type FROM objects", [], |r| {
            Ok((r.get(0)?, r.get(1)?, r.get(2)?, r.get(3)?, r.get(4)?, r.get(5)?))
        })
        .unwrap();
    assert_eq!(
        row,
        (
            String::from("P"),
            String::from("p"),
            String::from("17"),
            String::from("root"),
            true,
            String::from("DocumentType")
        )
    );
}
