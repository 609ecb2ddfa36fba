use noteworthy::fs_interface::{rows_of_files, DescriptorFile, Metadata, MetadataType};

fn row(uuid: &str, name: &str, last_modified: &str, parent: &str, pinned: bool, kind: MetadataType) -> Metadata {
    Metadata {
        uuid: String::from(uuid),
        name: String::from(name),
        last_modified: String::from(last_modified),
        parent: String::from(parent),
        pinned,
        object_type: kind,
    }
}

#[test]
fn kinds_are_read_from_their_stored_names() {
    assert_eq!(MetadataType::from_str("CollectionType"), MetadataType::CollectionType);
    assert_eq!(MetadataType::from_str("DocumentType"), MetadataType::DocumentType);
    assert_eq!(MetadataType::from_str("ErrorType"), MetadataType::ErrorType);
    assert_eq!(MetadataType::from_str("ReturnType"), MetadataType::ErrorType);
    assert_eq!(MetadataType::from_str("collectiontype"), MetadataType::ErrorType);
    assert_eq!(MetadataType::from_str(""), MetadataType::ErrorType);
    assert_eq!(MetadataType::from(String::from("DocumentType")), MetadataType::DocumentType);
    assert_eq!(MetadataType::from(String::from("x")), MetadataType::ErrorType);
    assert_eq!(MetadataType::from(()), MetadataType::ErrorType);
}

#[test]
fn kinds_have_their_stored_names() {
    assert_eq!(MetadataType::DocumentType.as_str(), "DocumentType");
    assert_eq!(MetadataType::CollectionType.as_str(), "CollectionType");
    assert_eq!(MetadataType::ErrorType.as_str(), "ErrorType");
    assert_eq!(MetadataType::DefaultType.as_str(), "DefaultType");
    assert_eq!(MetadataType::ReturnType.as_str(), "ReturnType");
}

#[test]
fn stored_kinds_are_read_back() {
    for kind in [MetadataType::CollectionType, MetadataType::DocumentType, MetadataType::ErrorType] {
        assert_eq!(MetadataType::from_str(kind.as_str()), kind);
    }
}

#[test]
fn kinds_rank_in_listing_order() {
    assert_eq!(MetadataType::ReturnType.sort_rank(), 0);
    assert_eq!(MetadataType::CollectionType.sort_rank(), 1);
    assert_eq!(MetadataType::DocumentType.sort_rank(), 2);
    assert_eq!(MetadataType::ErrorType.sort_rank(), 3);
    assert_eq!(MetadataType::DefaultType.sort_rank(), 4);
    assert!(MetadataType::ReturnType < MetadataType::CollectionType);
    assert!(MetadataType::CollectionType < MetadataType::DocumentType);
    assert_eq!(MetadataType::default(), MetadataType::DefaultType);
}

#[test]
fn directory_entries_are_classified_by_their_file_type() {
    assert_eq!(MetadataType::from_file_type(true, false), MetadataType::CollectionType);
    assert_eq!(MetadataType::from_file_type(false, true), MetadataType::DocumentType);
    assert_eq!(MetadataType::from_file_type(false, false), MetadataType::ErrorType);
    assert_eq!(MetadataType::from_file_type(true, true), MetadataType::CollectionType);
}

#[test]
fn a_full_descriptor_is_read() {
    let text = "{\n    \"deleted\": false,\n    \"lastModified\": \"1683213598895\",\n    \"metadatamodified\": false,\n    \"parent\": \"8a2f\",\n    \"pinned\": true,\n    \"type\": \"DocumentType\",\n    \"visibleName\": \"Lecture notes\"\n}\n";
    assert_eq!(
        Metadata::from_file("4c1d-11.metadata", text),
        Some(row("4c1d-11", "Lecture notes", "1683213598895", "8a2f", true, MetadataType::DocumentType))
    );
}

#[test]
fn a_blank_parent_is_the_root() {
    let text = "\"parent\": \"\",\n\"type\": \"CollectionType\",\n\"visibleName\": \"Notes\"";
    assert_eq!(
        Metadata::from_file("A.metadata", text),
        Some(row("A", "Notes", "", "root", false, MetadataType::CollectionType))
    );
}

#[test]
fn an_object_without_parent_line_hangs_under_the_root() {
    assert_eq!(
        Metadata::from_file("A.metadata", "\"visibleName\": \"Notes\""),
        Some(row("A", "Notes", "", "root", false, MetadataType::ErrorType))
    );
    assert_eq!(
        Metadata::from_file("A.metadata", ""),
        Some(row("A", "", "", "root", false, MetadataType::ErrorType))
    );
}

#[test]
fn an_unknown_kind_is_an_error_kind() {
    assert_eq!(
        Metadata::from_file("A", "type: Folder"),
        Some(row("A", "", "", "root", false, MetadataType::ErrorType))
    );
}

#[test]
fn pinned_is_true_for_the_word_true_only() {
    for (text, expected) in [
        ("\"pinned\": true,", true),
        ("pinned:true", true),
        ("\"pinned\": false,", false),
        ("\"pinned\": yes", false),
        ("\"pinned\": True", false),
        ("\"pinned\": ,", false),
    ] {
        assert_eq!(Metadata::from_file("A", text).unwrap().pinned, expected, "{:?}", text);
    }
}

#[test]
fn unknown_keys_and_other_lines_are_ignored() {
    let text = "{\n\"version\": 3,\nnonsense without colon\n\n   \n\"visibleName\": \"x\"\n}";
    assert_eq!(
        Metadata::from_file("A.metadata", text),
        Some(row("A", "x", "", "root", false, MetadataType::ErrorType))
    );
}

#[test]
fn a_later_line_overrides_an_earlier_one() {
    let text = "\"visibleName\": \"first\"\n\"visibleName\": \"second\"";
    assert_eq!(Metadata::from_file("A", text).unwrap().name, "second");
}

#[test]
fn a_value_ends_at_the_second_colon() {
    let text = "\"visibleName\": \"12:30 meeting\"";
    assert_eq!(Metadata::from_file("A", text).unwrap().name, "12");
}

#[test]
fn values_are_trimmed_and_then_lose_their_commas() {
    let text = "  \"visibleName\":   \"a, b\",  \r\n";
    assert_eq!(Metadata::from_file("A", text).unwrap().name, "a b");
    let text = "\"lastModified\":   \"17\"  ,  \r\n";
    assert_eq!(Metadata::from_file("A", text).unwrap().last_modified, "17  ");
}

#[test]
fn a_key_with_blanks_before_the_colon_is_not_known() {
    assert_eq!(Metadata::from_file("A", "\"visibleName\" : \"x\"").unwrap().name, "");
}

#[test]
fn a_known_key_without_value_makes_the_descriptor_unusable() {
    assert_eq!(Metadata::from_file("A.metadata", "\"visibleName\""), None);
    assert_eq!(Metadata::from_file("A.metadata", "\"visibleName\": \"x\"\nparent\n"), None);
    assert_eq!(Metadata::from_file("A.metadata", "type"), None);
}

#[test]
fn the_identifier_is_the_file_name_up_to_its_first_dot() {
    assert_eq!(Metadata::from_file("abc.def.metadata", "").unwrap().uuid, "abc");
    assert_eq!(Metadata::from_file("abc", "").unwrap().uuid, "abc");
    assert_eq!(Metadata::from_file(".metadata", ""), None);
    assert_eq!(Metadata::from_file("", "\"visibleName\": \"x\""), None);
}

#[test]
fn an_unusable_file_costs_its_own_row_only() {
    let files = vec![
        DescriptorFile {
            file_name: String::from("A.metadata"),
            contents: Some(String::from("\"type\": \"CollectionType\"\n\"visibleName\": \"Notes\"")),
        },
        DescriptorFile { file_name: String::from("unreadable.metadata"), contents: None },
        DescriptorFile {
            file_name: String::from("broken.metadata"),
            contents: Some(String::from("\"parent\"")),
        },
        DescriptorFile {
            file_name: String::from(".metadata"),
            contents: Some(String::from("\"visibleName\": \"nameless\"")),
        },
        DescriptorFile {
            file_name: String::from("B.metadata"),
            contents: Some(String::from("\"parent\": \"A\"\n\"type\": \"DocumentType\"\n\"visibleName\": \"todo\"")),
        },
    ];
    assert_eq!(
        rows_of_files(&files),
        vec![
            row("A", "Notes", "", "root", false, MetadataType::CollectionType),
            row("B", "todo", "", "A", false, MetadataType::DocumentType),
        ]
    );
    assert_eq!(rows_of_files(&Vec::new()), Vec::<Metadata>::new());
}
