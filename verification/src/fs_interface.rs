//! Kinds of tree entries, the descriptor-file format, and the rows that the
//! tree index is built from.

use crate::intern_error::Error;
use crate::store::{execute_batch, execute_with_row, query_entries, query_text, IndexEntry};
use crate::text::{
    chars_of, copy_range, find_from, head_field, index_of, remove_char, second_field, spells,
    string_of, trim, trimmed, without,
};
use std::sync::Arc;
use vstd::prelude::*;

verus! {

/// The kind of an entry in a listing. The declaration order is the order in
/// which kinds are listed: the link to the parent first, then collections,
/// then documents.
#[derive(Copy, Clone, Debug, PartialEq, Eq, Structural, PartialOrd, Ord, Hash)]
pub enum MetadataType {
    /// The synthetic "go up one level" entry.
    ReturnType,
    CollectionType,
    DocumentType,
    /// Anything that is neither a collection nor a document.
    ErrorType,
    /// An entry that was never classified.
    DefaultType,
}

impl Default for MetadataType {
    fn default() -> (r: Self)
        ensures
            r == MetadataType::DefaultType,
    {
        MetadataType::DefaultType
    }
}

impl MetadataType {
    /// The position of this kind in the listing order.
    pub open spec fn rank(self) -> nat {
        match self {
            MetadataType::ReturnType => 0,
            MetadataType::CollectionType => 1,
            MetadataType::DocumentType => 2,
            MetadataType::ErrorType => 3,
            MetadataType::DefaultType => 4,
        }
    }

    /// The kind that a descriptor or an index row names with `s`.
    pub open spec fn named(s: Seq<char>) -> MetadataType {
        if s == "CollectionType"@ {
            MetadataType::CollectionType
        } else if s == "DocumentType"@ {
            MetadataType::DocumentType
        } else {
            MetadataType::ErrorType
        }
    }

    /// The name under which this kind is stored.
    pub open spec fn label(self) -> Seq<char> {
        match self {
            MetadataType::DocumentType => "DocumentType"@,
            MetadataType::CollectionType => "CollectionType"@,
            MetadataType::ErrorType => "ErrorType"@,
            MetadataType::DefaultType => "DefaultType"@,
            MetadataType::ReturnType => "ReturnType"@,
        }
    }

    /// The kind of a directory entry: a directory is a collection, a regular
    /// file a document, anything else is not listed.
    pub open spec fn of_file_type(is_dir: bool, is_file: bool) -> MetadataType {
        if is_dir {
            MetadataType::CollectionType
        } else if is_file {
            MetadataType::DocumentType
        } else {
            MetadataType::ErrorType
        }
    }

    /// The position of this kind in the listing order.
    pub fn sort_rank(&self) -> (r: u8)
        ensures
            r == self.rank(),
    {
        match self {
            MetadataType::ReturnType => 0,
            MetadataType::CollectionType => 1,
            MetadataType::DocumentType => 2,
            MetadataType::ErrorType => 3,
            MetadataType::DefaultType => 4,
        }
    }

    /// The kind that is stored under the name `s`.
    pub fn from_chars(s: &Vec<char>) -> (r: MetadataType)
        ensures
            r == MetadataType::named(s@),
    {
        if spells(s, "CollectionType") {
            MetadataType::CollectionType
        } else if spells(s, "DocumentType") {
            MetadataType::DocumentType
        } else {
            MetadataType::ErrorType
        }
    }

    /// The kind that is stored under the name `s`; a name that is not known
    /// gives the error kind.
    pub fn from_str(s: &str) -> (r: MetadataType)
        ensures
            r == MetadataType::named(s@),
    {
        MetadataType::from_chars(&chars_of(s))
    }

    /// The name under which this kind is stored.
    pub fn as_str(&self) -> (r: &'static str)
        ensures
            r@ == self.label(),
    {
        match self {
            MetadataType::DocumentType => "DocumentType",
            MetadataType::CollectionType => "CollectionType",
            MetadataType::ErrorType => "ErrorType",
            MetadataType::DefaultType => "DefaultType",
            MetadataType::ReturnType => "ReturnType",
        }
    }

    /// The kind of a directory entry.
    pub fn from_file_type(is_dir: bool, is_file: bool) -> (r: MetadataType)
        ensures
            r == MetadataType::of_file_type(is_dir, is_file),
    {
        if is_dir {
            MetadataType::CollectionType
        } else if is_file {
            MetadataType::DocumentType
        } else {
            MetadataType::ErrorType
        }
    }
}

impl From<String> for MetadataType {
    /// The kind that the index stores under the name `value`.
    fn from(value: String) -> (r: MetadataType) {
        MetadataType::from_str(value.as_str())
    }
}

impl vstd::std_specs::convert::FromSpecImpl<String> for MetadataType {
    open spec fn obeys_from_spec() -> bool {
        true
    }

    open spec fn from_spec(value: String) -> MetadataType {
        MetadataType::named(value@)
    }
}

impl From<()> for MetadataType {
    /// The kind of what could not be classified at all.
    fn from(value: ()) -> (r: MetadataType) {
        MetadataType::ErrorType
    }
}

impl vstd::std_specs::convert::FromSpecImpl<()> for MetadataType {
    open spec fn obeys_from_spec() -> bool {
        true
    }

    open spec fn from_spec(value: ()) -> MetadataType {
        MetadataType::ErrorType
    }
}

/// The kinds that an index row can hold are read back as they were stored.
pub proof fn lemma_stored_kind_round_trip(kind: MetadataType)
    requires
        kind == MetadataType::CollectionType || kind == MetadataType::DocumentType || kind
            == MetadataType::ErrorType,
    ensures
        MetadataType::named(kind.label()) == kind,
{
    reveal_strlit("CollectionType");
    reveal_strlit("DocumentType");
    reveal_strlit("ErrorType");
    assert("DocumentType"@.len() != "CollectionType"@.len());
    assert("ErrorType"@.len() != "CollectionType"@.len());
    assert("ErrorType"@.len() != "DocumentType"@.len());
}

/// One row of the tree index: what a descriptor file says of one object.
#[derive(Debug, PartialEq, Eq)]
pub struct Metadata {
    pub uuid: String,
    pub name: String,
    pub last_modified: String,
    pub parent: String,
    pub pinned: bool,
    pub object_type: MetadataType,
}

pub struct MetadataView {
    pub uuid: Seq<char>,
    pub name: Seq<char>,
    pub last_modified: Seq<char>,
    pub parent: Seq<char>,
    pub pinned: bool,
    pub object_type: MetadataType,
}

impl View for Metadata {
    type V = MetadataView;

    open spec fn view(&self) -> MetadataView {
        MetadataView {
            uuid: self.uuid@,
            name: self.name@,
            last_modified: self.last_modified@,
            parent: self.parent@,
            pinned: self.pinned,
            object_type: self.object_type,
        }
    }
}

/// The row of an object of which nothing is known yet but its identifier:
/// it hangs under the root and has no usable kind.
pub open spec fn blank_row(uuid: Seq<char>) -> MetadataView {
    MetadataView {
        uuid,
        name: Seq::empty(),
        last_modified: Seq::empty(),
        parent: "root"@,
        pinned: false,
        object_type: MetadataType::ErrorType,
    }
}

/// What every row of the index has: an identifier and a parent, neither
/// empty, and a kind that is a collection, a document or an error.
pub open spec fn is_usable_row(row: MetadataView) -> bool {
    &&& row.uuid.len() > 0
    &&& row.parent.len() > 0
    &&& (row.object_type == MetadataType::CollectionType || row.object_type
        == MetadataType::DocumentType || row.object_type == MetadataType::ErrorType)
}

/// A descriptor line as it is read: trimmed, with its quotes deleted.
pub open spec fn line_body(line: Seq<char>) -> Seq<char> {
    without(trim(line), '"')
}

/// A raw value as it is stored: trimmed, with its commas deleted.
pub open spec fn clean(raw: Seq<char>) -> Seq<char> {
    without(trim(raw), ',')
}

/// Whether `key` is one of the keys that a descriptor line can set.
pub open spec fn is_known_key(key: Seq<char>) -> bool {
    key == "lastModified"@ || key == "parent"@ || key == "pinned"@ || key == "type"@ || key
        == "visibleName"@
}

/// `row` with the field that `key` names set from the cleaned `value`.
pub open spec fn with_field(row: MetadataView, key: Seq<char>, value: Seq<char>) -> MetadataView {
    if key == "lastModified"@ {
        MetadataView { last_modified: value, ..row }
    } else if key == "parent"@ {
        MetadataView {
            parent: if value.len() == 0 {
                "root"@
            } else {
                value
            },
            ..row
        }
    } else if key == "pinned"@ {
        MetadataView { pinned: value == "true"@, ..row }
    } else if key == "type"@ {
        MetadataView { object_type: MetadataType::named(value), ..row }
    } else if key == "visibleName"@ {
        MetadataView { name: value, ..row }
    } else {
        row
    }
}

/// The row after one descriptor line. A line whose key is not known changes
/// nothing; a known key without a value makes the descriptor unusable.
pub open spec fn apply_line(row: MetadataView, line: Seq<char>) -> Option<MetadataView> {
    let body = line_body(line);
    let key = head_field(body, ':');
    if is_known_key(key) {
        match second_field(body, ':') {
            None => None,
            Some(raw) => Some(with_field(row, key, clean(raw))),
        }
    } else {
        Some(row)
    }
}

/// The row after all lines of `text`, taken in order; lines end at `'\n'`.
pub open spec fn apply_lines(row: MetadataView, text: Seq<char>) -> Option<MetadataView>
    decreases text.len(),
{
    if text.len() == 0 {
        Some(row)
    } else {
        let end = index_of(text, '\n');
        match apply_line(row, text.take(end)) {
            None => None,
            Some(next) => if 0 <= end < text.len() {
                apply_lines(next, text.skip(end + 1))
            } else {
                Some(next)
            },
        }
    }
}

/// The identifier of the object that a descriptor file describes: the file's
/// name up to its first dot.
pub open spec fn identifier_of(file_name: Seq<char>) -> Seq<char> {
    head_field(file_name, '.')
}

/// The index row for a descriptor file, or `None` where the file name gives
/// no identifier or a line cannot be read.
pub open spec fn descriptor_row(file_name: Seq<char>, contents: Seq<char>) -> Option<MetadataView> {
    let uuid = identifier_of(file_name);
    if uuid.len() == 0 {
        None
    } else {
        apply_lines(blank_row(uuid), contents)
    }
}

/// Applying a line keeps what makes a row usable: its identifier, a parent
/// that is not empty, and a kind that is a collection, a document or an
/// error.
proof fn lemma_line_keeps_row_usable(row: MetadataView, line: Seq<char>)
    requires
        is_usable_row(row),
        apply_line(row, line) is Some,
    ensures
        is_usable_row(apply_line(row, line)->0),
        apply_line(row, line)->0.uuid == row.uuid,
{
    reveal_strlit("root");
}

/// Applying the lines of a text keeps what makes a row usable.
proof fn lemma_lines_keep_row_usable(row: MetadataView, text: Seq<char>)
    requires
        is_usable_row(row),
        apply_lines(row, text) is Some,
    ensures
        is_usable_row(apply_lines(row, text)->0),
        apply_lines(row, text)->0.uuid == row.uuid,
    decreases text.len(),
{
    if text.len() > 0 {
        let end = index_of(text, '\n');
        let next = apply_line(row, text.take(end))->0;
        lemma_line_keeps_row_usable(row, text.take(end));
        if 0 <= end < text.len() {
            lemma_lines_keep_row_usable(next, text.skip(end + 1));
        }
    }
}

/// Every row that a descriptor file gives is usable in the index: it has
/// the identifier that the file name gives, which is not empty; its parent
/// is not empty; and its kind is a collection, a document or an error.
pub proof fn lemma_descriptor_rows_are_usable(file_name: Seq<char>, contents: Seq<char>)
    requires
        descriptor_row(file_name, contents) is Some,
    ensures
        is_usable_row(descriptor_row(file_name, contents)->0),
        descriptor_row(file_name, contents)->0.uuid == identifier_of(file_name),
{
    reveal_strlit("root");
    lemma_lines_keep_row_usable(blank_row(identifier_of(file_name)), contents);
}

/// Reads one descriptor line into `row`; `false` where the line names a known
/// key and gives no value.
fn read_line(row: &mut Metadata, line: &Vec<char>) -> (ok: bool)
    ensures
        ok == apply_line(old(row)@, line@).is_some(),
        ok ==> final(row)@ == apply_line(old(row)@, line@).unwrap(),
{
    let body = remove_char(&trimmed(line), '"');
    let colon = find_from(&body, 0, ':');
    assert(body@.skip(0) =~= body@);
    let key = copy_range(&body, 0, colon);
    let last_modified = spells(&key, "lastModified");
    let parent = spells(&key, "parent");
    let pinned = spells(&key, "pinned");
    let kind = spells(&key, "type");
    let visible_name = spells(&key, "visibleName");
    if !(last_modified || parent || pinned || kind || visible_name) {
        return true;
    }
    if colon == body.len() {
        return false;
    }
    let after: usize = colon + 1;
    let next_colon = find_from(&body, after, ':');
    let raw = copy_range(&body, after, next_colon);
    assert(raw@ =~= head_field(body@.skip(after as int), ':'));
    let value = remove_char(&trimmed(&raw), ',');
    if last_modified {
        row.last_modified = string_of(&value);
    } else if parent {
        if value.len() == 0 {
            row.parent = "root".to_owned();
        } else {
            row.parent = string_of(&value);
        }
    } else if pinned {
        row.pinned = spells(&value, "true");
    } else if kind {
        row.object_type = MetadataType::from_chars(&value);
    } else {
        row.name = string_of(&value);
    }
    true
}

impl Metadata {
    /// Reads the descriptor file named `file_name` that holds `contents`.
    pub fn from_file(file_name: &str, contents: &str) -> (r: Option<Metadata>)
        ensures
            match descriptor_row(file_name@, contents@) {
                None => r is None,
                Some(row) => r is Some && r.unwrap()@ == row,
            },
    {
        let name_chars = chars_of(file_name);
        let dot = find_from(&name_chars, 0, '.');
        assert(name_chars@.skip(0) =~= name_chars@);
        let uuid = copy_range(&name_chars, 0, dot);
        if uuid.len() == 0 {
            return None;
        }
        let text = chars_of(contents);
        let mut row = Metadata {
            uuid: string_of(&uuid),
            name: String::new(),
            last_modified: String::new(),
            parent: "root".to_owned(),
            pinned: false,
            object_type: MetadataType::ErrorType,
        };
        let mut start: usize = 0;
        assert(text@.skip(0) =~= text@);
        while start < text.len()
            invariant
                start <= text.len(),
                descriptor_row(file_name@, contents@) == apply_lines(
                    row@,
                    text@.skip(start as int),
                ),
            decreases text.len() - start,
        {
            let end = find_from(&text, start, '\n');
            let line = copy_range(&text, start, end);
            assert(line@ =~= text@.skip(start as int).take(end - start));
            if !read_line(&mut row, &line) {
                return None;
            }
            if end == text.len() {
                return Some(row);
            }
            assert(text@.skip(start as int).skip(end - start + 1) =~= text@.skip(end as int + 1));
            start = end + 1;
        }
        Some(row)
    }
}

/// A descriptor file as it was found: its name, and its contents unless it
/// could not be read.
#[derive(Clone, Debug, PartialEq, Eq)]
pub struct DescriptorFile {
    pub file_name: String,
    pub contents: Option<String>,
}

pub struct DescriptorFileView {
    pub file_name: Seq<char>,
    pub contents: Option<Seq<char>>,
}

impl View for DescriptorFile {
    type V = DescriptorFileView;

    open spec fn view(&self) -> DescriptorFileView {
        DescriptorFileView {
            file_name: self.file_name@,
            contents: match self.contents {
                Some(text) => Some(text@),
                None => None,
            },
        }
    }
}

/// The views of the files of `files`, in order.
pub open spec fn file_views(files: Seq<DescriptorFile>) -> Seq<DescriptorFileView> {
    files.map_values(|f: DescriptorFile| f@)
}

/// The views of the rows of `rows`, in order.
pub open spec fn metadata_views(rows: Seq<Metadata>) -> Seq<MetadataView> {
    rows.map_values(|m: Metadata| m@)
}

/// The index row that `file` gives, or `None` where the file could not be
/// read or cannot be used.
pub open spec fn file_row(file: DescriptorFileView) -> Option<MetadataView> {
    match file.contents {
        Some(text) => descriptor_row(file.file_name, text),
        None => None,
    }
}

/// The rows of the index that is built from `files`: one for each file that
/// can be used, in the order of the files. A file that cannot be used costs
/// its own row and no other.
pub open spec fn index_rows(files: Seq<DescriptorFileView>) -> Seq<MetadataView>
    decreases files.len(),
{
    if files.len() == 0 {
        Seq::empty()
    } else {
        let rest = index_rows(files.drop_last());
        match file_row(files.last()) {
            Some(row) => rest.push(row),
            None => rest,
        }
    }
}

/// Every row of an index that is built from descriptor files is usable.
pub proof fn lemma_index_rows_are_usable(files: Seq<DescriptorFileView>)
    ensures
        forall|i: int|
            0 <= i < index_rows(files).len() ==> is_usable_row(#[trigger] index_rows(files)[i]),
        index_rows(files).len() <= files.len(),
    decreases files.len(),
{
    if files.len() > 0 {
        lemma_index_rows_are_usable(files.drop_last());
        match files.last().contents {
            Some(text) => {
                if descriptor_row(files.last().file_name, text) is Some {
                    lemma_descriptor_rows_are_usable(files.last().file_name, text);
                }
            },
            None => {},
        }
    }
}

/// The rows of the index that is built from `files`.
pub fn rows_of_files(files: &Vec<DescriptorFile>) -> (r: Vec<Metadata>)
    ensures
        metadata_views(r@) == index_rows(file_views(files@)),
{
    let mut rows: Vec<Metadata> = Vec::new();
    let mut i: usize = 0;
    assert(metadata_views(rows@) =~= Seq::<MetadataView>::empty());
    while i < files.len()
        invariant
            i <= files.len(),
            metadata_views(rows@) == index_rows(file_views(files@).take(i as int)),
        decreases files.len() - i,
    {
        let ghost before = metadata_views(rows@);
        let ghost found = file_views(files@);
        assert(found.take(i as int + 1).drop_last() =~= found.take(i as int));
        assert(found.take(i as int + 1).last() == files@[i as int]@);
        match &files[i].contents {
            Some(text) => match Metadata::from_file(files[i].file_name.as_str(), text.as_str()) {
                Some(row) => {
                    rows.push(row);
                    assert(metadata_views(rows@) =~= before.push(row@));
                },
                None => {},
            },
            None => {},
        }
        i += 1;
    }
    assert(file_views(files@).take(files.len() as int) =~= file_views(files@));
    rows
}

/// Builds the tree index anew in the store `db`: an empty table of objects,
/// then one row for each descriptor file of `files` that can be used. The
/// build fails only where the table cannot be made; a row that the store
/// does not take is left out.
pub fn resolve_file_tree(db: Arc<rusqlite::Connection>, files: &Vec<DescriptorFile>) -> (r: Result<
    (),
    Error,
>)
    ensures
        r matches Err(e) ==> e is SQLiteError,
{
    match execute_batch(
        &db,
        "DROP TABLE IF EXISTS objects;
        CREATE TABLE objects (
        uuid TEXT,
        name TEXT,
        last_modified TEXT,
        parent TEXT,
        pinned NUMBER,
        object_type TEXT )",
    ) {
        Err(text) => {
            return Err(Error::SQLiteError(text));
        },
        Ok(_) => {},
    }
    let rows = rows_of_files(files);
    let mut i: usize = 0;
    while i < rows.len()
        invariant
            i <= rows.len(),
        decreases rows.len() - i,
    {
        let row = &rows[i];
        let _ = execute_with_row(
            &db,
            "INSERT INTO objects VALUES (?1, ?2, ?3, ?4, ?5, ?6)",
            row.uuid.as_str(),
            row.name.as_str(),
            row.last_modified.as_str(),
            row.parent.as_str(),
            row.pinned,
            row.object_type.as_str(),
        );
        i += 1;
    }
    Ok(())
}

/// The rows of the objects whose parent is `identifier`, in the order in
/// which the index `db` gives them; `None` stands for a row that could not
/// be read. That the index cannot be asked is a failure, told apart from an
/// object without children.
pub fn children_of(db: &Arc<rusqlite::Connection>, identifier: &str) -> (r: Result<
    Vec<Option<IndexEntry>>,
    Error,
>)
    ensures
        r matches Err(e) ==> e is SQLiteError,
{
    match query_entries(
        db,
        "SELECT uuid, name, object_type FROM objects WHERE parent=?1",
        identifier,
    ) {
        Ok(rows) => Ok(rows),
        Err(text) => Err(Error::SQLiteError(text)),
    }
}

/// The identifier of the parent of the object `identifier`, or `None` where
/// the index `db` holds no such object. That the index cannot be asked is a
/// failure, told apart from an object that it does not hold.
pub fn parent_of(db: &Arc<rusqlite::Connection>, identifier: &str) -> (r: Result<
    Option<String>,
    Error,
>)
    ensures
        r matches Err(e) ==> e is SQLiteError,
{
    match query_text(db, "SELECT parent FROM objects WHERE uuid=?1", identifier) {
        Ok(up) => Ok(up),
        Err(text) => Err(Error::SQLiteError(text)),
    }
}

} // verus!
