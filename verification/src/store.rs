//! The calls into the SQLite store that holds the tree index.
//!
//! What the store answers depends on what it holds, so nothing is claimed of
//! any answer: the callers decide on whatever comes back.

use std::sync::Arc;
use vstd::prelude::*;

verus! {

/// `rusqlite::Connection`: a connection to the store. Nothing inside it is
/// read here.
#[verifier::external_type_specification]
#[verifier::external_body]
pub struct ExConnection(rusqlite::Connection);

/// One row that the store gives for a listing: the identifier, the name and
/// the stored kind of an object.
#[derive(Clone, Debug, PartialEq, Eq)]
pub struct IndexEntry {
    pub uuid: String,
    pub name: String,
    pub object_type: String,
}

pub struct IndexEntryView {
    pub uuid: Seq<char>,
    pub name: Seq<char>,
    pub object_type: Seq<char>,
}

impl View for IndexEntry {
    type V = IndexEntryView;

    open spec fn view(&self) -> IndexEntryView {
        IndexEntryView { uuid: self.uuid@, name: self.name@, object_type: self.object_type@ }
    }
}

/// `rusqlite::Connection::execute_batch`: runs the statements of `sql`, which
/// take no parameters, one after the other. A failure comes back as the text
/// of the store's error.
#[verifier::external_body]
pub(crate) fn execute_batch(db: &Arc<rusqlite::Connection>, sql: &str) -> (r: Result<(), String>) {
    db.execute_batch(sql).map_err(|e| e.to_string())
}

/// `rusqlite::Connection::execute`: runs the one statement `sql` with the
/// six values as its positional parameters and gives the number of rows that
/// it changed. A failure comes back as the text of the store's error.
#[verifier::external_body]
pub(crate) fn execute_with_row(
    db: &Arc<rusqlite::Connection>,
    sql: &str,
    uuid: &str,
    name: &str,
    last_modified: &str,
    parent: &str,
    pinned: bool,
    object_type: &str,
) -> (r: Result<usize, String>) {
    db.execute(sql, (uuid, name, last_modified, parent, pinned, object_type)).map_err(
        |e| e.to_string(),
    )
}

/// `rusqlite::Connection::prepare` and `rusqlite::Statement::query_map`: the
/// rows that `sql` selects for the parameter `key`, in the order in which
/// the store gives them, each read by `rusqlite::Row::get` as three texts;
/// `None` stands for a row that could not be read so. A failure to prepare
/// or to run the query comes back as the text of the store's error.
#[verifier::external_body]
pub(crate) fn query_entries(db: &Arc<rusqlite::Connection>, sql: &str, key: &str) -> (r: Result<
    Vec<Option<IndexEntry>>,
    String,
>) {
    let mut stmt = db.prepare(sql).map_err(|e| e.to_string())?;
    let rows = stmt.query_map(
        [key],
        |r| Ok(IndexEntry { uuid: r.get(0)?, name: r.get(1)?, object_type: r.get(2)? }),
    ).map_err(|e| e.to_string())?;
    Ok(rows.map(|row| row.ok()).collect())
}

/// `rusqlite::Connection::query_row`: the first column, read as a text, of
/// the first row that `sql` selects for the parameter `key`; `Ok(None)`
/// where it selects no row. Any other failure comes back as the text of the
/// store's error.
#[verifier::external_body]
pub(crate) fn query_text(db: &Arc<rusqlite::Connection>, sql: &str, key: &str) -> (r: Result<
    Option<String>,
    String,
>) {
    match db.query_row(sql, [key], |r| r.get::<usize, String>(0)) {
        Ok(text) => Ok(Some(text)),
        Err(rusqlite::Error::QueryReturnedNoRows) => Ok(None),
        Err(e) => Err(e.to_string()),
    }
}

} // verus!
