//! The failures that the navigator reports, and the text shown for each.

use crate::text::{chars_of, decimal, decimal_text, extend_chars, string_of};
use vstd::prelude::*;

verus! {

/// `std::io::Error`: the failure of an input/output operation. Nothing
/// inside it is read here; its text is taken through `to_string`.
#[verifier::external_type_specification]
#[verifier::external_body]
pub struct ExIoError(std::io::Error);

#[derive(Debug, PartialEq, Eq)]
pub enum Error {
    PlaceholderError,
    /// A terminal or filesystem operation failed: an unreadable directory or
    /// descriptor file.
    CrosstermError(String),
    /// A query against the tree index failed.
    SQLiteError(String),
    OutOfBoundsError(usize),
    /// An attempt to walk above the root.
    WalkBackError,
    HexToRGBError(String),
    ConfigparserError(String),
    SSHError(String),
    /// The index-backed pane was asked for a listing before it was given an
    /// index.
    NoDBConnectionError,
    /// A cursor operation found no entry at this position.
    VecAccessError(usize),
    VecRemoveError(usize),
    GlobErr,
    JSONParseErr,
}

/// An `Error` with each text taken as its sequence of characters.
pub enum ErrorView {
    PlaceholderError,
    CrosstermError(Seq<char>),
    SQLiteError(Seq<char>),
    OutOfBoundsError(usize),
    WalkBackError,
    HexToRGBError(Seq<char>),
    ConfigparserError(Seq<char>),
    SSHError(Seq<char>),
    NoDBConnectionError,
    VecAccessError(usize),
    VecRemoveError(usize),
    GlobErr,
    JSONParseErr,
}

impl View for Error {
    type V = ErrorView;

    open spec fn view(&self) -> ErrorView {
        match *self {
            Error::PlaceholderError => ErrorView::PlaceholderError,
            Error::CrosstermError(s) => ErrorView::CrosstermError(s@),
            Error::SQLiteError(s) => ErrorView::SQLiteError(s@),
            Error::OutOfBoundsError(n) => ErrorView::OutOfBoundsError(n),
            Error::WalkBackError => ErrorView::WalkBackError,
            Error::HexToRGBError(s) => ErrorView::HexToRGBError(s@),
            Error::ConfigparserError(s) => ErrorView::ConfigparserError(s@),
            Error::SSHError(s) => ErrorView::SSHError(s@),
            Error::NoDBConnectionError => ErrorView::NoDBConnectionError,
            Error::VecAccessError(n) => ErrorView::VecAccessError(n),
            Error::VecRemoveError(n) => ErrorView::VecRemoveError(n),
            Error::GlobErr => ErrorView::GlobErr,
            Error::JSONParseErr => ErrorView::JSONParseErr,
        }
    }
}

impl ErrorView {
    /// The line shown to the user for this failure.
    pub open spec fn message(self) -> Seq<char> {
        match self {
            ErrorView::PlaceholderError => "[!ERR!] ! Placeholder error !"@,
            ErrorView::CrosstermError(s) => "[ERR] Crossterm : "@ + s,
            ErrorView::SQLiteError(s) => "[ERR] SQLite : "@ + s,
            ErrorView::OutOfBoundsError(n) => "[ERR] Internal : Failed to retrieve index "@ + (
            decimal(n as nat) + " from struct"@),
            ErrorView::WalkBackError => "[ERR] Internal : Cannot walk back any more"@,
            ErrorView::HexToRGBError(_) =>
                "[ERR] Internal : Color could not be converted to RGB"@,
            ErrorView::ConfigparserError(s) => "[ERR] Configparser : "@ + s,
            ErrorView::SSHError(s) => "[ERR] SSH2 : "@ + s,
            ErrorView::NoDBConnectionError =>
                "[ERR] Internal : DB Connection not initialized, cannot populate DBBlock"@,
            ErrorView::VecAccessError(n) => "[ERR] Internal : Couldn't access item at index "@
                + decimal(n as nat),
            ErrorView::VecRemoveError(n) =>
                "[ERR] Internal : Couldn't remove selected item at index "@ + decimal(n as nat),
            ErrorView::GlobErr => "[ERR] Internal : Glob error"@,
            ErrorView::JSONParseErr => "[ERR] Internal : Save data read failure"@,
        }
    }
}

/// `prefix` followed by `tail`, as one string.
fn prefixed(prefix: &str, tail: &Vec<char>) -> (r: String)
    ensures
        r@ == prefix@ + tail@,
{
    let mut all = chars_of(prefix);
    extend_chars(&mut all, tail);
    string_of(&all)
}

impl Error {
    /// The line shown to the user for this failure.
    pub fn to_string(&self) -> (r: String)
        ensures
            r@ == self@.message(),
    {
        match self {
            Error::PlaceholderError => "[!ERR!] ! Placeholder error !".to_owned(),
            Error::CrosstermError(s) => prefixed("[ERR] Crossterm : ", &chars_of(s.as_str())),
            Error::SQLiteError(s) => prefixed("[ERR] SQLite : ", &chars_of(s.as_str())),
            Error::OutOfBoundsError(n) => {
                let mut number = decimal_text(*n);
                extend_chars(&mut number, &chars_of(" from struct"));
                prefixed("[ERR] Internal : Failed to retrieve index ", &number)
            },
            Error::WalkBackError => "[ERR] Internal : Cannot walk back any more".to_owned(),
            Error::HexToRGBError(_) => {
                "[ERR] Internal : Color could not be converted to RGB".to_owned()
            },
            Error::ConfigparserError(s) => prefixed("[ERR] Configparser : ", &chars_of(s.as_str())),
            Error::SSHError(s) => prefixed("[ERR] SSH2 : ", &chars_of(s.as_str())),
            Error::NoDBConnectionError => {
                "[ERR] Internal : DB Connection not initialized, cannot populate DBBlock".to_owned()
            },
            Error::VecAccessError(n) => prefixed(
                "[ERR] Internal : Couldn't access item at index ",
                &decimal_text(*n),
            ),
            Error::VecRemoveError(n) => prefixed(
                "[ERR] Internal : Couldn't remove selected item at index ",
                &decimal_text(*n),
            ),
            Error::GlobErr => "[ERR] Internal : Glob error".to_owned(),
            Error::JSONParseErr => "[ERR] Internal : Save data read failure".to_owned(),
        }
    }

    /// The failure of reading a directory or a file: a `CrosstermError` that
    /// holds the text that `e` gives of itself.
    pub fn from_io(e: std::io::Error) -> (r: Error)
        ensures
            r matches Error::CrosstermError(text)
                && vstd::string::to_string_from_display_ensures::<std::io::Error>(&e, text),
    {
        Error::CrosstermError(e.to_string())
    }

    /// A copy of this failure.
    pub fn duplicate(&self) -> (r: Error)
        ensures
            r@ == self@,
    {
        match self {
            Error::PlaceholderError => Error::PlaceholderError,
            Error::CrosstermError(s) => Error::CrosstermError(s.clone()),
            Error::SQLiteError(s) => Error::SQLiteError(s.clone()),
            Error::OutOfBoundsError(n) => Error::OutOfBoundsError(*n),
            Error::WalkBackError => Error::WalkBackError,
            Error::HexToRGBError(s) => Error::HexToRGBError(s.clone()),
            Error::ConfigparserError(s) => Error::ConfigparserError(s.clone()),
            Error::SSHError(s) => Error::SSHError(s.clone()),
            Error::NoDBConnectionError => Error::NoDBConnectionError,
            Error::VecAccessError(n) => Error::VecAccessError(*n),
            Error::VecRemoveError(n) => Error::VecRemoveError(*n),
            Error::GlobErr => Error::GlobErr,
            Error::JSONParseErr => Error::JSONParseErr,
        }
    }
}

} // verus!
