//! The configuration that callers hand to the listing and display
//! functions: colours and settings. The library holds no configuration of
//! its own.

use vstd::prelude::*;

verus! {

/// A terminal colour.
#[derive(Copy, Clone, Debug, PartialEq, Eq, Structural)]
pub enum Color {
    Reset,
    Black,
    Red,
    Green,
    Yellow,
    Blue,
    Magenta,
    Cyan,
    Gray,
    DarkGray,
    LightRed,
    LightGreen,
    LightYellow,
    LightBlue,
    LightMagenta,
    LightCyan,
    White,
    Rgb(u8, u8, u8),
    Indexed(u8),
}

/// The colours of the user interface.
#[derive(Copy, Clone, Debug, PartialEq, Eq, Structural)]
pub struct Theme {
    pub background: Color,
    pub foreground: Color,
    pub success: Color,
    pub alert: Color,
    /// The accent of entries that are part of the multi-selection.
    pub highlight: Color,
}

impl Default for Theme {
    /// White on black, with green, red and yellow as accents.
    fn default() -> (r: Self)
        ensures
            r == (Theme {
                background: Color::Black,
                foreground: Color::White,
                success: Color::Green,
                alert: Color::Red,
                highlight: Color::Yellow,
            }),
    {
        Theme {
            background: Color::Black,
            foreground: Color::White,
            success: Color::Green,
            alert: Color::Red,
            highlight: Color::Yellow,
        }
    }
}

/// How a piece of text is drawn: the colours that it sets, if any, and its
/// emphasis.
#[derive(Copy, Clone, Debug, PartialEq, Eq)]
pub struct Style {
    pub fg: Option<Color>,
    pub bg: Option<Color>,
    pub bold: bool,
    pub italic: bool,
    pub reversed: bool,
}

impl Default for Style {
    /// The style that changes nothing.
    fn default() -> (r: Self)
        ensures
            r == (Style { fg: None, bg: None, bold: false, italic: false, reversed: false }),
    {
        Style { fg: None, bg: None, bold: false, italic: false, reversed: false }
    }
}

/// The settings that the navigator reads.
#[derive(Clone, Debug, PartialEq, Eq)]
pub struct Settings {
    /// The directory that the local pane starts in.
    pub default_local_dir: String,
    /// The object that the remote pane starts in.
    pub default_remote_dir: String,
    /// Whether listings of the local tree show entries whose name starts
    /// with a dot.
    pub show_hidden_files: bool,
    pub save_data_loc: String,
    pub backup_loc: String,
    pub remote_backup_loc: String,
}

} // verus!
