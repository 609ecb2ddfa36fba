//! Navigation engine of a two-pane document browser: a local directory tree
//! beside a remote device's document tree, the latter indexed from small
//! per-object descriptor files.

pub mod config;
pub mod fs_interface;
pub mod input;
pub mod intern_error;
pub mod notification;
pub mod paths;
pub mod store;
pub mod text;
pub mod ui;
