//! The two panes and the controller that forwards key actions to the one
//! that has the focus.

pub mod block;
pub mod db_block;
pub mod dir_block;
pub mod file_item;
pub mod laws;
pub mod order;

use crate::config::{Settings, Theme};
use crate::intern_error::{Error, ErrorView};
use crate::ui::block::{
    outcome_view, row_views, FSListBlock, ListBlockView, ListRow, Step, StepView,
};
use crate::ui::db_block::{index_fetch, DBBlock};
use crate::ui::dir_block::{local_fetch, read_view, DirBlock, LocalEntry};
use crate::ui::file_item::FileItemView;
use std::sync::Arc;
use vstd::prelude::*;

verus! {

/// The ways in which the cursor of a pane moves.
#[derive(Copy, Clone, Debug, PartialEq, Eq, Structural)]
pub enum CursorDirection {
    Up,
    Down,
    PgUp,
    PgDn,
}

/// The rows of a pane's drawing area that hold no entry: its border and
/// title.
pub const WIDGET_OFFSET: u16 = 3;

/// The pane that key actions go to.
#[derive(Copy, Clone, Debug, PartialEq, Eq, Structural)]
pub enum FileUIFocus {
    Local,
    Remote,
}

/// The controller of the two panes: the local tree on one side, the remote
/// tree on the other.
pub struct FileUI {
    local: DirBlock,
    remote: DBBlock,
    focus: FileUIFocus,
}

pub struct FileUIView {
    pub local: ListBlockView,
    pub remote: ListBlockView,
    pub focus: FileUIFocus,
}

impl FileUIView {
    /// Each pane knows whether it has the focus.
    pub open spec fn focus_marked(self) -> bool {
        self.local.focused == (self.focus == FileUIFocus::Local) && self.remote.focused == (
        self.focus == FileUIFocus::Remote)
    }

    /// The controller with each pane told whether it has the focus.
    pub open spec fn marked(self) -> Self {
        FileUIView {
            local: ListBlockView { focused: self.focus == FileUIFocus::Local, ..self.local },
            remote: ListBlockView { focused: self.focus == FileUIFocus::Remote, ..self.remote },
            focus: self.focus,
        }
    }

    /// The controller after the focus went to the other pane.
    pub open spec fn toggled(self) -> Self {
        FileUIView {
            focus: match self.focus {
                FileUIFocus::Local => FileUIFocus::Remote,
                FileUIFocus::Remote => FileUIFocus::Local,
            },
            ..self
        }.marked()
    }

    /// The controller after the cursor of the focused pane moved.
    pub open spec fn moved(self, direction: CursorDirection) -> Self {
        match self.focus {
            FileUIFocus::Local => FileUIView { local: self.local.moved(direction), ..self },
            FileUIFocus::Remote => FileUIView { remote: self.remote.moved(direction), ..self },
        }.marked()
    }
}

impl View for FileUI {
    type V = FileUIView;

    closed spec fn view(&self) -> FileUIView {
        FileUIView { local: self.local@, remote: self.remote@, focus: self.focus }
    }
}

impl FileUI {
    /// Whether the remote pane was given an index to ask.
    pub closed spec fn has_index(&self) -> bool {
        self.remote.has_index()
    }

    /// Gives the focus to the other pane.
    pub fn toggle_focus(&mut self)
        ensures
            final(self)@ == old(self)@.toggled(),
            final(self)@.focus_marked(),
            final(self).has_index() == old(self).has_index(),
    {
        self.focus = match self.focus {
            FileUIFocus::Local => FileUIFocus::Remote,
            FileUIFocus::Remote => FileUIFocus::Local,
        };
        self.mark_focus();
    }

    /// Tells each pane whether it has the focus.
    fn mark_focus(&mut self)
        ensures
            final(self)@ == old(self)@.marked(),
            final(self).has_index() == old(self).has_index(),
    {
        self.local.set_focus(self.focus == FileUIFocus::Local);
        self.remote.set_focus(self.focus == FileUIFocus::Remote);
    }

    /// Moves the cursor of the focused pane.
    pub fn cursor_move(&mut self, direction: CursorDirection)
        ensures
            final(self)@ == old(self)@.moved(direction),
            final(self)@.focus_marked(),
            final(self).has_index() == old(self).has_index(),
    {
        match self.focus {
            FileUIFocus::Local => self.local.cursor_move(direction),
            FileUIFocus::Remote => self.remote.cursor_move(direction),
        };
        self.mark_focus();
    }

    /// Expands the entry under the cursor of the focused pane. The remote
    /// pane asks its index itself, so its expansion is over on return. For
    /// the local pane a `Step::Fetch` asks the caller to read the directory
    /// at the pane's parent and to hand it to `deliver_local`.
    pub fn expand_selection(&mut self) -> (step: Step)
        ensures
            final(self)@.focus == old(self)@.focus,
            final(self).has_index() == old(self).has_index(),
            old(self)@.focus == FileUIFocus::Local ==> final(self)@.remote == old(self)@.remote && (
            final(self)@.local, step@) == old(self)@.local.expanded(),
            old(self)@.focus == FileUIFocus::Remote ==> final(self)@.local == old(self)@.local
                && exists|
                first: Result<Seq<FileItemView>, ErrorView>,
                second: Result<Seq<FileItemView>, ErrorView>,
            |
                #![trigger old(self)@.remote.expansion(first, second)]
                {
                    let (begun, asked) = old(self)@.remote.expanded();
                    &&& step@ == StepView::Done(old(self)@.remote.expansion(first, second).1)
                    &&& final(self)@.remote == old(self)@.remote.expansion(first, second).0
                    &&& asked is Fetch ==> index_fetch(old(self).has_index(), begun.parent, first)
                    &&& asked is Fetch && begun.delivered(first).1 is Fetch ==> index_fetch(
                        old(self).has_index(),
                        begun.delivered(first).0.parent,
                        second,
                    )
                },
    {
        match self.focus {
            FileUIFocus::Local => self.local.expand_selection(),
            FileUIFocus::Remote => Step::Done(self.remote.expand_selection()),
        }
    }

    /// Hands the local pane what was read of its parent after it asked for
    /// it.
    pub fn deliver_local(
        &mut self,
        read: Result<Vec<LocalEntry>, Error>,
        settings: &Settings,
    ) -> (step: Step)
        ensures
            final(self)@.focus == old(self)@.focus,
            final(self)@.remote == old(self)@.remote,
            final(self).has_index() == old(self).has_index(),
            (final(self)@.local, step@) == old(self)@.local.delivered(
                local_fetch(old(self)@.local.parent, read_view(read), settings.show_hidden_files),
            ),
    {
        self.local.deliver(read, settings)
    }

    /// Flips the highlight of the entry under the cursor of the focused
    /// pane.
    pub fn toggle_highlight_selection(&mut self) -> (r: Result<(), Error>)
        ensures
            final(self)@.focus == old(self)@.focus,
            final(self).has_index() == old(self).has_index(),
            ({
                let before = match old(self)@.focus {
                    FileUIFocus::Local => old(self)@.local,
                    FileUIFocus::Remote => old(self)@.remote,
                };
                let after = match old(self)@.focus {
                    FileUIFocus::Local => final(self)@.local,
                    FileUIFocus::Remote => final(self)@.remote,
                };
                match before.selection() {
                    None => outcome_view(r) == Err::<(), ErrorView>(
                        ErrorView::VecAccessError(before.cursor_idx),
                    ) && after == before,
                    Some(_) => r is Ok && after == before.toggled(before.cursor_idx as int),
                }
            }),
            old(self)@.focus == FileUIFocus::Local ==> final(self)@.remote == old(self)@.remote,
            old(self)@.focus == FileUIFocus::Remote ==> final(self)@.local == old(self)@.local,
    {
        match self.focus {
            FileUIFocus::Local => self.local.toggle_highlight_selection(),
            FileUIFocus::Remote => self.remote.toggle_highlight_selection(),
        }
    }

    /// Refreshes both panes: the local one from what was read of its
    /// parent, the remote one from its index. Both are refreshed whatever
    /// comes of the other; the first failure is the outcome.
    pub fn refresh_views(
        &mut self,
        read: Result<Vec<LocalEntry>, Error>,
        settings: &Settings,
    ) -> (r: Result<(), Error>)
        ensures
            final(self)@.focus == old(self)@.focus,
            final(self).has_index() == old(self).has_index(),
            final(self)@.local == old(self)@.local.resolved(
                local_fetch(old(self)@.local.parent, read_view(read), settings.show_hidden_files),
            ),
            exists|fetched: Result<Seq<FileItemView>, ErrorView>|
                #![trigger old(self)@.remote.resolved(fetched)]
                index_fetch(old(self).has_index(), old(self)@.remote.parent, fetched)
                    && final(self)@.remote == old(self)@.remote.resolved(fetched) && outcome_view(r)
                    == match read {
                    Err(e) => Err::<(), ErrorView>(e@),
                    Ok(_) => match fetched {
                        Err(e) => Err::<(), ErrorView>(e),
                        Ok(_) => Ok(()),
                    },
                },
    {
        let local = self.local.resolve(read, settings);
        let remote = self.remote.resolve();
        match local {
            Err(e) => Err(e),
            Ok(_) => remote,
        }
    }

    /// Draws both panes, the local one at the height `local_height` and the
    /// remote one at `remote_height`, and gives the lines of each.
    pub fn render(&mut self, local_height: u16, remote_height: u16, theme: &Theme) -> (r: (
        Vec<ListRow>,
        Vec<ListRow>,
    ))
        ensures
            final(self)@.focus == old(self)@.focus,
            final(self).has_index() == old(self).has_index(),
            final(self)@.focus_marked(),
            final(self)@.local == old(self)@.marked().local.drawn_at(local_height),
            final(self)@.remote == old(self)@.marked().remote.drawn_at(remote_height),
            row_views(r.0@) == final(self)@.local.rows(local_height, *theme),
            row_views(r.1@) == final(self)@.remote.rows(remote_height, *theme),
    {
        self.mark_focus();
        let left = self.local.render(local_height, theme);
        let right = self.remote.render(remote_height, theme);
        (left, right)
    }

    pub fn focus(&self) -> (r: FileUIFocus)
        ensures
            r == self@.focus,
    {
        self.focus
    }

    /// The pane of the local tree.
    pub fn local(&self) -> (r: &DirBlock)
        ensures
            r@ == self@.local,
    {
        &self.local
    }

    /// The pane of the remote tree.
    pub fn remote(&self) -> (r: &DBBlock)
        ensures
            r@ == self@.remote,
            r.has_index() == self.has_index(),
    {
        &self.remote
    }
}

/// The controller for the index `db` and the local directory that the
/// settings name, of which `read` was read: both panes resolved, the focus
/// on the local one.
pub fn file_ui(
    db: Arc<rusqlite::Connection>,
    read: Result<Vec<LocalEntry>, Error>,
    settings: &Settings,
) -> (r: Result<FileUI, Error>)
    ensures
        read matches Err(e) ==> r matches Err(why) && why@ == e@,
        read is Ok ==> (r matches Err(why) ==> why is SQLiteError),
        r matches Ok(ui) ==> {
            &&& read is Ok
            &&& ui.has_index()
            &&& ui@.focus == FileUIFocus::Local
            &&& ui@.focus_marked()
            &&& ui@.local == (ListBlockView {
                focused: true,
                ..ListBlockView::initial(
                    "dir"@,
                    crate::ui::block::TreeSource::Filesystem,
                    settings.default_local_dir@,
                ).resolved(
                    local_fetch(
                        settings.default_local_dir@,
                        read_view(read),
                        settings.show_hidden_files,
                    ),
                )
            })
            &&& exists|fetched: Result<Seq<FileItemView>, ErrorView>|
                #![trigger index_fetch(true, settings.default_remote_dir@, fetched)]
                fetched is Ok && index_fetch(true, settings.default_remote_dir@, fetched)
                    && ui@.remote == ListBlockView::initial(
                    "db"@,
                    crate::ui::block::TreeSource::Index,
                    settings.default_remote_dir@,
                ).resolved(fetched)
        },
{
    let mut ui = FileUI {
        local: DirBlock::new("dir", settings.default_local_dir.as_str()),
        remote: DBBlock::starting_at("db", Some(db), settings.default_remote_dir.as_str()),
        focus: FileUIFocus::Local,
    };
    match ui.local.resolve(read, settings) {
        Err(e) => {
            return Err(e);
        },
        Ok(_) => {},
    }
    match ui.remote.resolve() {
        Err(e) => {
            return Err(e);
        },
        Ok(_) => {},
    }
    ui.mark_focus();
    Ok(ui)
}

} // verus!
