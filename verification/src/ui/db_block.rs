//! The pane of the remote tree: how rows of the tree index become a
//! listing, and the block that asks the index for them.

use crate::config::Theme;
use crate::fs_interface::{children_of, parent_of, MetadataType};
use crate::intern_error::{Error, ErrorView};
use crate::store::{IndexEntry, IndexEntryView};
use crate::text::same_text;
use crate::ui::block::{
    fetched_view, outcome_view, row_views, FSListBlock, ListBlock, ListBlockView, ListRow, Step,
    StepView, TreeSource,
};
use crate::ui::file_item::{item_views, sort_items, sorted_items, FileItem, FileItemView};
use crate::ui::CursorDirection;
use std::sync::Arc;
use vstd::prelude::*;

verus! {

/// The rows that the index gave, each by its view; `None` stands for a row
/// that could not be read.
pub open spec fn row_options(rows: Seq<Option<IndexEntry>>) -> Seq<Option<IndexEntryView>> {
    rows.map_values(
        |r: Option<IndexEntry>|
            match r {
                Some(e) => Some(e@),
                None => None,
            },
    )
}

/// A row of the index as an entry of a listing.
pub open spec fn index_item(e: IndexEntryView) -> FileItemView {
    FileItemView {
        uuid: e.uuid,
        path: "."@,
        name: e.name,
        file_type: MetadataType::named(e.object_type),
        highlighted: false,
    }
}

/// The rows that a listing holds, in the order in which the index gave
/// them: those that could be read and whose kind is a collection or a
/// document.
pub open spec fn listed_rows(rows: Seq<Option<IndexEntryView>>) -> Seq<FileItemView>
    decreases rows.len(),
{
    if rows.len() == 0 {
        Seq::empty()
    } else {
        let rest = listed_rows(rows.drop_last());
        match rows.last() {
            Some(e) => if MetadataType::named(e.object_type) != MetadataType::ErrorType {
                rest.push(index_item(e))
            } else {
                rest
            },
            None => rest,
        }
    }
}

/// The link from an object to the object `up` that holds it.
pub open spec fn index_link(up: Seq<char>) -> FileItemView {
    FileItemView {
        uuid: up,
        path: "."@,
        name: Seq::empty(),
        file_type: MetadataType::ReturnType,
        highlighted: false,
    }
}

/// The entries of a listing before they are put in order: the link to the
/// parent, if there is one, then the rows.
pub open spec fn index_entries(
    up: Option<Seq<char>>,
    rows: Seq<Option<IndexEntryView>>,
) -> Seq<FileItemView> {
    match up {
        Some(parent) => seq![index_link(parent)] + listed_rows(rows),
        None => listed_rows(rows),
    }
}

/// The listing of an object whose parent is `up` and whose children the
/// index gave as `rows`.
pub open spec fn index_listing(
    up: Option<Seq<char>>,
    rows: Seq<Option<IndexEntryView>>,
) -> Seq<FileItemView> {
    sorted_items(index_entries(up, rows))
}

/// The parent that the index gave, by its view.
pub open spec fn up_view(up: Option<String>) -> Option<Seq<char>> {
    match up {
        Some(parent) => Some(parent@),
        None => None,
    }
}

/// What a block of the remote tree can be handed for its parent `parent`:
/// without an index, the failure that says so; with one, a failure of the
/// index or the listing of some rows, with a link to the parent unless
/// `parent` is the root.
pub open spec fn index_fetch(
    has_index: bool,
    parent: Seq<char>,
    fetched: Result<Seq<FileItemView>, ErrorView>,
) -> bool {
    match fetched {
        Ok(items) => has_index && exists|
            up: Option<Seq<char>>,
            rows: Seq<Option<IndexEntryView>>,
        |
            (parent == "root"@ ==> up is None) && items == #[trigger] index_listing(up, rows),
        Err(e) => if has_index {
            e is SQLiteError
        } else {
            e == ErrorView::NoDBConnectionError
        },
    }
}

/// The listing of an object whose parent is `up` and whose children the
/// index gave as `rows`.
pub fn listing_of_rows(up: Option<String>, rows: &Vec<Option<IndexEntry>>) -> (r: Vec<FileItem>)
    ensures
        item_views(r@) == index_listing(up_view(up), row_options(rows@)),
{
    let mut items: Vec<FileItem> = Vec::new();
    let ghost mut head: Seq<FileItemView> = Seq::empty();
    match up {
        Some(parent) => {
            let link = FileItem {
                uuid: parent,
                path: ".".to_owned(),
                name: String::new(),
                file_type: MetadataType::ReturnType,
                highlighted: false,
            };
            proof {
                head = seq![link@];
            }
            items.push(link);
        },
        None => {},
    }
    assert(item_views(items@) =~= head);
    let mut i: usize = 0;
    while i < rows.len()
        invariant
            i <= rows.len(),
            item_views(items@) == head + listed_rows(row_options(rows@).take(i as int)),
        decreases rows.len() - i,
    {
        let ghost before = item_views(items@);
        let ghost given = row_options(rows@);
        assert(given.take(i as int + 1).drop_last() =~= given.take(i as int));
        assert(given.take(i as int + 1).last() == given[i as int]);
        match &rows[i] {
            Some(entry) => {
                let kind = MetadataType::from_str(entry.object_type.as_str());
                if kind != MetadataType::ErrorType {
                    let item = FileItem {
                        uuid: entry.uuid.clone(),
                        path: ".".to_owned(),
                        name: entry.name.clone(),
                        file_type: kind,
                        highlighted: false,
                    };
                    items.push(item);
                    assert(item_views(items@) =~= before.push(index_item(entry@)));
                }
            },
            None => {},
        }
        i += 1;
    }
    assert(row_options(rows@).take(rows.len() as int) =~= row_options(rows@));
    sort_items(&items)
}

/// The block of the pane that shows the remote tree.
pub struct DBBlock {
    block: ListBlock,
    db_connection: Option<Arc<rusqlite::Connection>>,
}

impl View for DBBlock {
    type V = ListBlockView;

    closed spec fn view(&self) -> ListBlockView {
        self.block@
    }
}

impl DBBlock {
    /// Whether the block was given an index to ask.
    pub closed spec fn has_index(&self) -> bool {
        self.db_connection is Some
    }

    /// A block titled `title` that lists the root of the index `db_conn`.
    pub fn new(title: &str, db_conn: Option<Arc<rusqlite::Connection>>) -> (r: Self)
        ensures
            r@.wf(),
            r@ == ListBlockView::initial(title@, TreeSource::Index, "root"@),
            r.has_index() == db_conn is Some,
    {
        DBBlock { block: ListBlock::new(title, TreeSource::Index, "root"), db_connection: db_conn }
    }

    /// A block titled `title` that lists the object `start` of the index
    /// `db_conn`.
    pub fn starting_at(title: &str, db_conn: Option<Arc<rusqlite::Connection>>, start: &str) -> (r:
        Self)
        ensures
            r@.wf(),
            r@ == ListBlockView::initial(title@, TreeSource::Index, start@),
            r.has_index() == db_conn is Some,
    {
        DBBlock { block: ListBlock::new(title, TreeSource::Index, start), db_connection: db_conn }
    }

    /// Asks the index for the listing of the block's parent.
    fn fetch(&self) -> (r: Result<Vec<FileItem>, Error>)
        ensures
            index_fetch(self.has_index(), self@.parent, fetched_view(r)),
    {
        let db = match &self.db_connection {
            None => {
                return Err(Error::NoDBConnectionError);
            },
            Some(db) => db,
        };
        let parent = self.block.parent_reference();
        let rows = match children_of(db, parent.as_str()) {
            Err(e) => {
                return Err(e);
            },
            Ok(rows) => rows,
        };
        let up = if same_text(parent.as_str(), "root") {
            None
        } else {
            match parent_of(db, parent.as_str()) {
                Err(e) => {
                    return Err(e);
                },
                Ok(up) => up,
            }
        };
        let ghost up_seen = up_view(up);
        let items = listing_of_rows(up, &rows);
        assert(item_views(items@) == index_listing(up_seen, row_options(rows@)));
        Ok(items)
    }

    /// Refreshes the listing from the index.
    pub fn resolve(&mut self) -> (r: Result<(), Error>)
        ensures
            old(self)@.wf() ==> final(self)@.wf(),
            final(self).has_index() == old(self).has_index(),
            exists|fetched: Result<Seq<FileItemView>, ErrorView>|
                #![trigger old(self)@.resolved(fetched)]
                index_fetch(old(self).has_index(), old(self)@.parent, fetched) && final(self)@
                    == old(self)@.resolved(fetched) && match fetched {
                    Ok(_) => r is Ok,
                    Err(e) => outcome_view(r) == Err::<(), ErrorView>(e),
                },
    {
        let fetched = self.fetch();
        let ghost seen = fetched_view(fetched);
        let r = self.block.resolve(fetched);
        assert(self@ == old(self)@.resolved(seen));
        r
    }

    /// Expands the entry under the cursor, asking the index for each
    /// listing that the block needs.
    pub fn expand_selection(&mut self) -> (r: Result<(), Error>)
        ensures
            old(self)@.wf() ==> final(self)@.wf(),
            final(self).has_index() == old(self).has_index(),
            exists|
                first: Result<Seq<FileItemView>, ErrorView>,
                second: Result<Seq<FileItemView>, ErrorView>,
            |
                #![trigger old(self)@.expansion(first, second)]
                {
                    let (begun, step) = old(self)@.expanded();
                    &&& (final(self)@, outcome_view(r)) == old(self)@.expansion(first, second)
                    &&& step is Fetch ==> index_fetch(old(self).has_index(), begun.parent, first)
                    &&& step is Fetch && begun.delivered(first).1 is Fetch ==> index_fetch(
                        old(self).has_index(),
                        begun.delivered(first).0.parent,
                        second,
                    )
                },
    {
        let ghost unused: Result<Seq<FileItemView>, ErrorView> = Err(ErrorView::PlaceholderError);
        match self.block.expand_selection() {
            Step::Done(r) => {
                assert((self@, outcome_view(r)) == old(self)@.expansion(unused, unused));
                r
            },
            Step::Fetch => {
                let first = self.fetch();
                let ghost first_seen = fetched_view(first);
                match self.block.deliver(first) {
                    Step::Done(r) => {
                        assert((self@, outcome_view(r)) == old(self)@.expansion(
                            first_seen,
                            unused,
                        ));
                        r
                    },
                    Step::Fetch => {
                        let second = self.fetch();
                        let ghost second_seen = fetched_view(second);
                        let r = match self.block.deliver(second) {
                            Step::Done(r) => r,
                            Step::Fetch => vstd::pervasive::unreached(),
                        };
                        assert((self@, outcome_view(r)) == old(self)@.expansion(
                            first_seen,
                            second_seen,
                        ));
                        r
                    },
                }
            },
        }
    }

    /// Tells the pane whether it has the focus.
    pub fn set_focus(&mut self, focused: bool)
        ensures
            old(self)@.wf() ==> final(self)@.wf(),
            final(self)@ == (ListBlockView { focused, ..old(self)@ }),
            final(self).has_index() == old(self).has_index(),
    {
        self.block.set_focus(focused)
    }

    /// The state of the pane.
    pub fn block(&self) -> (r: &ListBlock)
        ensures
            r@ == self@,
    {
        &self.block
    }
}

impl FSListBlock for DBBlock {
    open spec fn state(&self) -> ListBlockView {
        self@
    }

    fn get_name(&self) -> (r: String) {
        self.block.get_name()
    }

    fn get_focus(&self) -> (r: bool) {
        self.block.get_focus()
    }

    fn get_parent(&self) -> (r: FileItem) {
        self.block.get_parent()
    }

    fn get_offset_pos(&self) -> (r: usize) {
        self.block.get_offset_pos()
    }

    fn get_resolved_content(&self) -> (r: &Vec<FileItem>) {
        self.block.get_resolved_content()
    }

    fn get_selected_content(&self) -> (r: &Vec<FileItem>) {
        self.block.get_selected_content()
    }

    fn clear_selected_content(&mut self)
        ensures
            final(self).has_index() == old(self).has_index(),
     {
        self.block.clear_selected_content()
    }

    fn get_cursor_idx(&self) -> (r: usize) {
        self.block.get_cursor_idx()
    }

    fn get_cursor_selection(&self) -> (r: Option<&FileItem>) {
        self.block.get_cursor_selection()
    }

    fn cursor_move(&mut self, direction: CursorDirection)
        ensures
            final(self).has_index() == old(self).has_index(),
     {
        self.block.cursor_move(direction)
    }

    fn toggle_highlight_selection(&mut self) -> (r: Result<(), Error>)
        ensures
            final(self).has_index() == old(self).has_index(),
     {
        self.block.toggle_highlight_selection()
    }

    fn generate_list(&self, height: u16, theme: &Theme) -> (r: Vec<ListRow>) {
        self.block.generate_list(height, theme)
    }

    fn render(&mut self, height: u16, theme: &Theme) -> (r: Vec<ListRow>)
        ensures
            final(self).has_index() == old(self).has_index(),
     {
        self.block.render(height, theme)
    }
}

} // verus!
