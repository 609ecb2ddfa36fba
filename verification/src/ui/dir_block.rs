//! The pane of the local tree: how a directory that was read becomes a
//! listing, and the block that shows it.

use crate::config::{Settings, Theme};
use crate::fs_interface::MetadataType;
use crate::intern_error::{Error, ErrorView};
use crate::paths::{is_root, is_root_path, join, join_path, parent_dir, parent_path};
use crate::text::{chars_of, string_of};
use crate::ui::block::{
    fetched_view, outcome_view, row_views, FSListBlock, ListBlock, ListBlockView, ListRow, Step,
    TreeSource,
};
use crate::ui::file_item::{item_views, sort_items, sorted_items, FileItem, FileItemView};
use crate::ui::CursorDirection;
use vstd::prelude::*;

verus! {

/// What reading a directory tells of one of its entries.
#[derive(Clone, Debug, PartialEq, Eq)]
pub struct LocalEntry {
    pub name: String,
    pub is_dir: bool,
    pub is_file: bool,
}

pub struct LocalEntryView {
    pub name: Seq<char>,
    pub is_dir: bool,
    pub is_file: bool,
}

impl View for LocalEntry {
    type V = LocalEntryView;

    open spec fn view(&self) -> LocalEntryView {
        LocalEntryView { name: self.name@, is_dir: self.is_dir, is_file: self.is_file }
    }
}

/// The views of the entries of `entries`, in order.
pub open spec fn entry_views(entries: Seq<LocalEntry>) -> Seq<LocalEntryView> {
    entries.map_values(|e: LocalEntry| e@)
}

/// What was read of a directory, or the failure to read it, by its view.
pub open spec fn read_view(read: Result<Vec<LocalEntry>, Error>) -> Result<
    Seq<LocalEntryView>,
    ErrorView,
> {
    match read {
        Ok(entries) => Ok(entry_views(entries@)),
        Err(e) => Err(e@),
    }
}

/// A name that marks its entry as hidden: it starts with a dot.
pub open spec fn is_hidden(name: Seq<char>) -> bool {
    name.len() > 0 && name[0] == '.'
}

/// Whether a listing holds the entry `e`: it is a directory or a regular
/// file, and it is not hidden unless hidden entries are shown.
pub open spec fn is_listed(e: LocalEntryView, show_hidden: bool) -> bool {
    MetadataType::of_file_type(e.is_dir, e.is_file) != MetadataType::ErrorType && (show_hidden
        || !is_hidden(e.name))
}

/// The entry `e` of the directory `parent` as an entry of a listing.
pub open spec fn entry_item(parent: Seq<char>, e: LocalEntryView) -> FileItemView {
    FileItemView {
        name: e.name,
        path: join(parent, e.name),
        file_type: MetadataType::of_file_type(e.is_dir, e.is_file),
        ..FileItem::new_view()
    }
}

/// The entries of `entries` that a listing of `parent` holds, in the order
/// in which they were read.
pub open spec fn listed_entries(
    parent: Seq<char>,
    entries: Seq<LocalEntryView>,
    show_hidden: bool,
) -> Seq<FileItemView>
    decreases entries.len(),
{
    if entries.len() == 0 {
        Seq::empty()
    } else {
        let rest = listed_entries(parent, entries.drop_last(), show_hidden);
        if is_listed(entries.last(), show_hidden) {
            rest.push(entry_item(parent, entries.last()))
        } else {
            rest
        }
    }
}

/// The link from the directory `parent` to the directory that holds it.
pub open spec fn parent_link(parent: Seq<char>) -> FileItemView {
    FileItemView {
        file_type: MetadataType::ReturnType,
        path: parent_dir(parent),
        ..FileItem::new_view()
    }
}

/// The entries of a listing of `parent` before they are put in order: the
/// link to the parent, unless `parent` is the root, then what was read.
pub open spec fn local_entries(
    parent: Seq<char>,
    entries: Seq<LocalEntryView>,
    show_hidden: bool,
) -> Seq<FileItemView> {
    if is_root(parent) {
        listed_entries(parent, entries, show_hidden)
    } else {
        seq![parent_link(parent)] + listed_entries(parent, entries, show_hidden)
    }
}

/// The listing of the directory `parent` of which `entries` was read.
pub open spec fn local_listing(
    parent: Seq<char>,
    entries: Seq<LocalEntryView>,
    show_hidden: bool,
) -> Seq<FileItemView> {
    sorted_items(local_entries(parent, entries, show_hidden))
}

/// What a block of the local tree is handed for its parent `parent` when
/// the directory was read with the outcome `read`.
pub open spec fn local_fetch(
    parent: Seq<char>,
    read: Result<Seq<LocalEntryView>, ErrorView>,
    show_hidden: bool,
) -> Result<Seq<FileItemView>, ErrorView> {
    match read {
        Ok(entries) => Ok(local_listing(parent, entries, show_hidden)),
        Err(e) => Err(e),
    }
}

/// The listing of the directory `parent` of which `entries` was read.
pub fn dir_listing(parent: &str, entries: &Vec<LocalEntry>, show_hidden: bool) -> (r: Vec<
    FileItem,
>)
    ensures
        item_views(r@) == local_listing(parent@, entry_views(entries@), show_hidden),
{
    let parent_chars = chars_of(parent);
    let mut items: Vec<FileItem> = Vec::new();
    let ghost mut head: Seq<FileItemView> = Seq::empty();
    if !is_root_path(&parent_chars) {
        let up = string_of(&parent_path(&parent_chars));
        let link = FileItem::new().file_type(MetadataType::ReturnType).path(up.as_str());
        proof {
            head = seq![link@];
        }
        items.push(link);
    }
    assert(item_views(items@) =~= head);
    let mut i: usize = 0;
    while i < entries.len()
        invariant
            i <= entries.len(),
            parent_chars@ == parent@,
            item_views(items@) == head + listed_entries(
                parent@,
                entry_views(entries@).take(i as int),
                show_hidden,
            ),
        decreases entries.len() - i,
    {
        let ghost before = item_views(items@);
        let ghost read = entry_views(entries@);
        assert(read.take(i as int + 1).drop_last() =~= read.take(i as int));
        assert(read.take(i as int + 1).last() == entries@[i as int]@);
        let entry = &entries[i];
        let kind = MetadataType::from_file_type(entry.is_dir, entry.is_file);
        let name = chars_of(entry.name.as_str());
        let hidden = name.len() > 0 && name[0] == '.';
        if kind != MetadataType::ErrorType && (show_hidden || !hidden) {
            let path = string_of(&join_path(&parent_chars, &name));
            let item = FileItem::new().name(entry.name.as_str()).file_type(kind).path(
                path.as_str(),
            );
            items.push(item);
            assert(item_views(items@) =~= before.push(entry_item(parent@, entries@[i as int]@)));
        }
        i += 1;
    }
    assert(entry_views(entries@).take(entries.len() as int) =~= entry_views(entries@));
    sort_items(&items)
}

/// What a block of the local tree is handed for the outcome `read` of
/// reading its parent `parent`.
pub fn dir_fetch(parent: &str, read: Result<Vec<LocalEntry>, Error>, show_hidden: bool) -> (r:
    Result<Vec<FileItem>, Error>)
    ensures
        fetched_view(r) == local_fetch(parent@, read_view(read), show_hidden),
{
    match read {
        Ok(entries) => Ok(dir_listing(parent, &entries, show_hidden)),
        Err(e) => Err(e),
    }
}

/// The block of the pane that shows the local tree.
#[derive(Debug)]
pub struct DirBlock {
    block: ListBlock,
}

impl View for DirBlock {
    type V = ListBlockView;

    closed spec fn view(&self) -> ListBlockView {
        self.block@
    }
}

impl DirBlock {
    /// A block titled `title` that lists the directory `root`.
    pub fn new(title: &str, root: &str) -> (r: Self)
        ensures
            r@.wf(),
            r@ == ListBlockView::initial(title@, TreeSource::Filesystem, root@),
    {
        DirBlock { block: ListBlock::new(title, TreeSource::Filesystem, root) }
    }

    /// Refreshes the listing from what was read of the block's parent.
    pub fn resolve(&mut self, read: Result<Vec<LocalEntry>, Error>, settings: &Settings) -> (r:
        Result<(), Error>)
        ensures
            old(self)@.wf() ==> final(self)@.wf(),
            final(self)@ == old(self)@.resolved(
                local_fetch(old(self)@.parent, read_view(read), settings.show_hidden_files),
            ),
            match read {
                Ok(_) => r is Ok,
                Err(e) => outcome_view(r) == Err::<(), ErrorView>(e@),
            },
    {
        let fetched = dir_fetch(
            self.block.parent_reference().as_str(),
            read,
            settings.show_hidden_files,
        );
        self.block.resolve(fetched)
    }

    /// Expands the entry under the cursor. On `Step::Fetch` the caller reads
    /// the directory at `parent_reference` and hands it to `deliver`.
    pub fn expand_selection(&mut self) -> (step: Step)
        ensures
            old(self)@.wf() ==> final(self)@.wf(),
            (final(self)@, step@) == old(self)@.expanded(),
    {
        self.block.expand_selection()
    }

    /// Takes what was read of the block's parent after the block asked for
    /// it.
    pub fn deliver(&mut self, read: Result<Vec<LocalEntry>, Error>, settings: &Settings) -> (step:
        Step)
        ensures
            old(self)@.wf() ==> final(self)@.wf(),
            (final(self)@, step@) == old(self)@.delivered(
                local_fetch(old(self)@.parent, read_view(read), settings.show_hidden_files),
            ),
    {
        let fetched = dir_fetch(
            self.block.parent_reference().as_str(),
            read,
            settings.show_hidden_files,
        );
        self.block.deliver(fetched)
    }

    /// Tells the pane whether it has the focus.
    pub fn set_focus(&mut self, focused: bool)
        ensures
            old(self)@.wf() ==> final(self)@.wf(),
            final(self)@ == (ListBlockView { focused, ..old(self)@ }),
    {
        self.block.set_focus(focused)
    }

    /// The state of the pane.
    pub fn block(&self) -> (r: &ListBlock)
        ensures
            r@ == self@,
    {
        &self.block
    }
}

impl FSListBlock for DirBlock {
    open spec fn state(&self) -> ListBlockView {
        self@
    }

    fn get_name(&self) -> (r: String) {
        self.block.get_name()
    }

    fn get_focus(&self) -> (r: bool) {
        self.block.get_focus()
    }

    fn get_parent(&self) -> (r: FileItem) {
        self.block.get_parent()
    }

    fn get_offset_pos(&self) -> (r: usize) {
        self.block.get_offset_pos()
    }

    fn get_resolved_content(&self) -> (r: &Vec<FileItem>) {
        self.block.get_resolved_content()
    }

    fn get_selected_content(&self) -> (r: &Vec<FileItem>) {
        self.block.get_selected_content()
    }

    fn clear_selected_content(&mut self) {
        self.block.clear_selected_content()
    }

    fn get_cursor_idx(&self) -> (r: usize) {
        self.block.get_cursor_idx()
    }

    fn get_cursor_selection(&self) -> (r: Option<&FileItem>) {
        self.block.get_cursor_selection()
    }

    fn cursor_move(&mut self, direction: CursorDirection) {
        self.block.cursor_move(direction)
    }

    fn toggle_highlight_selection(&mut self) -> (r: Result<(), Error>) {
        self.block.toggle_highlight_selection()
    }

    fn generate_list(&self, height: u16, theme: &Theme) -> (r: Vec<ListRow>) {
        self.block.generate_list(height, theme)
    }

    fn render(&mut self, height: u16, theme: &Theme) -> (r: Vec<ListRow>) {
        self.block.render(height, theme)
    }
}

} // verus!
