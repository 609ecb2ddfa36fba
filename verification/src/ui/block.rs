//! The list block: the state of one pane and the transitions that key
//! actions cause in it.
//!
//! A block never reads its tree itself. Where a transition needs a fresh
//! listing, it answers `Step::Fetch`; the caller fetches the listing of the
//! block's parent and hands it to `deliver`.

use crate::config::{Style, Theme};
use crate::fs_interface::MetadataType;
use crate::intern_error::{Error, ErrorView};
use crate::text::{chars_of, extend_chars, string_of};
use crate::ui::file_item::{item_views, FileItem, FileItemView};
use crate::ui::CursorDirection;
use vstd::prelude::*;

verus! {

/// Which of the two trees a block lists, and with it what refers to an
/// entry: its path in the local tree, its identifier in the remote one.
#[derive(Copy, Clone, Debug, PartialEq, Eq, Structural)]
pub enum TreeSource {
    Filesystem,
    Index,
}

/// What a block is waiting for.
#[derive(Debug, PartialEq, Eq)]
pub enum Pending {
    /// Nothing: a listing that arrives is a plain refresh.
    Idle,
    /// The listing of the entry that was just expanded; the text is the
    /// parent to return to if it cannot be had.
    Drilling(String),
    /// The listing of the parent that the block returned to after the
    /// failure that it keeps.
    Reverting(Error),
}

pub enum PendingView {
    Idle,
    Drilling(Seq<char>),
    Reverting(ErrorView),
}

impl View for Pending {
    type V = PendingView;

    open spec fn view(&self) -> PendingView {
        match *self {
            Pending::Idle => PendingView::Idle,
            Pending::Drilling(prev) => PendingView::Drilling(prev@),
            Pending::Reverting(why) => PendingView::Reverting(why@),
        }
    }
}

/// What a block asks of its caller after a transition.
#[derive(Debug, PartialEq, Eq)]
pub enum Step {
    /// Fetch the listing of the block's parent and deliver it.
    Fetch,
    /// The action is over, with this outcome.
    Done(Result<(), Error>),
}

pub enum StepView {
    Fetch,
    Done(Result<(), ErrorView>),
}

/// The outcome of an action with its failure, if any, taken by its view.
pub open spec fn outcome_view(r: Result<(), Error>) -> Result<(), ErrorView> {
    match r {
        Ok(_) => Ok(()),
        Err(e) => Err(e@),
    }
}

/// A fetched listing, or the failure to fetch it, taken by its view.
pub open spec fn fetched_view(r: Result<Vec<FileItem>, Error>) -> Result<
    Seq<FileItemView>,
    ErrorView,
> {
    match r {
        Ok(items) => Ok(item_views(items@)),
        Err(e) => Err(e@),
    }
}

impl View for Step {
    type V = StepView;

    open spec fn view(&self) -> StepView {
        match *self {
            Step::Fetch => StepView::Fetch,
            Step::Done(r) => StepView::Done(outcome_view(r)),
        }
    }
}

/// The state of one pane.
#[derive(Debug)]
pub struct ListBlock {
    name: String,
    source: TreeSource,
    parent: String,
    cursor_idx: usize,
    offset_pos: usize,
    focused: bool,
    content: Vec<FileItem>,
    selected_content: Vec<FileItem>,
    render_height: u16,
    pending: Pending,
}

pub struct ListBlockView {
    /// The title of the pane.
    pub name: Seq<char>,
    pub source: TreeSource,
    /// The directory or object whose entries the block lists.
    pub parent: Seq<char>,
    pub cursor_idx: usize,
    /// The position of the first entry that the pane shows.
    pub offset_pos: usize,
    pub focused: bool,
    /// The listing as it was last resolved.
    pub content: Seq<FileItemView>,
    /// The entries of the multi-selection.
    pub selected_content: Seq<FileItemView>,
    /// The height of the area that the pane was last drawn in.
    pub render_height: u16,
    pub pending: PendingView,
}

/// The number of entries below the first that a pane of the height
/// `render_height` shows.
pub open spec fn visible_height(render_height: u16) -> int {
    if render_height >= crate::ui::WIDGET_OFFSET {
        render_height - crate::ui::WIDGET_OFFSET
    } else {
        0
    }
}

/// The number of positions by which `direction` moves the cursor.
pub open spec fn cursor_delta(direction: CursorDirection) -> int {
    match direction {
        CursorDirection::Down => 1,
        CursorDirection::Up => -1,
        CursorDirection::PgDn => 15,
        CursorDirection::PgUp => -15,
    }
}

/// Whether some entry of `s` stands for the same object as `item`.
pub open spec fn holds_entity(s: Seq<FileItemView>, item: FileItemView) -> bool {
    exists|i: int| 0 <= i < s.len() && (#[trigger] s[i]).same_entity(item)
}

/// `s` without the entries that stand for the same object as `item`.
pub open spec fn without_entity(s: Seq<FileItemView>, item: FileItemView) -> Seq<FileItemView>
    decreases s.len(),
{
    if s.len() == 0 {
        s
    } else if s.last().same_entity(item) {
        without_entity(s.drop_last(), item)
    } else {
        without_entity(s.drop_last(), item).push(s.last())
    }
}

/// No two entries of `s` stand for the same object.
pub open spec fn distinct_entities(s: Seq<FileItemView>) -> bool {
    forall|i: int, j: int|
        0 <= i < j < s.len() ==> !(#[trigger] s[i]).same_entity(#[trigger] s[j])
}

/// One line of a pane as it is drawn.
#[derive(Debug, PartialEq, Eq)]
pub struct ListRow {
    pub label: String,
    pub style: Style,
}

pub struct ListRowView {
    pub label: Seq<char>,
    pub style: Style,
}

impl View for ListRow {
    type V = ListRowView;

    open spec fn view(&self) -> ListRowView {
        ListRowView { label: self.label@, style: self.style }
    }
}

/// The views of the rows of `rows`, in order.
pub open spec fn row_views(rows: Seq<ListRow>) -> Seq<ListRowView> {
    rows.map_values(|r: ListRow| r@)
}

/// Whether a pane shows entries of this kind at all.
pub open spec fn is_shown(kind: MetadataType) -> bool {
    kind == MetadataType::ReturnType || kind == MetadataType::CollectionType || kind
        == MetadataType::DocumentType
}

/// The text that a pane shows for `item`.
pub open spec fn label_of(item: FileItemView) -> Seq<char> {
    match item.file_type {
        MetadataType::ReturnType => "../"@,
        MetadataType::CollectionType => "/"@ + item.name,
        _ => item.name,
    }
}

/// The style of a pane as a whole: the foreground of the theme on its
/// background.
pub open spec fn pane_style(theme: Theme) -> Style {
    Style {
        fg: Some(theme.foreground),
        bg: Some(theme.background),
        bold: false,
        italic: false,
        reversed: false,
    }
}

/// The style of the line of `item`: entries that open are bold, documents
/// italic; a highlighted entry has the accent colour; the line under the
/// cursor of the focused pane is reversed.
pub open spec fn style_of(item: FileItemView, under_cursor: bool, theme: Theme) -> Style {
    Style {
        fg: if item.highlighted {
            Some(theme.highlight)
        } else {
            None
        },
        bg: None,
        bold: item.opens(),
        italic: item.file_type == MetadataType::DocumentType,
        reversed: under_cursor,
    }
}

impl ListBlockView {
    /// Whether the position `at` lies in what a pane of the height `height`
    /// shows.
    pub open spec fn in_window(self, at: int, height: u16) -> bool {
        self.offset_pos <= at <= self.offset_pos + visible_height(height)
    }

    /// The line for the entry at `at`.
    pub open spec fn row_at(self, at: int, theme: Theme) -> ListRowView {
        ListRowView {
            label: label_of(self.content[at]),
            style: style_of(self.content[at], self.focused && at == self.cursor_idx, theme),
        }
    }

    /// The lines for the first `upto` entries: one for each entry in the
    /// window whose kind is shown.
    pub open spec fn rows_upto(self, upto: int, height: u16, theme: Theme) -> Seq<ListRowView>
        decreases upto,
    {
        if upto <= 0 {
            Seq::empty()
        } else {
            let rest = self.rows_upto(upto - 1, height, theme);
            if self.in_window(upto - 1, height) && is_shown(self.content[upto - 1].file_type) {
                rest.push(self.row_at(upto - 1, theme))
            } else {
                rest
            }
        }
    }

    /// The lines of the pane when it is drawn at the height `height`.
    pub open spec fn rows(self, height: u16, theme: Theme) -> Seq<ListRowView> {
        self.rows_upto(self.content.len() as int, height, theme)
    }

    /// A block that was just made: nothing listed, nothing selected, the
    /// cursor on the first position.
    pub open spec fn initial(name: Seq<char>, source: TreeSource, parent: Seq<char>) -> Self {
        ListBlockView {
            name,
            source,
            parent,
            cursor_idx: 0,
            offset_pos: 0,
            focused: false,
            content: Seq::empty(),
            selected_content: Seq::empty(),
            render_height: 0,
            pending: PendingView::Idle,
        }
    }

    /// The cursor is on an entry that the pane shows.
    pub open spec fn in_view(self) -> bool {
        self.offset_pos <= self.cursor_idx <= self.offset_pos + visible_height(
            self.render_height,
        )
    }

    /// What holds of every block, whatever was done with it: the pane shows
    /// the position of the cursor, and the multi-selection holds no object
    /// twice.
    pub open spec fn wf(self) -> bool {
        self.in_view() && distinct_entities(self.selected_content)
    }

    /// The cursor is on an entry of the listing, or on the first position
    /// of an empty one.
    pub open spec fn cursor_valid(self) -> bool {
        if self.content.len() == 0 {
            self.cursor_idx == 0
        } else {
            self.cursor_idx < self.content.len()
        }
    }

    /// The position nearest to `target` that the listing has.
    pub open spec fn clamped(self, target: int) -> int {
        if self.content.len() == 0 || target < 0 {
            0
        } else if target >= self.content.len() {
            self.content.len() - 1
        } else {
            target
        }
    }

    /// The first position shown once the cursor is at `pos`: the view
    /// follows the cursor where it would leave it.
    pub open spec fn offset_for(self, pos: int) -> int {
        let height = visible_height(self.render_height);
        if pos <= self.offset_pos {
            pos
        } else if pos >= self.offset_pos + height {
            pos - height
        } else {
            self.offset_pos as int
        }
    }

    /// The block after the cursor moved.
    pub open spec fn moved(self, direction: CursorDirection) -> Self {
        let pos = self.clamped(self.cursor_idx + cursor_delta(direction));
        ListBlockView {
            cursor_idx: pos as usize,
            offset_pos: self.offset_for(pos) as usize,
            ..self
        }
    }

    /// The block once it is drawn at the height `height`.
    pub open spec fn drawn_at(self, height: u16) -> Self {
        ListBlockView {
            render_height: height,
            offset_pos: if self.cursor_idx > self.offset_pos + visible_height(height) {
                (self.cursor_idx - visible_height(height)) as usize
            } else {
                self.offset_pos
            },
            ..self
        }
    }

    /// The entry under the cursor.
    pub open spec fn selection(self) -> Option<FileItemView> {
        if self.cursor_idx < self.content.len() {
            Some(self.content[self.cursor_idx as int])
        } else {
            None
        }
    }

    /// What refers to `item` in the tree that the block lists.
    pub open spec fn reference_of(self, item: FileItemView) -> Seq<char> {
        match self.source {
            TreeSource::Filesystem => item.path,
            TreeSource::Index => item.uuid,
        }
    }

    /// The block and its request after the entry under the cursor was
    /// expanded. An entry that opens becomes the parent, with the cursor on
    /// the first position; any other entry changes nothing. Either way the
    /// block asks for the listing of its parent. Without an entry under the
    /// cursor nothing changes and the action is over.
    pub open spec fn expanded(self) -> (Self, StepView) {
        match self.selection() {
            None => (self, StepView::Done(Err(ErrorView::VecAccessError(self.cursor_idx)))),
            Some(item) => if item.opens() {
                (
                    ListBlockView {
                        parent: self.reference_of(item),
                        cursor_idx: 0,
                        offset_pos: 0,
                        pending: PendingView::Drilling(self.parent),
                        ..self
                    },
                    StepView::Fetch,
                )
            } else {
                (ListBlockView { pending: PendingView::Idle, ..self }, StepView::Fetch)
            },
        }
    }

    /// The block and its request after the listing it asked for arrived, or
    /// failed to. A listing replaces the old one. A failure leaves the old
    /// listing; after an expansion it also returns the block to the parent
    /// it came from and asks for that parent's listing, and whatever comes
    /// of that, the action ends with the first failure.
    pub open spec fn delivered(self, fetched: Result<Seq<FileItemView>, ErrorView>) -> (
        Self,
        StepView,
    ) {
        match self.pending {
            PendingView::Idle => match fetched {
                Ok(items) => (ListBlockView { content: items, ..self }, StepView::Done(Ok(()))),
                Err(e) => (self, StepView::Done(Err(e))),
            },
            PendingView::Drilling(prev) => match fetched {
                Ok(items) => (
                    ListBlockView { content: items, pending: PendingView::Idle, ..self },
                    StepView::Done(Ok(())),
                ),
                Err(e) => (
                    ListBlockView { parent: prev, pending: PendingView::Reverting(e), ..self },
                    StepView::Fetch,
                ),
            },
            PendingView::Reverting(why) => match fetched {
                Ok(items) => (
                    ListBlockView { content: items, pending: PendingView::Idle, ..self },
                    StepView::Done(Err(why)),
                ),
                Err(_) => (
                    ListBlockView { pending: PendingView::Idle, ..self },
                    StepView::Done(Err(why)),
                ),
            },
        }
    }

    /// The block and the outcome after a whole expansion, where the first
    /// listing that the block asks for comes as `first` and the second, if
    /// it asks for one, as `second`.
    pub open spec fn expansion(
        self,
        first: Result<Seq<FileItemView>, ErrorView>,
        second: Result<Seq<FileItemView>, ErrorView>,
    ) -> (Self, Result<(), ErrorView>) {
        let (begun, step) = self.expanded();
        match step {
            StepView::Done(r) => (begun, r),
            StepView::Fetch => {
                let (next, step) = begun.delivered(first);
                match step {
                    StepView::Done(r) => (next, r),
                    StepView::Fetch => {
                        let (last, step) = next.delivered(second);
                        match step {
                            StepView::Done(r) => (last, r),
                            StepView::Fetch => (last, Ok(())),
                        }
                    },
                }
            },
        }
    }

    /// The block after a refresh: the fetched listing replaces the old one;
    /// a failure leaves the old one. Nothing else moves, and the block waits
    /// for nothing.
    pub open spec fn resolved(self, fetched: Result<Seq<FileItemView>, ErrorView>) -> Self {
        match fetched {
            Ok(items) => ListBlockView { content: items, pending: PendingView::Idle, ..self },
            Err(_) => ListBlockView { pending: PendingView::Idle, ..self },
        }
    }

    /// The block after the highlight of the entry at `at` was flipped: the
    /// entry joins the multi-selection when it becomes highlighted and
    /// leaves it when it no longer is.
    pub open spec fn toggled(self, at: int) -> Self {
        let item = self.content[at];
        let flipped = FileItemView { highlighted: !item.highlighted, ..item };
        ListBlockView {
            content: self.content.update(at, flipped),
            selected_content: if flipped.highlighted {
                if holds_entity(self.selected_content, flipped) {
                    self.selected_content
                } else {
                    self.selected_content.push(flipped)
                }
            } else {
                without_entity(self.selected_content, flipped)
            },
            ..self
        }
    }
}

/// What `without_entity` leaves was there before; it leaves every entry of
/// another object, and none of the object that was taken out.
pub proof fn lemma_without_entity_members(
    s: Seq<FileItemView>,
    item: FileItemView,
    other: FileItemView,
)
    ensures
        !holds_entity(without_entity(s, item), item),
        holds_entity(without_entity(s, item), other) ==> holds_entity(s, other),
        holds_entity(s, other) && !other.same_entity(item) ==> holds_entity(
            without_entity(s, item),
            other,
        ),
    decreases s.len(),
{
    let r = without_entity(s, item);
    if s.len() > 0 {
        let front = s.drop_last();
        let rest = without_entity(front, item);
        lemma_without_entity_members(front, item, other);
        if holds_entity(r, other) {
            let i = choose|i: int| 0 <= i < r.len() && (#[trigger] r[i]).same_entity(other);
            if i < rest.len() {
                assert(rest[i].same_entity(other));
                let j = choose|j: int|
                    0 <= j < front.len() && (#[trigger] front[j]).same_entity(other);
                assert(s[j].same_entity(other));
            } else {
                assert(s[s.len() - 1].same_entity(other));
            }
        }
        if holds_entity(s, other) && !other.same_entity(item) {
            let j = choose|j: int| 0 <= j < s.len() && (#[trigger] s[j]).same_entity(other);
            if j < front.len() {
                assert(front[j].same_entity(other));
                let i = choose|i: int|
                    0 <= i < rest.len() && (#[trigger] rest[i]).same_entity(other);
                assert(r[i].same_entity(other));
            } else {
                assert(r[r.len() - 1].same_entity(other));
            }
        }
        if holds_entity(r, item) {
            let i = choose|i: int| 0 <= i < r.len() && (#[trigger] r[i]).same_entity(item);
            if i < rest.len() {
                assert(rest[i].same_entity(item));
            }
        }
    }
}

/// Taking an object out of a multi-selection that holds no object twice
/// leaves one that holds no object twice.
pub proof fn lemma_without_entity_distinct(s: Seq<FileItemView>, item: FileItemView)
    requires
        distinct_entities(s),
    ensures
        distinct_entities(without_entity(s, item)),
    decreases s.len(),
{
    if s.len() > 0 {
        let front = s.drop_last();
        let rest = without_entity(front, item);
        assert forall|i: int, j: int| 0 <= i < j < front.len() implies !(
        #[trigger] front[i]).same_entity(#[trigger] front[j]) by {
            assert(front[i] == s[i]);
            assert(front[j] == s[j]);
        }
        lemma_without_entity_distinct(front, item);
        lemma_without_entity_members(front, item, s.last());
        if !s.last().same_entity(item) {
            let r = rest.push(s.last());
            assert forall|i: int, j: int| 0 <= i < j < r.len() implies !(
            #[trigger] r[i]).same_entity(#[trigger] r[j]) by {
                if j == rest.len() {
                    if r[i].same_entity(r[j]) {
                        assert(rest[i].same_entity(s.last()));
                        assert(holds_entity(rest, s.last()));
                        assert(holds_entity(front, s.last()));
                        let k = choose|k: int|
                            0 <= k < front.len() && (#[trigger] front[k]).same_entity(s.last());
                        assert(s[k].same_entity(s[s.len() - 1]));
                    }
                } else {
                    assert(r[i] == rest[i]);
                    assert(r[j] == rest[j]);
                }
            }
        }
    }
}

impl View for ListBlock {
    type V = ListBlockView;

    closed spec fn view(&self) -> ListBlockView {
        ListBlockView {
            name: self.name@,
            source: self.source,
            parent: self.parent@,
            cursor_idx: self.cursor_idx,
            offset_pos: self.offset_pos,
            focused: self.focused,
            content: item_views(self.content@),
            selected_content: item_views(self.selected_content@),
            render_height: self.render_height,
            pending: self.pending@,
        }
    }
}

/// The style of a pane as a whole.
pub fn list_style(theme: &Theme) -> (r: Style)
    ensures
        r == pane_style(*theme),
{
    Style {
        fg: Some(theme.foreground),
        bg: Some(theme.background),
        bold: false,
        italic: false,
        reversed: false,
    }
}

/// The position that a cursor at `cursor` reaches in a listing of `len`
/// entries when it moves by `step`, forward or back.
fn clamp_move(cursor: usize, step: usize, forward: bool, len: usize) -> (r: usize)
    requires
        step <= 15,
    ensures
        len == 0 ==> r == 0,
        len > 0 && forward ==> r == if cursor + step >= len {
            len - 1
        } else {
            cursor + step
        },
        len > 0 && !forward ==> r == if cursor - step < 0 {
            0
        } else if cursor - step >= len {
            len - 1
        } else {
            cursor - step
        },
{
    if len == 0 {
        0
    } else if forward {
        if cursor >= len || step >= len - cursor {
            len - 1
        } else {
            cursor + step
        }
    } else if cursor < step {
        0
    } else if cursor - step >= len {
        len - 1
    } else {
        cursor - step
    }
}

/// Whether some entry of `items` stands for the same object as `item`.
fn contains_entity(items: &Vec<FileItem>, item: &FileItem) -> (r: bool)
    ensures
        r == holds_entity(item_views(items@), item@),
{
    let mut i: usize = 0;
    while i < items.len()
        invariant
            i <= items.len(),
            forall|j: int| 0 <= j < i ==> !(#[trigger] item_views(items@)[j]).same_entity(item@),
        decreases items.len() - i,
    {
        if items[i].same_entity(item) {
            assert(item_views(items@)[i as int].same_entity(item@));
            return true;
        }
        i += 1;
    }
    false
}

/// The entries of `items` that do not stand for the same object as `item`.
fn remove_entity(items: &Vec<FileItem>, item: &FileItem) -> (r: Vec<FileItem>)
    ensures
        item_views(r@) == without_entity(item_views(items@), item@),
{
    let mut r: Vec<FileItem> = Vec::new();
    let mut i: usize = 0;
    assert(item_views(items@).take(0) =~= Seq::<FileItemView>::empty());
    assert(item_views(r@) =~= Seq::<FileItemView>::empty());
    while i < items.len()
        invariant
            i <= items.len(),
            item_views(r@) == without_entity(item_views(items@).take(i as int), item@),
        decreases items.len() - i,
    {
        let ghost before = item_views(r@);
        assert(item_views(items@).take(i as int + 1).drop_last() =~= item_views(items@).take(
            i as int,
        ));
        assert(item_views(items@).take(i as int + 1).last() == items@[i as int]@);
        if !items[i].same_entity(item) {
            r.push(items[i].clone());
            assert(item_views(r@) =~= before.push(items@[i as int]@));
        }
        i += 1;
    }
    assert(item_views(items@).take(items.len() as int) =~= item_views(items@));
    r
}

impl ListBlock {
    /// A block for the tree `source` that lists `parent` and is titled
    /// `title`.
    pub fn new(title: &str, source: TreeSource, parent: &str) -> (r: Self)
        ensures
            r@.wf(),
            r@ == ListBlockView::initial(title@, source, parent@),
    {
        let r = ListBlock {
            name: title.to_owned(),
            source,
            parent: parent.to_owned(),
            cursor_idx: 0,
            offset_pos: 0,
            focused: false,
            content: Vec::new(),
            selected_content: Vec::new(),
            render_height: 0,
            pending: Pending::Idle,
        };
        assert(item_views(r.content@) =~= Seq::<FileItemView>::empty());
        assert(item_views(r.selected_content@) =~= Seq::<FileItemView>::empty());
        r
    }

    /// Moves the cursor by one entry or by a page of fifteen, stopping at
    /// the ends of the listing; the view follows the cursor.
    pub fn cursor_move(&mut self, direction: CursorDirection)
        ensures
            old(self)@.wf() ==> final(self)@.wf(),
            final(self)@ == old(self)@.moved(direction),
            final(self)@.cursor_valid(),
            final(self)@.in_view(),
    {
        let len = self.content.len();
        let pos: usize = match direction {
            CursorDirection::Down => clamp_move(self.cursor_idx, 1, true, len),
            CursorDirection::Up => clamp_move(self.cursor_idx, 1, false, len),
            CursorDirection::PgDn => clamp_move(self.cursor_idx, 15, true, len),
            CursorDirection::PgUp => clamp_move(self.cursor_idx, 15, false, len),
        };
        let height: usize = if self.render_height >= crate::ui::WIDGET_OFFSET {
            (self.render_height - crate::ui::WIDGET_OFFSET) as usize
        } else {
            0
        };
        if pos <= self.offset_pos {
            self.offset_pos = pos;
        } else if pos >= height && pos - height >= self.offset_pos {
            self.offset_pos = pos - height;
        }
        self.cursor_idx = pos;
    }

    /// Records the height of the area that the pane is drawn in; the view
    /// moves down where the cursor would fall below it.
    pub fn set_render_height(&mut self, height: u16)
        ensures
            old(self)@.wf() ==> final(self)@.wf(),
            final(self)@ == old(self)@.drawn_at(height),
            old(self)@.offset_pos <= old(self)@.cursor_idx ==> final(self)@.in_view(),
    {
        let visible: usize = if height >= crate::ui::WIDGET_OFFSET {
            (height - crate::ui::WIDGET_OFFSET) as usize
        } else {
            0
        };
        self.render_height = height;
        if self.cursor_idx >= visible && self.cursor_idx - visible > self.offset_pos {
            self.offset_pos = self.cursor_idx - visible;
        }
    }

    pub fn set_focus(&mut self, focused: bool)
        ensures
            old(self)@.wf() ==> final(self)@.wf(),
            final(self)@ == (ListBlockView { focused, ..old(self)@ }),
    {
        self.focused = focused;
    }

    /// Flips the highlight of the entry under the cursor.
    pub fn toggle_highlight_selection(&mut self) -> (r: Result<(), Error>)
        ensures
            old(self)@.wf() ==> final(self)@.wf(),
            match old(self)@.selection() {
                None => outcome_view(r) == Err::<(), ErrorView>(
                    ErrorView::VecAccessError(old(self)@.cursor_idx),
                ) && final(self)@ == old(self)@,
                Some(_) => r is Ok && final(self)@ == old(self)@.toggled(
                    old(self)@.cursor_idx as int,
                ),
            },
    {
        let at = self.cursor_idx;
        if at >= self.content.len() {
            return Err(Error::VecAccessError(at));
        }
        let ghost before = item_views(self.content@);
        let mut chosen = self.content[at].clone();
        chosen.highlighted = !chosen.highlighted;
        self.content[at].highlighted = chosen.highlighted;
        assert(item_views(self.content@) =~= before.update(at as int, chosen@));
        if chosen.highlighted {
            if !contains_entity(&self.selected_content, &chosen) {
                let ghost selected = item_views(self.selected_content@);
                self.selected_content.push(chosen);
                assert(item_views(self.selected_content@) =~= selected.push(chosen@));
            }
        } else {
            proof {
                if old(self)@.wf() {
                    lemma_without_entity_distinct(old(self)@.selected_content, chosen@);
                }
            }
            self.selected_content = remove_entity(&self.selected_content, &chosen);
        }
        Ok(())
    }

    /// Expands the entry under the cursor.
    pub fn expand_selection(&mut self) -> (step: Step)
        ensures
            old(self)@.wf() ==> final(self)@.wf(),
            (final(self)@, step@) == old(self)@.expanded(),
    {
        let at = self.cursor_idx;
        if at >= self.content.len() {
            return Step::Done(Err(Error::VecAccessError(at)));
        }
        let opens = match self.content[at].file_type {
            MetadataType::CollectionType | MetadataType::ReturnType => true,
            _ => false,
        };
        if opens {
            let mut target = match self.source {
                TreeSource::Filesystem => self.content[at].path.clone(),
                TreeSource::Index => self.content[at].uuid.clone(),
            };
            core::mem::swap(&mut self.parent, &mut target);
            self.cursor_idx = 0;
            self.offset_pos = 0;
            self.pending = Pending::Drilling(target);
        } else {
            self.pending = Pending::Idle;
        }
        Step::Fetch
    }

    /// Takes the listing that the block asked for, or the failure to fetch
    /// it.
    pub fn deliver(&mut self, fetched: Result<Vec<FileItem>, Error>) -> (step: Step)
        ensures
            old(self)@.wf() ==> final(self)@.wf(),
            (final(self)@, step@) == old(self)@.delivered(fetched_view(fetched)),
    {
        let mut pending = Pending::Idle;
        core::mem::swap(&mut self.pending, &mut pending);
        match pending {
            Pending::Idle => match fetched {
                Ok(items) => {
                    self.content = items;
                    Step::Done(Ok(()))
                },
                Err(e) => Step::Done(Err(e)),
            },
            Pending::Drilling(prev) => match fetched {
                Ok(items) => {
                    self.content = items;
                    Step::Done(Ok(()))
                },
                Err(e) => {
                    self.parent = prev;
                    self.pending = Pending::Reverting(e);
                    Step::Fetch
                },
            },
            Pending::Reverting(why) => match fetched {
                Ok(items) => {
                    self.content = items;
                    Step::Done(Err(why))
                },
                Err(_) => Step::Done(Err(why)),
            },
        }
    }

    /// Refreshes the listing: takes what was fetched for the block's parent.
    pub fn resolve(&mut self, fetched: Result<Vec<FileItem>, Error>) -> (r: Result<(), Error>)
        ensures
            old(self)@.wf() ==> final(self)@.wf(),
            final(self)@ == old(self)@.resolved(fetched_view(fetched)),
            match fetched {
                Ok(_) => r is Ok,
                Err(e) => outcome_view(r) == Err::<(), ErrorView>(e@),
            },
    {
        self.pending = Pending::Idle;
        match fetched {
            Ok(items) => {
                self.content = items;
                Ok(())
            },
            Err(e) => Err(e),
        }
    }

    /// The lines of the pane for an area of the height `height`.
    pub fn generate_list(&self, height: u16, theme: &Theme) -> (r: Vec<ListRow>)
        ensures
            row_views(r@) == self@.rows(height, *theme),
    {
        let visible: usize = if height >= crate::ui::WIDGET_OFFSET {
            (height - crate::ui::WIDGET_OFFSET) as usize
        } else {
            0
        };
        let mut rows: Vec<ListRow> = Vec::new();
        let mut i: usize = 0;
        assert(row_views(rows@) =~= Seq::<ListRowView>::empty());
        while i < self.content.len()
            invariant
                i <= self.content.len(),
                visible == visible_height(height),
                row_views(rows@) == self@.rows_upto(i as int, height, *theme),
            decreases self.content.len() - i,
        {
            let item = &self.content[i];
            let in_window = i >= self.offset_pos && i - self.offset_pos <= visible;
            let shown = match item.file_type {
                MetadataType::ReturnType | MetadataType::CollectionType
                | MetadataType::DocumentType => true,
                _ => false,
            };
            if in_window && shown {
                let label = match item.file_type {
                    MetadataType::ReturnType => "../".to_owned(),
                    MetadataType::CollectionType => {
                        let mut text = chars_of("/");
                        extend_chars(&mut text, &chars_of(item.name.as_str()));
                        string_of(&text)
                    },
                    _ => item.name.clone(),
                };
                let style = Style {
                    fg: if item.highlighted {
                        Some(theme.highlight)
                    } else {
                        None
                    },
                    bg: None,
                    bold: match item.file_type {
                        MetadataType::CollectionType | MetadataType::ReturnType => true,
                        _ => false,
                    },
                    italic: match item.file_type {
                        MetadataType::DocumentType => true,
                        _ => false,
                    },
                    reversed: self.focused && i == self.cursor_idx,
                };
                let ghost before = row_views(rows@);
                let row = ListRow { label, style };
                assert(row@ == self@.row_at(i as int, *theme));
                rows.push(row);
                assert(row_views(rows@) =~= before.push(row@));
            }
            i += 1;
        }
        rows
    }

    /// Draws the pane: records the height of its area and gives its lines.
    pub fn render(&mut self, height: u16, theme: &Theme) -> (r: Vec<ListRow>)
        ensures
            old(self)@.wf() ==> final(self)@.wf(),
            final(self)@ == old(self)@.drawn_at(height),
            row_views(r@) == final(self)@.rows(height, *theme),
    {
        self.set_render_height(height);
        self.generate_list(height, theme)
    }

    pub fn get_name(&self) -> (r: String)
        ensures
            r@ == self@.name,
    {
        self.name.clone()
    }

    pub fn get_focus(&self) -> (r: bool)
        ensures
            r == self@.focused,
    {
        self.focused
    }

    pub fn get_source(&self) -> (r: TreeSource)
        ensures
            r == self@.source,
    {
        self.source
    }

    /// The directory or object whose entries the block lists: what a caller
    /// fetches the listing of.
    pub fn parent_reference(&self) -> (r: &String)
        ensures
            r@ == self@.parent,
    {
        &self.parent
    }

    /// The parent as an entry: an unclassified entry that the parent's
    /// reference refers to.
    pub fn get_parent(&self) -> (r: FileItem)
        ensures
            r@ == match self@.source {
                TreeSource::Filesystem => FileItemView {
                    path: self@.parent,
                    ..FileItem::new_view()
                },
                TreeSource::Index => FileItemView { uuid: self@.parent, ..FileItem::new_view() },
            },
    {
        match self.source {
            TreeSource::Filesystem => FileItem::new().path(self.parent.as_str()),
            TreeSource::Index => FileItem::new().uuid(self.parent.clone()),
        }
    }

    pub fn get_offset_pos(&self) -> (r: usize)
        ensures
            r == self@.offset_pos,
    {
        self.offset_pos
    }

    pub fn get_render_height(&self) -> (r: u16)
        ensures
            r == self@.render_height,
    {
        self.render_height
    }

    pub fn get_cursor_idx(&self) -> (r: usize)
        ensures
            r == self@.cursor_idx,
    {
        self.cursor_idx
    }

    pub fn get_resolved_content(&self) -> (r: &Vec<FileItem>)
        ensures
            item_views(r@) == self@.content,
    {
        &self.content
    }

    pub fn get_selected_content(&self) -> (r: &Vec<FileItem>)
        ensures
            item_views(r@) == self@.selected_content,
    {
        &self.selected_content
    }

    /// Empties the multi-selection. The highlight marks of the listing stay.
    pub fn clear_selected_content(&mut self)
        ensures
            old(self)@.wf() ==> final(self)@.wf(),
            final(self)@ == (ListBlockView { selected_content: Seq::empty(), ..old(self)@ }),
    {
        self.selected_content = Vec::new();
        assert(item_views(self.selected_content@) =~= Seq::<FileItemView>::empty());
    }

    /// The entry under the cursor.
    pub fn get_cursor_selection(&self) -> (r: Option<&FileItem>)
        ensures
            match self@.selection() {
                None => r is None,
                Some(item) => r is Some && r.unwrap()@ == item,
            },
    {
        if self.cursor_idx < self.content.len() {
            Some(&self.content[self.cursor_idx])
        } else {
            None
        }
    }

    /// Whether the block waits for a listing that it asked for.
    pub fn is_waiting(&self) -> (r: bool)
        ensures
            r == !(self@.pending is Idle),
    {
        match self.pending {
            Pending::Idle => false,
            _ => true,
        }
    }
}

/// What both panes offer, whichever tree they list.
pub trait FSListBlock {
    /// The state of the pane.
    spec fn state(&self) -> ListBlockView;

    /// The title of the pane.
    fn get_name(&self) -> (r: String)
        ensures
            r@ == self.state().name,
    ;

    /// Whether the pane has the focus.
    fn get_focus(&self) -> (r: bool)
        ensures
            r == self.state().focused,
    ;

    /// The parent as an entry: an unclassified entry that the parent's
    /// reference refers to.
    fn get_parent(&self) -> (r: FileItem)
        ensures
            r@ == match self.state().source {
                TreeSource::Filesystem => FileItemView {
                    path: self.state().parent,
                    ..FileItem::new_view()
                },
                TreeSource::Index => FileItemView {
                    uuid: self.state().parent,
                    ..FileItem::new_view()
                },
            },
    ;

    /// The position of the first entry that the pane shows.
    fn get_offset_pos(&self) -> (r: usize)
        ensures
            r == self.state().offset_pos,
    ;

    /// The listing as it was last resolved.
    fn get_resolved_content(&self) -> (r: &Vec<FileItem>)
        ensures
            item_views(r@) == self.state().content,
    ;

    /// The entries of the multi-selection.
    fn get_selected_content(&self) -> (r: &Vec<FileItem>)
        ensures
            item_views(r@) == self.state().selected_content,
    ;

    /// Empties the multi-selection. The highlight marks of the listing stay.
    fn clear_selected_content(&mut self)
        ensures
            old(self).state().wf() ==> final(self).state().wf(),
            final(self).state() == (ListBlockView {
                selected_content: Seq::empty(),
                ..old(self).state()
            }),
    ;

    fn get_cursor_idx(&self) -> (r: usize)
        ensures
            r == self.state().cursor_idx,
    ;

    /// The entry under the cursor.
    fn get_cursor_selection(&self) -> (r: Option<&FileItem>)
        ensures
            match self.state().selection() {
                None => r is None,
                Some(item) => r is Some && r.unwrap()@ == item,
            },
    ;

    /// Moves the cursor by one entry or by a page of fifteen, stopping at
    /// the ends of the listing; the view follows the cursor.
    fn cursor_move(&mut self, direction: CursorDirection)
        ensures
            old(self).state().wf() ==> final(self).state().wf(),
            final(self).state() == old(self).state().moved(direction),
            final(self).state().cursor_valid(),
            final(self).state().in_view(),
    ;

    /// Flips the highlight of the entry under the cursor; fails where the
    /// cursor is on no entry.
    fn toggle_highlight_selection(&mut self) -> (r: Result<(), Error>)
        ensures
            old(self).state().wf() ==> final(self).state().wf(),
            match old(self).state().selection() {
                None => outcome_view(r) == Err::<(), ErrorView>(
                    ErrorView::VecAccessError(old(self).state().cursor_idx),
                ) && final(self).state() == old(self).state(),
                Some(_) => r is Ok && final(self).state() == old(self).state().toggled(
                    old(self).state().cursor_idx as int,
                ),
            },
    ;

    /// The lines of the pane for an area of the height `height`.
    fn generate_list(&self, height: u16, theme: &Theme) -> (r: Vec<ListRow>)
        ensures
            row_views(r@) == self.state().rows(height, *theme),
    ;

    /// Draws the pane: records the height of its area and gives its lines.
    fn render(&mut self, height: u16, theme: &Theme) -> (r: Vec<ListRow>)
        ensures
            old(self).state().wf() ==> final(self).state().wf(),
            final(self).state() == old(self).state().drawn_at(height),
            row_views(r@) == final(self).state().rows(height, *theme),
    ;
}

} // verus!
