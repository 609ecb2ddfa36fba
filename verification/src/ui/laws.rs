//! What holds of a pane whatever its listing and whatever the tree answers.

use crate::fs_interface::MetadataType;
use crate::intern_error::ErrorView;
use crate::paths::{
    is_entry_name, join, lemma_normal_fixed, lemma_normal_settles, lemma_parent_of_child, normal,
    same_dir,
};
use crate::store::IndexEntryView;
use crate::ui::block::{
    holds_entity, lemma_without_entity_distinct, lemma_without_entity_members, ListBlockView,
    TreeSource,
};
use crate::ui::db_block::{index_link, index_listing, listed_rows};
use crate::ui::dir_block::{
    listed_entries, local_fetch, local_listing, parent_link, LocalEntryView,
};
use crate::ui::file_item::{sorted_items, FileItemView};
use crate::ui::order::{lemma_single_link_first, lemma_sorted_items_idempotent};
use crate::ui::CursorDirection;
use vstd::prelude::*;

verus! {

/// However the cursor moves, it stays on an entry of the listing, or on the
/// first position of an empty one, and the pane shows it.
pub proof fn lemma_cursor_stays_in_listing(block: ListBlockView, direction: CursorDirection)
    requires
        block.content.len() <= usize::MAX,
    ensures
        block.moved(direction).cursor_idx < block.content.len() || (block.content.len() == 0
            && block.moved(direction).cursor_idx == 0),
        block.moved(direction).cursor_valid(),
        block.moved(direction).in_view(),
{
}

/// Expanding an entry that does not open changes neither the parent nor the
/// cursor, whatever the tree answers.
pub proof fn lemma_expanding_a_document_changes_no_place(
    block: ListBlockView,
    first: Result<Seq<FileItemView>, ErrorView>,
    second: Result<Seq<FileItemView>, ErrorView>,
)
    requires
        block.selection() matches Some(item) && !item.opens(),
    ensures
        block.expansion(first, second).0.parent == block.parent,
        block.expansion(first, second).0.cursor_idx == block.cursor_idx,
        block.expansion(first, second).0.offset_pos == block.offset_pos,
        block.expanded().0.parent == block.parent,
        block.expanded().0.cursor_idx == block.cursor_idx,
{
}

/// Expanding an entry that opens, where its listing can be had, leads into
/// that entry with the cursor on the first position.
pub proof fn lemma_expansion_starts_at_the_top(
    block: ListBlockView,
    first: Result<Seq<FileItemView>, ErrorView>,
    second: Result<Seq<FileItemView>, ErrorView>,
)
    requires
        block.selection() matches Some(item) && item.opens(),
        block.expansion(first, second).1 is Ok,
    ensures
        first is Ok,
        block.expansion(first, second).0.cursor_idx == 0,
        block.expansion(first, second).0.in_view(),
        block.expansion(first, second).0.parent == block.reference_of(block.selection()->0),
        block.expansion(first, second).0.content == first->Ok_0,
        block.expansion(first, second).0.pending is Idle,
{
}

/// An expansion that cannot have the listing of the entry ends with that
/// failure and leaves the block at the parent it was at. Its listing is the
/// one it had, or, where the parent could be listed again, that listing.
pub proof fn lemma_failed_expansion_restores(
    block: ListBlockView,
    why: ErrorView,
    second: Result<Seq<FileItemView>, ErrorView>,
)
    requires
        block.selection() is Some,
    ensures
        block.expansion(Err(why), second).1 == Err::<(), ErrorView>(why),
        block.expansion(Err(why), second).0.parent == block.parent,
        block.expansion(Err(why), second).0.pending is Idle,
        block.expansion(Err(why), second).0.content == if block.selection()->0.opens() {
            match second {
                Ok(again) => again,
                Err(_) => block.content,
            }
        } else {
            block.content
        },
        second == Ok::<Seq<FileItemView>, ErrorView>(block.content) ==> block.expansion(
            Err(why),
            second,
        ).0.content == block.content,
{
}

/// An expansion never leaves the block waiting, and without an entry under
/// the cursor it changes nothing.
pub proof fn lemma_expansion_ends(
    block: ListBlockView,
    first: Result<Seq<FileItemView>, ErrorView>,
    second: Result<Seq<FileItemView>, ErrorView>,
)
    ensures
        block.selection() is Some ==> block.expansion(first, second).0.pending is Idle,
        block.selection() is None ==> block.expansion(first, second) == (
            block,
            Err::<(), ErrorView>(ErrorView::VecAccessError(block.cursor_idx)),
        ),
        block.expanded().1 is Fetch && block.expanded().0.delivered(first).1 is Fetch
            ==> block.expanded().0.delivered(first).0.delivered(second).1 is Done,
{
}

/// Refreshing twice from the same answer gives what refreshing once gives.
pub proof fn lemma_resolve_idempotent(
    block: ListBlockView,
    fetched: Result<Seq<FileItemView>, ErrorView>,
)
    ensures
        block.resolved(fetched).resolved(fetched) == block.resolved(fetched),
        block.resolved(fetched).parent == block.parent,
        block.resolved(fetched).cursor_idx == block.cursor_idx,
{
}

/// Refreshing the local pane twice from a directory that did not change
/// gives the same listing, entry for entry.
pub proof fn lemma_local_resolve_idempotent(
    block: ListBlockView,
    read: Result<Seq<LocalEntryView>, ErrorView>,
    show_hidden: bool,
)
    ensures
        ({
            let once = block.resolved(local_fetch(block.parent, read, show_hidden));
            let twice = once.resolved(local_fetch(once.parent, read, show_hidden));
            twice == once
        }),
{
}

/// The entries that were read of a directory are collections and documents.
proof fn lemma_listed_entries_kinds(
    parent: Seq<char>,
    entries: Seq<LocalEntryView>,
    show_hidden: bool,
)
    ensures
        forall|i: int|
            0 <= i < listed_entries(parent, entries, show_hidden).len() ==> {
                let kind = (#[trigger] listed_entries(parent, entries, show_hidden)[i]).file_type;
                kind == MetadataType::CollectionType || kind == MetadataType::DocumentType
            },
    decreases entries.len(),
{
    if entries.len() > 0 {
        lemma_listed_entries_kinds(parent, entries.drop_last(), show_hidden);
    }
}

/// The rows that the index gave are listed as collections and documents.
proof fn lemma_listed_rows_kinds(rows: Seq<Option<IndexEntryView>>)
    ensures
        forall|i: int|
            0 <= i < listed_rows(rows).len() ==> {
                let kind = (#[trigger] listed_rows(rows)[i]).file_type;
                kind == MetadataType::CollectionType || kind == MetadataType::DocumentType
            },
    decreases rows.len(),
{
    if rows.len() > 0 {
        lemma_listed_rows_kinds(rows.drop_last());
    }
}

/// The listing of a directory other than the root starts with the link to
/// the directory that holds it.
pub proof fn lemma_local_listing_starts_with_link(
    parent: Seq<char>,
    entries: Seq<LocalEntryView>,
    show_hidden: bool,
)
    requires
        !crate::paths::is_root(parent),
    ensures
        local_listing(parent, entries, show_hidden).len() > 0,
        local_listing(parent, entries, show_hidden)[0] == parent_link(parent),
{
    lemma_listed_entries_kinds(parent, entries, show_hidden);
    lemma_single_link_first(parent_link(parent), listed_entries(parent, entries, show_hidden));
}

/// The listing of an object for which the index names a parent starts with
/// the link to that parent.
pub proof fn lemma_index_listing_starts_with_link(
    up: Seq<char>,
    rows: Seq<Option<IndexEntryView>>,
)
    ensures
        index_listing(Some(up), rows).len() > 0,
        index_listing(Some(up), rows)[0] == index_link(up),
{
    lemma_listed_rows_kinds(rows);
    lemma_single_link_first(index_link(up), listed_rows(rows));
}

/// Going into a directory of the local tree and then through its link to
/// the parent leads back to where the block was: to the same directory,
/// written without trailing separators.
pub proof fn lemma_local_round_trip(
    block: ListBlockView,
    inner: Seq<LocalEntryView>,
    show_hidden: bool,
    back: Seq<FileItemView>,
    unused: Result<Seq<FileItemView>, ErrorView>,
)
    requires
        block.source == TreeSource::Filesystem,
        block.selection() matches Some(item) && item.file_type == MetadataType::CollectionType
            && is_entry_name(item.name) && item.path == join(block.parent, item.name),
    ensures
        ({
            let item = block.selection()->0;
            let (inside, went_in) = block.expansion(
                Ok(local_listing(item.path, inner, show_hidden)),
                unused,
            );
            let (outside, went_out) = inside.expansion(Ok(back), unused);
            &&& went_in is Ok
            &&& inside.parent == item.path
            &&& inside.selection() == Some(parent_link(item.path))
            &&& went_out is Ok
            &&& outside.parent == normal(block.parent)
            &&& same_dir(outside.parent, block.parent)
            &&& (block.parent.len() == 0 || block.parent.last() != '/' || block.parent == seq!['/'])
                ==> outside.parent == block.parent
        }),
{
    let item = block.selection()->0;
    lemma_normal_settles(block.parent);
    lemma_parent_of_child(block.parent, item.name);
    lemma_local_listing_starts_with_link(item.path, inner, show_hidden);
    if block.parent.len() == 0 || block.parent.last() != '/' || block.parent == seq!['/'] {
        lemma_normal_fixed(block.parent);
    }
}

/// Going into a collection of the remote tree and then through its link to
/// the parent leads back to where the block was, where the index names the
/// object that the block was at as the parent of the collection.
pub proof fn lemma_index_round_trip(
    block: ListBlockView,
    rows: Seq<Option<IndexEntryView>>,
    back: Seq<FileItemView>,
    unused: Result<Seq<FileItemView>, ErrorView>,
)
    requires
        block.source == TreeSource::Index,
        block.selection() matches Some(item) && item.file_type == MetadataType::CollectionType,
    ensures
        ({
            let item = block.selection()->0;
            let (inside, went_in) = block.expansion(
                Ok(index_listing(Some(block.parent), rows)),
                unused,
            );
            let (outside, went_out) = inside.expansion(Ok(back), unused);
            &&& went_in is Ok
            &&& inside.parent == item.uuid
            &&& inside.selection() == Some(index_link(block.parent))
            &&& went_out is Ok
            &&& outside.parent == block.parent
        }),
{
    lemma_index_listing_starts_with_link(block.parent, rows);
}

/// A listing that is resolved again from its own entries stays as it is.
pub proof fn lemma_listing_is_settled(items: Seq<FileItemView>)
    ensures
        sorted_items(sorted_items(items)) == sorted_items(items),
{
    lemma_sorted_items_idempotent(items);
}

/// A block that was just made is well formed, and whatever is done with a
/// well-formed block leaves it well formed: the pane goes on showing the
/// position of the cursor and the multi-selection holds no object twice.
pub proof fn lemma_transitions_keep_wf(
    block: ListBlockView,
    direction: CursorDirection,
    height: u16,
    fetched: Result<Seq<FileItemView>, ErrorView>,
    at: int,
)
    requires
        block.wf(),
        block.content.len() <= usize::MAX,
    ensures
        ListBlockView::initial(block.name, block.source, block.parent).wf(),
        block.moved(direction).wf(),
        block.drawn_at(height).wf(),
        block.expanded().0.wf(),
        block.delivered(fetched).0.wf(),
        block.resolved(fetched).wf(),
        0 <= at < block.content.len() ==> block.toggled(at).wf(),
{
    if 0 <= at < block.content.len() {
        let item = block.content[at];
        let flipped = FileItemView { highlighted: !item.highlighted, ..item };
        lemma_without_entity_distinct(block.selected_content, flipped);
    }
}

/// Flipping the highlight of an entry puts the object that it stands for
/// into the multi-selection, or takes it out, and leaves every other object
/// in or out as it was.
pub proof fn lemma_toggle_selects(block: ListBlockView, at: int, other: FileItemView)
    requires
        0 <= at < block.content.len(),
    ensures
        block.toggled(at).content[at].highlighted == !block.content[at].highlighted,
        holds_entity(block.toggled(at).selected_content, block.content[at])
            == !block.content[at].highlighted,
        !other.same_entity(block.content[at]) ==> holds_entity(
            block.toggled(at).selected_content,
            other,
        ) == holds_entity(block.selected_content, other),
        forall|i: int|
            0 <= i < block.content.len() && i != at ==> block.toggled(at).content[i]
                == block.content[i],
{
    let item = block.content[at];
    let flipped = FileItemView { highlighted: !item.highlighted, ..item };
    let chosen = block.selected_content;
    let after = block.toggled(at).selected_content;
    if flipped.highlighted {
        if holds_entity(chosen, flipped) {
            let i = choose|i: int| 0 <= i < chosen.len() && (#[trigger] chosen[i]).same_entity(
                flipped,
            );
            assert(chosen[i].same_entity(item));
        } else {
            assert(after[chosen.len() as int].same_entity(item));
            if holds_entity(after, other) && !other.same_entity(item) {
                let i = choose|i: int| 0 <= i < after.len() && (#[trigger] after[i]).same_entity(
                    other,
                );
                assert(chosen[i].same_entity(other));
            }
            if holds_entity(chosen, other) {
                let i = choose|i: int| 0 <= i < chosen.len() && (#[trigger] chosen[i]).same_entity(
                    other,
                );
                assert(after[i].same_entity(other));
            }
        }
    } else {
        lemma_without_entity_members(chosen, flipped, other);
        lemma_without_entity_members(chosen, flipped, item);
        if holds_entity(after, item) {
            let i = choose|i: int| 0 <= i < after.len() && (#[trigger] after[i]).same_entity(
                item,
            );
            assert(after[i].same_entity(flipped));
        }
    }
}

} // verus!
