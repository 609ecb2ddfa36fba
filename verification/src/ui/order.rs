//! What holds of a listing in listing order: it is ordered by kind and then
//! by folded name, it holds the entries it was made from, and entries that
//! the order does not tell apart stay as they came.

use crate::fs_interface::MetadataType;
use crate::text::{lemma_lex_le_total, lemma_lex_le_transitive};
use crate::ui::file_item::{
    insert_keyed, key_le, sort_keyed, sorted_items, unkeyed, with_key, FileItemView, Keyed,
};
use vstd::prelude::*;
use vstd::seq_lib::to_multiset_insert;

verus! {

/// Every entry may stand before all that follow it.
pub open spec fn in_order(s: Seq<Keyed>) -> bool {
    forall|i: int, j: int| 0 <= i < j < s.len() ==> key_le(#[trigger] s[i], #[trigger] s[j])
}

/// The order does not tell `a` and `b` apart.
pub open spec fn same_key(a: Keyed, b: Keyed) -> bool {
    key_le(a, b) && key_le(b, a)
}

/// `a` may stand before `b` in a listing.
pub open spec fn item_le(a: FileItemView, b: FileItemView) -> bool {
    key_le(with_key(a), with_key(b))
}

/// Of two entries, one may stand before the other.
pub proof fn lemma_key_le_total(a: Keyed, b: Keyed)
    ensures
        key_le(a, b) || key_le(b, a),
{
    lemma_lex_le_total(a.folded, b.folded);
}

/// What may stand before an entry that may stand before a third may stand
/// before the third.
pub proof fn lemma_key_le_transitive(a: Keyed, b: Keyed, c: Keyed)
    requires
        key_le(a, b),
        key_le(b, c),
    ensures
        key_le(a, c),
{
    if a.item.file_type.rank() == b.item.file_type.rank() && b.item.file_type.rank()
        == c.item.file_type.rank() {
        lemma_lex_le_transitive(a.folded, b.folded, c.folded);
    }
}

/// Inserting puts `x` at one position and moves nothing else: behind the
/// last entry that may stand before it.
pub proof fn lemma_insert_shape(s: Seq<Keyed>, x: Keyed) -> (at: int)
    ensures
        0 <= at <= s.len(),
        insert_keyed(s, x) == s.insert(at, x),
        forall|j: int| at <= j < s.len() ==> !key_le(#[trigger] s[j], x),
        at > 0 ==> key_le(s[at - 1], x),
    decreases s.len(),
{
    if s.len() == 0 {
        assert(s.insert(0, x) =~= seq![x]);
        0
    } else if key_le(s.last(), x) {
        assert(s.insert(s.len() as int, x) =~= s.push(x));
        s.len() as int
    } else {
        let front = s.drop_last();
        let at = lemma_insert_shape(front, x);
        assert(front.insert(at, x).push(s.last()) =~= s.insert(at, x));
        assert forall|j: int| at <= j < s.len() implies !key_le(#[trigger] s[j], x) by {
            if j < front.len() {
                assert(s[j] == front[j]);
            }
        }
        at
    }
}

/// Inserting into a sequence that is in listing order leaves it in listing
/// order.
pub proof fn lemma_insert_keeps_order(s: Seq<Keyed>, x: Keyed)
    requires
        in_order(s),
    ensures
        in_order(insert_keyed(s, x)),
{
    let at = lemma_insert_shape(s, x);
    let r = s.insert(at, x);
    assert forall|i: int, j: int| 0 <= i < j < r.len() implies key_le(
        #[trigger] r[i],
        #[trigger] r[j],
    ) by {
        if i == at {
            assert(r[j] == s[j - 1]);
            lemma_key_le_total(x, s[j - 1]);
        } else if j == at {
            assert(r[i] == s[i]);
            if i < at - 1 {
                lemma_key_le_transitive(s[i], s[at - 1], x);
            }
        } else {
            let si = if i < at {
                i
            } else {
                i - 1
            };
            let sj = if j < at {
                j
            } else {
                j - 1
            };
            assert(r[i] == s[si]);
            assert(r[j] == s[sj]);
        }
    }
}

/// A sorted sequence is in listing order.
pub proof fn lemma_sort_in_order(s: Seq<Keyed>)
    ensures
        in_order(sort_keyed(s)),
        sort_keyed(s).len() == s.len(),
    decreases s.len(),
{
    if s.len() > 0 {
        lemma_sort_in_order(s.drop_last());
        lemma_insert_keeps_order(sort_keyed(s.drop_last()), s.last());
        let at = lemma_insert_shape(sort_keyed(s.drop_last()), s.last());
    }
}

/// Sorting is stable: among the entries that the order does not tell apart
/// from `k`, the sorted sequence has the order of the sequence it was made
/// from.
pub proof fn lemma_sort_stable(s: Seq<Keyed>, k: Keyed)
    ensures
        sort_keyed(s).filter(|e: Keyed| same_key(e, k)) == s.filter(|e: Keyed| same_key(e, k)),
    decreases s.len(),
{
    let pred = |e: Keyed| same_key(e, k);
    if s.len() > 0 {
        let front = s.drop_last();
        let x = s.last();
        let sorted = sort_keyed(front);
        lemma_sort_stable(front, k);
        let at = lemma_insert_shape(sorted, x);
        let head = sorted.take(at);
        let tail = sorted.skip(at);
        assert(sorted =~= head + tail);
        assert(sorted.insert(at, x) =~= head.push(x) + tail);
        Seq::filter_distributes_over_add(head, tail, pred);
        Seq::filter_distributes_over_add(head.push(x), tail, pred);
        head.lemma_filter_push(x, pred);
        front.lemma_filter_push(x, pred);
        assert(front.push(x) =~= s);
        if pred(x) {
            assert forall|j: int| 0 <= j < tail.len() implies !pred(#[trigger] tail[j]) by {
                assert(tail[j] == sorted[at + j]);
                if pred(tail[j]) {
                    lemma_key_le_transitive(tail[j], k, x);
                }
            }
            assert(tail.all(|e: Keyed| !pred(e)));
            tail.lemma_all_neg_filter_empty(pred);
            assert(tail.filter(pred) =~= Seq::<Keyed>::empty());
            assert(sorted.filter(pred) =~= head.filter(pred));
            assert(sorted.insert(at, x).filter(pred) =~= head.filter(pred).push(x));
        }
    } else {
        assert(sort_keyed(s) =~= s);
    }
}

/// What is in listing order already is left as it is.
pub proof fn lemma_sort_fixes_ordered(s: Seq<Keyed>)
    requires
        in_order(s),
    ensures
        sort_keyed(s) == s,
    decreases s.len(),
{
    if s.len() > 0 {
        let front = s.drop_last();
        assert forall|i: int, j: int| 0 <= i < j < front.len() implies key_le(
            #[trigger] front[i],
            #[trigger] front[j],
        ) by {
            assert(front[i] == s[i]);
            assert(front[j] == s[j]);
        }
        lemma_sort_fixes_ordered(front);
        if front.len() > 0 {
            assert(front.last() == s[s.len() - 2]);
            assert(key_le(s[s.len() - 2], s[s.len() - 1]));
        }
        assert(front.push(s.last()) =~= s);
    }
}

/// Every entry of a sorted sequence carries the key that `with_key` gives
/// it, where every entry of the sequence it was made from does.
proof fn lemma_sort_keeps_keys(s: Seq<Keyed>)
    requires
        forall|i: int| 0 <= i < s.len() ==> #[trigger] s[i] == with_key(s[i].item),
    ensures
        sort_keyed(s).len() == s.len(),
        forall|i: int|
            0 <= i < s.len() ==> #[trigger] sort_keyed(s)[i] == with_key(sort_keyed(s)[i].item),
    decreases s.len(),
{
    if s.len() > 0 {
        let front = s.drop_last();
        assert forall|i: int| 0 <= i < front.len() implies #[trigger] front[i] == with_key(
            front[i].item,
        ) by {
            assert(front[i] == s[i]);
        }
        lemma_sort_keeps_keys(front);
        let sorted = sort_keyed(front);
        let at = lemma_insert_shape(sorted, s.last());
        let r = sorted.insert(at, s.last());
        assert forall|i: int| 0 <= i < s.len() implies #[trigger] r[i] == with_key(r[i].item) by {
            if i < at {
                assert(r[i] == sorted[i]);
            } else if i > at {
                assert(r[i] == sorted[i - 1]);
            }
        }
    }
}

/// The keyed form of a sorted listing is the sorted keyed form of the
/// listing it was made from.
pub proof fn lemma_sorted_items_keyed(items: Seq<FileItemView>)
    ensures
        sorted_items(items).len() == items.len(),
        sorted_items(items).map_values(|i: FileItemView| with_key(i)) == sort_keyed(
            items.map_values(|i: FileItemView| with_key(i)),
        ),
{
    let keyed = items.map_values(|i: FileItemView| with_key(i));
    lemma_sort_keeps_keys(keyed);
    assert(sorted_items(items).map_values(|i: FileItemView| with_key(i)) =~= sort_keyed(keyed));
}

/// A resolved listing is ordered by kind first and then by name without
/// regard to case.
pub proof fn lemma_sorted_items_in_order(items: Seq<FileItemView>)
    ensures
        sorted_items(items).len() == items.len(),
        forall|i: int, j: int|
            0 <= i < j < items.len() ==> item_le(
                #[trigger] sorted_items(items)[i],
                #[trigger] sorted_items(items)[j],
            ),
{
    let keyed = items.map_values(|i: FileItemView| with_key(i));
    lemma_sorted_items_keyed(items);
    lemma_sort_in_order(keyed);
    let sorted = sorted_items(items);
    assert forall|i: int, j: int| 0 <= i < j < items.len() implies item_le(
        #[trigger] sorted[i],
        #[trigger] sorted[j],
    ) by {
        assert(sort_keyed(keyed)[i] == with_key(sorted[i]));
        assert(sort_keyed(keyed)[j] == with_key(sorted[j]));
    }
}

/// A resolved listing holds exactly the entries it was made from, each as
/// often as it came.
pub proof fn lemma_sorted_items_permutes(items: Seq<FileItemView>)
    ensures
        sorted_items(items).to_multiset() == items.to_multiset(),
{
    let keyed = items.map_values(|i: FileItemView| with_key(i));
    lemma_unkeyed_sort_permutes(keyed);
    assert(unkeyed(keyed) =~= items);
}

/// The entries of a sorted sequence are the entries of the sequence it was
/// made from.
proof fn lemma_unkeyed_sort_permutes(s: Seq<Keyed>)
    ensures
        unkeyed(sort_keyed(s)).to_multiset() == unkeyed(s).to_multiset(),
    decreases s.len(),
{
    if s.len() > 0 {
        let front = s.drop_last();
        let x = s.last();
        lemma_unkeyed_sort_permutes(front);
        let sorted = sort_keyed(front);
        let at = lemma_insert_shape(sorted, x);
        lemma_sort_in_order(front);
        assert(unkeyed(sorted.insert(at, x)) =~= unkeyed(sorted).insert(at, x.item));
        to_multiset_insert(unkeyed(sorted), at, x.item);
        to_multiset_insert(unkeyed(front), front.len() as int, x.item);
        assert(unkeyed(front).insert(front.len() as int, x.item) =~= unkeyed(s));
    } else {
        assert(sort_keyed(s) =~= s);
    }
}

/// Sorting is stable: the entries that the listing order does not tell
/// apart from `k` keep the order in which they came.
pub proof fn lemma_sorted_items_stable(items: Seq<FileItemView>, k: FileItemView)
    ensures
        sorted_items(items).filter(|e: FileItemView| item_le(e, k) && item_le(k, e))
            == items.filter(|e: FileItemView| item_le(e, k) && item_le(k, e)),
{
    let key = |i: FileItemView| with_key(i);
    let keyed = items.map_values(key);
    let pred = |e: Keyed| same_key(e, with_key(k));
    let item_pred = |e: FileItemView| item_le(e, k) && item_le(k, e);
    lemma_sort_stable(keyed, with_key(k));
    lemma_sorted_items_keyed(items);
    lemma_filter_keyed(items, k);
    lemma_filter_keyed(sorted_items(items), k);
    assert(unkeyed(sorted_items(items).filter(item_pred).map_values(key)) =~= sorted_items(
        items,
    ).filter(item_pred));
    assert(unkeyed(items.filter(item_pred).map_values(key)) =~= items.filter(item_pred));
}

/// Filtering entries by their class commutes with giving them their keys.
proof fn lemma_filter_keyed(items: Seq<FileItemView>, k: FileItemView)
    ensures
        items.map_values(|i: FileItemView| with_key(i)).filter(
            |e: Keyed| same_key(e, with_key(k)),
        ) == items.filter(|e: FileItemView| item_le(e, k) && item_le(k, e)).map_values(
            |i: FileItemView| with_key(i),
        ),
    decreases items.len(),
{
    let key = |i: FileItemView| with_key(i);
    let pred = |e: Keyed| same_key(e, with_key(k));
    let item_pred = |e: FileItemView| item_le(e, k) && item_le(k, e);
    reveal(Seq::filter);
    if items.len() > 0 {
        let front = items.drop_last();
        lemma_filter_keyed(front, k);
        assert(items.map_values(key).drop_last() =~= front.map_values(key));
        assert(items.map_values(key).last() == with_key(items.last()));
        if item_pred(items.last()) {
            assert(front.filter(item_pred).push(items.last()).map_values(key) =~= front.filter(
                item_pred,
            ).map_values(key).push(with_key(items.last())));
        }
    } else {
        assert(items.map_values(key).filter(pred) =~= items.filter(item_pred).map_values(key));
    }
}

/// Where a listing holds a link to the parent, the link comes first.
pub proof fn lemma_parent_link_first(items: Seq<FileItemView>, at: int)
    requires
        0 <= at < items.len(),
        items[at].file_type == MetadataType::ReturnType,
    ensures
        sorted_items(items).len() == items.len(),
        sorted_items(items)[0].file_type == MetadataType::ReturnType,
{
    let sorted = sorted_items(items);
    lemma_sorted_items_in_order(items);
    lemma_sorted_items_permutes(items);
    vstd::seq_lib::to_multiset_contains(items, items[at]);
    vstd::seq_lib::to_multiset_contains(sorted, items[at]);
    assert(items.contains(items[at]));
    let found = choose|j: int| 0 <= j < sorted.len() && sorted[j] == items[at];
    if found > 0 {
        assert(item_le(sorted[0], sorted[found]));
    }
}

/// Resolving a listing that is in listing order already changes nothing:
/// sorting twice gives what sorting once gives.
pub proof fn lemma_sorted_items_idempotent(items: Seq<FileItemView>)
    ensures
        sorted_items(sorted_items(items)) == sorted_items(items),
{
    let key = |i: FileItemView| with_key(i);
    let keyed = items.map_values(key);
    lemma_sorted_items_keyed(items);
    lemma_sort_in_order(keyed);
    lemma_sort_fixes_ordered(sort_keyed(keyed));
}

/// A listing made of one link to the parent and of entries that are no
/// such links starts with that link.
pub proof fn lemma_single_link_first(link: FileItemView, rest: Seq<FileItemView>)
    requires
        link.file_type == MetadataType::ReturnType,
        forall|i: int| 0 <= i < rest.len() ==> (#[trigger] rest[i]).file_type
            != MetadataType::ReturnType,
    ensures
        sorted_items(seq![link] + rest).len() == rest.len() + 1,
        sorted_items(seq![link] + rest)[0] == link,
{
    let items = seq![link] + rest;
    let sorted = sorted_items(items);
    lemma_parent_link_first(items, 0);
    lemma_sorted_items_permutes(items);
    vstd::seq_lib::to_multiset_contains(sorted, sorted[0]);
    vstd::seq_lib::to_multiset_contains(items, sorted[0]);
    assert(sorted.contains(sorted[0]));
    let found = choose|j: int| 0 <= j < items.len() && items[j] == sorted[0];
    if found > 0 {
        assert(items[found] == rest[found - 1]);
    }
}

} // verus!
