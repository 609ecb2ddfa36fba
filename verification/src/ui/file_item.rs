//! The entries of a listing, their identity, and the order in which a
//! listing shows them.

use crate::fs_interface::MetadataType;
use crate::text::{chars_le, chars_of, copy_range, lex_le, lowercase, to_lowercase};
use vstd::prelude::*;

verus! {

/// One entry of a resolved listing.
#[derive(Debug)]
pub struct FileItem {
    /// The name shown for the entry; empty for the link to the parent.
    pub name: String,
    /// The path of a local entry; for the link to the parent, the directory
    /// that it leads to.
    pub path: String,
    pub file_type: MetadataType,
    /// The identifier of a remote object; for the link to the parent, the
    /// object that it leads to.
    pub uuid: String,
    /// Whether the entry is part of the current multi-selection.
    pub highlighted: bool,
}

pub struct FileItemView {
    pub name: Seq<char>,
    pub path: Seq<char>,
    pub file_type: MetadataType,
    pub uuid: Seq<char>,
    pub highlighted: bool,
}

impl View for FileItem {
    type V = FileItemView;

    open spec fn view(&self) -> FileItemView {
        FileItemView {
            name: self.name@,
            path: self.path@,
            file_type: self.file_type,
            uuid: self.uuid@,
            highlighted: self.highlighted,
        }
    }
}

impl FileItemView {
    /// Two entries stand for the same object when they agree in path and
    /// identifier, whatever their names and highlight marks.
    pub open spec fn same_entity(self, other: FileItemView) -> bool {
        self.path == other.path && self.uuid == other.uuid
    }

    /// An entry that leads into another listing when it is expanded.
    pub open spec fn opens(self) -> bool {
        self.file_type == MetadataType::CollectionType || self.file_type
            == MetadataType::ReturnType
    }
}

/// The views of the entries of `items`, in order.
pub open spec fn item_views(items: Seq<FileItem>) -> Seq<FileItemView> {
    items.map_values(|i: FileItem| i@)
}

impl Clone for FileItem {
    fn clone(&self) -> (r: Self)
        ensures
            r@ == self@,
    {
        FileItem {
            name: self.name.clone(),
            path: self.path.clone(),
            file_type: self.file_type,
            uuid: self.uuid.clone(),
            highlighted: self.highlighted,
        }
    }
}

impl PartialEq for FileItem {
    fn eq(&self, other: &Self) -> (r: bool) {
        self.path == other.path && self.uuid == other.uuid
    }
}

impl vstd::std_specs::cmp::PartialEqSpecImpl for FileItem {
    open spec fn obeys_eq_spec() -> bool {
        true
    }

    open spec fn eq_spec(&self, other: &Self) -> bool {
        self.path@ == other.path@ && self.uuid@ == other.uuid@
    }
}

impl Eq for FileItem {

}

impl FileItem {
    /// The view of the entry that `new` makes.
    pub open spec fn new_view() -> FileItemView {
        FileItemView {
            name: Seq::empty(),
            path: "/"@,
            file_type: MetadataType::DefaultType,
            uuid: Seq::empty(),
            highlighted: false,
        }
    }

    /// An unclassified entry without a name, at the root path.
    pub fn new() -> (r: Self)
        ensures
            r@ == FileItem::new_view(),
    {
        FileItem {
            name: String::new(),
            path: "/".to_owned(),
            file_type: MetadataType::DefaultType,
            uuid: String::new(),
            highlighted: false,
        }
    }

    pub fn name(self, name: &str) -> (r: Self)
        ensures
            r@ == (FileItemView { name: name@, ..self@ }),
    {
        let mut item = self;
        item.name = name.to_owned();
        item
    }

    pub fn path(self, path: &str) -> (r: Self)
        ensures
            r@ == (FileItemView { path: path@, ..self@ }),
    {
        let mut item = self;
        item.path = path.to_owned();
        item
    }

    pub fn file_type(self, file_type: MetadataType) -> (r: Self)
        ensures
            r@ == (FileItemView { file_type, ..self@ }),
    {
        let mut item = self;
        item.file_type = file_type;
        item
    }

    pub fn uuid(self, uuid: String) -> (r: Self)
        ensures
            r@ == (FileItemView { uuid: uuid@, ..self@ }),
    {
        let mut item = self;
        item.uuid = uuid;
        item
    }

    /// Whether `self` and `other` stand for the same object.
    pub fn same_entity(&self, other: &FileItem) -> (r: bool)
        ensures
            r == self@.same_entity(other@),
    {
        self.path == other.path && self.uuid == other.uuid
    }

    /// The name in the form in which listings order it: in lowercase.
    pub fn folded_name(&self) -> (r: Vec<char>)
        ensures
            r@ == lowercase(self@.name),
    {
        let lower = to_lowercase(self.name.as_str());
        chars_of(lower.as_str())
    }
}

/// An entry together with the form of its name by which it is ordered.
pub struct Keyed {
    pub item: FileItemView,
    pub folded: Seq<char>,
}

/// The listing order: by kind first, then by folded name in code-point
/// order. `a` may stand before `b`.
pub open spec fn key_le(a: Keyed, b: Keyed) -> bool {
    a.item.file_type.rank() < b.item.file_type.rank() || (a.item.file_type.rank()
        == b.item.file_type.rank() && lex_le(a.folded, b.folded))
}

/// `s`, which is in listing order, with `x` put behind the last entry that
/// may stand before it.
pub open spec fn insert_keyed(s: Seq<Keyed>, x: Keyed) -> Seq<Keyed>
    decreases s.len(),
{
    if s.len() == 0 {
        seq![x]
    } else if key_le(s.last(), x) {
        s.push(x)
    } else {
        insert_keyed(s.drop_last(), x).push(s.last())
    }
}

/// `s` in listing order; entries that the order does not tell apart keep
/// the order in which `s` holds them.
pub open spec fn sort_keyed(s: Seq<Keyed>) -> Seq<Keyed>
    decreases s.len(),
{
    if s.len() == 0 {
        s
    } else {
        insert_keyed(sort_keyed(s.drop_last()), s.last())
    }
}

/// The entries of `items`, each with the folded name at its position.
pub open spec fn keyed_with(items: Seq<FileItemView>, folded: Seq<Seq<char>>) -> Seq<Keyed> {
    Seq::new(items.len(), |i: int| Keyed { item: items[i], folded: folded[i] })
}

/// The entries that `s` holds, without their keys.
pub open spec fn unkeyed(s: Seq<Keyed>) -> Seq<FileItemView> {
    s.map_values(|k: Keyed| k.item)
}

/// An entry with its own name, in lowercase, as its key.
pub open spec fn with_key(item: FileItemView) -> Keyed {
    Keyed { item, folded: lowercase(item.name) }
}

/// `items` in listing order: by kind, then by name without regard to case.
pub open spec fn sorted_items(items: Seq<FileItemView>) -> Seq<FileItemView> {
    unkeyed(sort_keyed(items.map_values(|i: FileItemView| with_key(i))))
}

/// The views of the texts of `texts`, in order.
pub open spec fn text_views(texts: Seq<Vec<char>>) -> Seq<Seq<char>> {
    texts.map_values(|t: Vec<char>| t@)
}

/// Where nothing from `at` on may stand before `x`, and the entry before
/// `at` may, `x` is inserted at `at`.
pub proof fn lemma_insert_position(s: Seq<Keyed>, x: Keyed, at: int)
    requires
        0 <= at <= s.len(),
        forall|j: int| at <= j < s.len() ==> !key_le(#[trigger] s[j], x),
        at > 0 ==> key_le(s[at - 1], x),
    ensures
        insert_keyed(s, x) == s.insert(at, x),
    decreases s.len(),
{
    if s.len() == 0 {
        assert(s.insert(at, x) =~= seq![x]);
    } else if at == s.len() {
        assert(s.insert(at, x) =~= s.push(x));
    } else {
        assert(!key_le(s[s.len() - 1], x));
        let front = s.drop_last();
        assert forall|j: int| at <= j < front.len() implies !key_le(#[trigger] front[j], x) by {
            assert(front[j] == s[j]);
        }
        lemma_insert_position(front, x, at);
        assert(front.insert(at, x).push(s.last()) =~= s.insert(at, x));
    }
}

/// Whether an entry of kind `rank_a` with the folded name `folded_a` may
/// stand before one of kind `rank_b` with the folded name `folded_b`.
pub fn key_precedes(
    a: &FileItem,
    folded_a: &Vec<char>,
    b: &FileItem,
    folded_b: &Vec<char>,
) -> (r: bool)
    ensures
        r == key_le(
            Keyed { item: a@, folded: folded_a@ },
            Keyed { item: b@, folded: folded_b@ },
        ),
{
    let rank_a: u8 = a.file_type.sort_rank();
    let rank_b: u8 = b.file_type.sort_rank();
    rank_a < rank_b || (rank_a == rank_b && chars_le(folded_a, folded_b))
}

/// Puts `items` in listing order, taking `folded[i]` as the folded name of
/// `items[i]`.
pub fn sort_by_folded_names(items: &Vec<FileItem>, folded: &Vec<Vec<char>>) -> (r: Vec<FileItem>)
    requires
        items.len() == folded.len(),
    ensures
        item_views(r@) == unkeyed(
            sort_keyed(keyed_with(item_views(items@), text_views(folded@))),
        ),
{
    let ghost input = keyed_with(item_views(items@), text_views(folded@));
    let mut out: Vec<FileItem> = Vec::new();
    let mut keys: Vec<Vec<char>> = Vec::new();
    let mut i: usize = 0;
    assert(keyed_with(item_views(out@), text_views(keys@)) =~= sort_keyed(input.take(0)));
    while i < items.len()
        invariant
            i <= items.len(),
            items.len() == folded.len(),
            input == keyed_with(item_views(items@), text_views(folded@)),
            out.len() == keys.len(),
            keyed_with(item_views(out@), text_views(keys@)) == sort_keyed(input.take(i as int)),
        decreases items.len() - i,
    {
        let item = items[i].clone();
        let key = copy_range(&folded[i], 0, folded[i].len());
        assert(key@ =~= folded@[i as int]@);
        let ghost x = Keyed { item: item@, folded: key@ };
        let ghost before = keyed_with(item_views(out@), text_views(keys@));
        let mut at: usize = out.len();
        while at > 0 && !key_precedes(&out[at - 1], &keys[at - 1], &item, &key)
            invariant
                at <= out.len(),
                out.len() == keys.len(),
                before == keyed_with(item_views(out@), text_views(keys@)),
                x == (Keyed { item: item@, folded: key@ }),
                forall|j: int| at <= j < before.len() ==> !key_le(#[trigger] before[j], x),
            decreases at,
        {
            at -= 1;
        }
        proof {
            lemma_insert_position(before, x, at as int);
            assert(input.take(i as int + 1).drop_last() =~= input.take(i as int));
            assert(input.take(i as int + 1).last() == x);
        }
        out.insert(at, item);
        keys.insert(at, key);
        assert(keyed_with(item_views(out@), text_views(keys@)) =~= before.insert(at as int, x));
        i += 1;
    }
    assert(input.take(items.len() as int) =~= input);
    assert(item_views(out@) =~= unkeyed(keyed_with(item_views(out@), text_views(keys@))));
    out
}

/// Puts `items` in listing order: by kind, then by name without regard to
/// case; entries that agree in both keep their order.
pub fn sort_items(items: &Vec<FileItem>) -> (r: Vec<FileItem>)
    ensures
        item_views(r@) == sorted_items(item_views(items@)),
{
    let mut folded: Vec<Vec<char>> = Vec::new();
    let mut i: usize = 0;
    while i < items.len()
        invariant
            i <= items.len(),
            folded.len() == i,
            forall|j: int| 0 <= j < i ==> (#[trigger] folded@[j])@ == lowercase(items@[j]@.name),
        decreases items.len() - i,
    {
        folded.push(items[i].folded_name());
        i += 1;
    }
    assert(keyed_with(item_views(items@), text_views(folded@)) =~= item_views(items@).map_values(
        |i: FileItemView| with_key(i),
    ));
    sort_by_folded_names(items, &folded)
}

} // verus!
