//! Paths of the local tree as texts: components separated by `/`.

use crate::text::{copy_range, extend_chars};
use vstd::prelude::*;

verus! {

/// `p` without its trailing separators.
pub open spec fn strip_separators(p: Seq<char>) -> Seq<char>
    decreases p.len(),
{
    if p.len() > 0 && p.last() == '/' {
        strip_separators(p.drop_last())
    } else {
        p
    }
}

/// `p` without what follows its last separator.
pub open spec fn strip_component(p: Seq<char>) -> Seq<char>
    decreases p.len(),
{
    if p.len() > 0 && p.last() != '/' {
        strip_component(p.drop_last())
    } else {
        p
    }
}

/// The root of the tree: separators and nothing else.
pub open spec fn is_root(p: Seq<char>) -> bool {
    p.len() > 0 && strip_separators(p).len() == 0
}

/// The directory that holds `p`: `p` without its last component. The parent
/// of an entry of the root is the root.
pub open spec fn parent_dir(p: Seq<char>) -> Seq<char> {
    let head = strip_separators(strip_component(strip_separators(p)));
    if head.len() == 0 && p.len() > 0 && p[0] == '/' {
        seq!['/']
    } else {
        head
    }
}

/// The path of the entry `name` of the directory `dir`.
pub open spec fn join(dir: Seq<char>, name: Seq<char>) -> Seq<char> {
    if dir.len() == 0 || dir.last() == '/' {
        dir + name
    } else {
        dir.push('/') + name
    }
}

/// `p` as `parent_dir` writes a directory: without trailing separators, the
/// root as a single separator.
pub open spec fn normal(p: Seq<char>) -> Seq<char> {
    if is_root(p) {
        seq!['/']
    } else {
        strip_separators(p)
    }
}

/// Two paths that name the same directory but for trailing separators.
pub open spec fn same_dir(a: Seq<char>, b: Seq<char>) -> bool {
    normal(a) == normal(b)
}

/// Whether `name` can be the name of a directory entry: it is not empty and
/// holds no separator.
pub open spec fn is_entry_name(name: Seq<char>) -> bool {
    name.len() > 0 && !name.contains('/')
}

/// What `strip_separators` leaves is the start of the path, and does not
/// end in a separator.
proof fn lemma_strip_separators_prefix(p: Seq<char>)
    ensures
        strip_separators(p).len() <= p.len(),
        strip_separators(p) == p.take(strip_separators(p).len() as int),
        strip_separators(p).len() > 0 ==> strip_separators(p).last() != '/',
    decreases p.len(),
{
    if p.len() > 0 && p.last() == '/' {
        lemma_strip_separators_prefix(p.drop_last());
        assert(p.drop_last().take(strip_separators(p).len() as int) =~= p.take(
            strip_separators(p).len() as int,
        ));
    } else {
        assert(p.take(p.len() as int) =~= p);
    }
}

/// A name without separators, behind a directory that ends in one, is the
/// last component.
proof fn lemma_strip_component_of_entry(dir: Seq<char>, name: Seq<char>)
    requires
        !name.contains('/'),
        dir.len() == 0 || dir.last() == '/',
    ensures
        strip_component(dir + name) == dir,
    decreases name.len(),
{
    if name.len() == 0 {
        assert(dir + name =~= dir);
    } else {
        let whole = dir + name;
        assert(whole.last() == name.last());
        assert(name.contains(name.last()));
        assert(whole.drop_last() =~= dir + name.drop_last());
        assert forall|c: char| name.drop_last().contains(c) implies name.contains(c) by {
            let i = choose|i: int| 0 <= i < name.drop_last().len() && name.drop_last()[i] == c;
            assert(name[i] == c);
        }
        lemma_strip_component_of_entry(dir, name.drop_last());
    }
}

/// Going into an entry of a directory and up again leads back to that
/// directory: the parent of `join(dir, name)` is `dir`, written without
/// trailing separators.
pub proof fn lemma_parent_of_child(dir: Seq<char>, name: Seq<char>)
    requires
        is_entry_name(name),
    ensures
        parent_dir(join(dir, name)) == normal(dir),
        !is_root(join(dir, name)),
{
    let base = if dir.len() == 0 || dir.last() == '/' {
        dir
    } else {
        dir.push('/')
    };
    let child = join(dir, name);
    assert(child == base + name);
    assert(child.last() == name.last());
    assert(name.contains(name.last()));
    assert(strip_separators(child) == child);
    lemma_strip_component_of_entry(base, name);
    assert(strip_component(child) == base);
    if !(dir.len() == 0 || dir.last() == '/') {
        assert(base.drop_last() =~= dir);
        assert(strip_separators(base) == strip_separators(dir));
        assert(strip_separators(dir) == dir);
    }
    lemma_strip_separators_prefix(dir);
    if dir.len() > 0 {
        assert(child[0] == dir[0]);
        if strip_separators(dir).len() > 0 {
            assert(strip_separators(dir)[0] == dir[0]);
        } else {
            lemma_root_starts_with_separator(dir);
        }
    }
}

/// A directory that is written without trailing separators, and the root
/// written as one separator, are written as `parent_dir` writes them.
pub proof fn lemma_normal_fixed(p: Seq<char>)
    requires
        p.len() == 0 || p.last() != '/' || p == seq!['/'],
    ensures
        normal(p) == p,
{
    if p == seq!['/'] {
        assert(p.drop_last() =~= Seq::<char>::empty());
        assert(strip_separators(p.drop_last()).len() == 0);
    }
}

/// Writing a directory as `parent_dir` writes it, twice, changes nothing
/// more.
pub proof fn lemma_normal_settles(p: Seq<char>)
    ensures
        normal(normal(p)) == normal(p),
{
    lemma_strip_separators_prefix(p);
    if is_root(p) {
        lemma_normal_fixed(seq!['/']);
    } else {
        lemma_normal_fixed(strip_separators(p));
    }
}

/// The root starts with a separator.
proof fn lemma_root_starts_with_separator(p: Seq<char>)
    requires
        is_root(p),
    ensures
        p[0] == '/',
    decreases p.len(),
{
    if p.len() > 1 {
        let front = p.drop_last();
        assert(strip_separators(p) == strip_separators(front));
        lemma_root_starts_with_separator(front);
    }
}

/// The length of `p.take(end)` without its trailing separators.
fn separators_end(p: &Vec<char>, end: usize) -> (r: usize)
    requires
        end <= p.len(),
    ensures
        r <= end,
        p@.take(r as int) == strip_separators(p@.take(end as int)),
{
    let mut r: usize = end;
    while r > 0 && p[r - 1] == '/'
        invariant
            r <= end <= p.len(),
            strip_separators(p@.take(r as int)) == strip_separators(p@.take(end as int)),
        decreases r,
    {
        assert(p@.take(r as int).drop_last() =~= p@.take(r as int - 1));
        r -= 1;
    }
    r
}

/// The length of `p.take(end)` without what follows its last separator.
fn component_end(p: &Vec<char>, end: usize) -> (r: usize)
    requires
        end <= p.len(),
    ensures
        r <= end,
        p@.take(r as int) == strip_component(p@.take(end as int)),
{
    let mut r: usize = end;
    while r > 0 && p[r - 1] != '/'
        invariant
            r <= end <= p.len(),
            strip_component(p@.take(r as int)) == strip_component(p@.take(end as int)),
        decreases r,
    {
        assert(p@.take(r as int).drop_last() =~= p@.take(r as int - 1));
        r -= 1;
    }
    r
}

/// Whether `p` is the root of the tree.
pub fn is_root_path(p: &Vec<char>) -> (r: bool)
    ensures
        r == is_root(p@),
{
    assert(p@.take(p.len() as int) =~= p@);
    p.len() > 0 && separators_end(p, p.len()) == 0
}

/// The directory that holds `p`.
pub fn parent_path(p: &Vec<char>) -> (r: Vec<char>)
    ensures
        r@ == parent_dir(p@),
{
    assert(p@.take(p.len() as int) =~= p@);
    let stripped = separators_end(p, p.len());
    let cut = component_end(p, stripped);
    let head = separators_end(p, cut);
    if head == 0 && p.len() > 0 && p[0] == '/' {
        let mut r: Vec<char> = Vec::new();
        r.push('/');
        assert(r@ =~= seq!['/']);
        r
    } else {
        let r = copy_range(p, 0, head);
        assert(r@ =~= p@.take(head as int));
        r
    }
}

/// The path of the entry `name` of the directory `dir`.
pub fn join_path(dir: &Vec<char>, name: &Vec<char>) -> (r: Vec<char>)
    ensures
        r@ == join(dir@, name@),
{
    let mut r = copy_range(dir, 0, dir.len());
    assert(r@ =~= dir@);
    if dir.len() > 0 && dir[dir.len() - 1] != '/' {
        r.push('/');
    }
    extend_chars(&mut r, name);
    r
}

} // verus!
