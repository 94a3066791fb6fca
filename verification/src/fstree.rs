//! A snapshot of the part of the file tree under the root, and the
//! enumeration of candidate file paths over it.
//!
//! The filesystem itself is outside the library; a caller lists the real
//! directories and hands the listing over as an `FsTree` value, each node
//! carrying its full path. Enumeration order is the order of the entries
//! as given, matching the order the directory listing yielded them in.

use vstd::prelude::*;

verus! {

/// One node of the file-tree snapshot: a regular file, or a directory
/// with its entries in listing order.
pub enum FsTree {
    File { path: String },
    Dir { path: String, entries: Vec<FsTree> },
}

/// The candidate paths one node contributes under recursive traversal:
/// a file contributes itself, a directory contributes every file under
/// it, transitively, in entry order.
pub open spec fn files_under(t: FsTree) -> Seq<Seq<char>>
    decreases t,
{
    match t {
        FsTree::File { path } => seq![path@],
        FsTree::Dir { path, entries } => files_under_all(entries@),
    }
}

/// The concatenation of the recursive contributions of a list of nodes.
pub open spec fn files_under_all(s: Seq<FsTree>) -> Seq<Seq<char>>
    decreases s,
{
    if s.len() == 0 {
        Seq::empty()
    } else {
        files_under_all(s.drop_last()) + files_under(s.last())
    }
}

/// The direct files among a list of nodes, in order; directories are
/// skipped entirely, not descended into.
pub open spec fn direct_files(s: Seq<FsTree>) -> Seq<Seq<char>>
    decreases s,
{
    if s.len() == 0 {
        Seq::empty()
    } else {
        direct_files(s.drop_last()) + (match s.last() {
            FsTree::File { path } => seq![path@],
            FsTree::Dir { path, entries } => Seq::empty(),
        })
    }
}

/// What enumeration yields for a root node: a file is the singleton of
/// itself whatever the mode; a directory yields its direct files, or
/// every file under it when recursing.
pub open spec fn enumerate_spec(t: FsTree, recurse: bool) -> Seq<Seq<char>> {
    match t {
        FsTree::File { path } => seq![path@],
        FsTree::Dir { path, entries } => if recurse {
            files_under_all(entries@)
        } else {
            direct_files(entries@)
        },
    }
}

/// The given path lies under at least one subdirectory among the nodes.
pub open spec fn under_some_subdir(entries: Seq<FsTree>, p: Seq<char>) -> bool {
    exists|j: int|
        0 <= j < entries.len() && entries[j] is Dir && files_under_all(
            (entries[j])->Dir_entries@,
        ).contains(p)
}

/// A concatenation holds a value exactly when one of its parts does.
proof fn lemma_contains_add(a: Seq<Seq<char>>, b: Seq<Seq<char>>, p: Seq<char>)
    ensures
        (a + b).contains(p) <==> (a.contains(p) || b.contains(p)),
{
    if a.contains(p) {
        let i = choose|i: int| 0 <= i < a.len() && a[i] == p;
        assert((a + b)[i] == p);
    }
    if b.contains(p) {
        let i = choose|i: int| 0 <= i < b.len() && b[i] == p;
        assert((a + b)[a.len() + i] == p);
    }
    if (a + b).contains(p) {
        let i = choose|i: int| 0 <= i < (a + b).len() && (a + b)[i] == p;
        if i < a.len() {
            assert(a[i] == p);
        } else {
            assert(b[i - a.len()] == p);
        }
    }
}

/// A path lies under some subdirectory of an extended list exactly when
/// it lay under one already, or under the newly added node.
proof fn lemma_under_some_subdir_extend(entries: Seq<FsTree>, p: Seq<char>)
    requires
        entries.len() > 0,
    ensures
        under_some_subdir(entries, p) <==> (under_some_subdir(entries.drop_last(), p) || (
        entries.last() is Dir && files_under_all((entries.last())->Dir_entries@).contains(p))),
{
    let s0 = entries.drop_last();
    if under_some_subdir(s0, p) {
        let j = choose|j: int|
            0 <= j < s0.len() && s0[j] is Dir && files_under_all((s0[j])->Dir_entries@).contains(p);
        assert(entries[j] == s0[j]);
        assert(under_some_subdir(entries, p));
    }
    if entries.last() is Dir && files_under_all((entries.last())->Dir_entries@).contains(p) {
        assert(entries[entries.len() - 1] == entries.last());
        assert(under_some_subdir(entries, p));
    }
    if under_some_subdir(entries, p) {
        let j = choose|j: int|
            0 <= j < entries.len() && entries[j] is Dir && files_under_all(
                (entries[j])->Dir_entries@,
            ).contains(p);
        if j < entries.len() - 1 {
            assert(s0[j] == entries[j]);
            assert(under_some_subdir(s0, p));
        } else {
            assert(entries[j] == entries.last());
        }
    }
}

/// What recursive enumeration of a directory's entries covers: a path
/// is among the files under the entries exactly when it is one of the
/// direct files, or lies under one of the subdirectories, transitively.
pub proof fn lemma_recursive_enumeration_covers(entries: Seq<FsTree>, p: Seq<char>)
    ensures
        files_under_all(entries).contains(p) <==> (direct_files(entries).contains(p)
            || under_some_subdir(entries, p)),
    decreases entries,
{
    if entries.len() == 0 {
        assert(!files_under_all(entries).contains(p));
        assert(!direct_files(entries).contains(p));
    } else {
        let s0 = entries.drop_last();
        let x = entries.last();
        lemma_recursive_enumeration_covers(s0, p);
        lemma_under_some_subdir_extend(entries, p);
        lemma_contains_add(files_under_all(s0), files_under(x), p);
        match x {
            FsTree::File { path } => {
                lemma_contains_add(direct_files(s0), seq![path@], p);
                assert(files_under(x) =~= seq![path@]);
                assert(seq![path@].contains(p) <==> p == path@) by {
                    if seq![path@].contains(p) {
                        let i = choose|i: int| 0 <= i < 1 && seq![path@][i] == p;
                        assert(seq![path@][0] == path@);
                    }
                    if p == path@ {
                        assert(seq![path@][0] == p);
                    }
                }
            },
            FsTree::Dir { path, entries: e } => {
                lemma_contains_add(direct_files(s0), Seq::empty(), p);
                assert(!Seq::<Seq<char>>::empty().contains(p));
                assert(files_under(x) == files_under_all(e@));
            },
        }
    }
}

/// Enumeration of a directory root: without recursion it is exactly
/// the direct files, and with recursion it covers a path exactly when
/// the path is a direct file or lies under some subdirectory.
pub proof fn lemma_directory_enumeration(path: String, entries: Vec<FsTree>, p: Seq<char>)
    ensures
        enumerate_spec(FsTree::Dir { path, entries }, false) == direct_files(entries@),
        enumerate_spec(FsTree::Dir { path, entries }, true).contains(p) <==> (direct_files(
            entries@,
        ).contains(p) || under_some_subdir(entries@, p)),
{
    lemma_recursive_enumeration_covers(entries@, p);
}

/// Enumeration of a single-file root is the singleton of that file,
/// independent of the recursion toggle.
pub proof fn lemma_single_file_enumeration(path: String, recurse: bool)
    ensures
        enumerate_spec(FsTree::File { path }, recurse) == seq![path@],
        enumerate_spec(FsTree::File { path }, recurse) == enumerate_spec(
            FsTree::File { path },
            !recurse,
        ),
{
}

/// Collects the direct files of a directory node; on a file node there
/// are no entries to list and the result is empty.
pub fn list_files(t: &FsTree) -> (r: Vec<String>)
    ensures
        r.deep_view() == (match *t {
            FsTree::Dir { path, entries } => direct_files(entries@),
            FsTree::File { path } => Seq::<Seq<char>>::empty(),
        }),
{
    let mut out: Vec<String> = Vec::new();
    match t {
        FsTree::File { path } => {
            proof {
                assert(out.deep_view() =~= Seq::<Seq<char>>::empty());
            }
        },
        FsTree::Dir { path, entries } => {
            let n = entries.len();
            let mut i: usize = 0;
            while i < n
                invariant
                    n == entries@.len(),
                    i <= n,
                    out.deep_view() =~= direct_files(entries@.subrange(0, i as int)),
                decreases n - i,
            {
                proof {
                    assert(entries@.subrange(0, i + 1).drop_last() =~= entries@.subrange(0, i as int));
                    assert(entries@.subrange(0, i + 1).last() == entries@[i as int]);
                }
                match &entries[i] {
                    FsTree::File { path: p } => {
                        out.push(p.clone());
                    },
                    FsTree::Dir { path: p, entries: e } => {},
                }
                proof {
                    assert(out.deep_view() =~= direct_files(entries@.subrange(0, i + 1)));
                }
                i = i + 1;
            }
            proof {
                assert(entries@.subrange(0, n as int) =~= entries@);
            }
        },
    }
    out
}

/// Collects every file under a list of nodes transitively, depth-first
/// in entry order.
fn collect_files_under(entries: &Vec<FsTree>) -> (r: Vec<String>)
    ensures
        r.deep_view() == files_under_all(entries@),
    decreases entries@,
{
    let mut out: Vec<String> = Vec::new();
    let n = entries.len();
    let mut i: usize = 0;
    while i < n
        invariant
            n == entries@.len(),
            i <= n,
            out.deep_view() =~~= files_under_all(entries@.subrange(0, i as int)),
        decreases n - i,
    {
        proof {
            assert(entries@.subrange(0, i + 1).drop_last() =~= entries@.subrange(0, i as int));
            assert(entries@.subrange(0, i + 1).last() == entries@[i as int]);
        }
        match &entries[i] {
            FsTree::File { path: p } => {
                out.push(p.clone());
            },
            FsTree::Dir { path: p, entries: e } => {
                proof {
                    assert(entries@[i as int] is Dir);
                    assert((entries@[i as int])->Dir_entries == *e);
                    assert(decreases_to!(entries@ => entries@[i as int]));
                    assert(decreases_to!(entries@[i as int] => (entries@[i as int])->Dir_entries));
                    assert(decreases_to!(*e => e@));
                }
                let mut sub = collect_files_under(e);
                proof {
                    assert(sub.deep_view() =~~= files_under(entries@[i as int]));
                }
                out.append(&mut sub);
            },
        }
        proof {
            assert(files_under_all(entries@.subrange(0, i + 1)) == files_under_all(
                entries@.subrange(0, i as int),
            ) + files_under(entries@[i as int]));
            assert(out.deep_view() =~~= files_under_all(entries@.subrange(0, i + 1)));
        }
        i = i + 1;
    }
    proof {
        assert(entries@.subrange(0, n as int) =~= entries@);
    }
    out
}

/// Collects every file under a directory node transitively, depth-first
/// in entry order; on a file node the result is empty.
pub fn list_files_recurse(t: &FsTree) -> (r: Vec<String>)
    ensures
        r.deep_view() == (match *t {
            FsTree::Dir { path, entries } => files_under_all(entries@),
            FsTree::File { path } => Seq::<Seq<char>>::empty(),
        }),
{
    match t {
        FsTree::File { path } => {
            let out: Vec<String> = Vec::new();
            proof {
                assert(out.deep_view() =~= Seq::<Seq<char>>::empty());
            }
            out
        },
        FsTree::Dir { path, entries } => collect_files_under(entries),
    }
}

/// Enumerates the candidate file paths for a root node: the three cases
/// of `enumerate_spec`, checked in that order.
pub fn enumerate(root: &FsTree, recurse: bool) -> (r: Vec<String>)
    ensures
        r.deep_view() == enumerate_spec(*root, recurse),
{
    match root {
        FsTree::File { path } => {
            let mut out: Vec<String> = Vec::new();
            out.push(path.clone());
            proof {
                assert(out.deep_view() =~= seq![path@]);
            }
            out
        },
        FsTree::Dir { path, entries } => {
            if recurse {
                list_files_recurse(root)
            } else {
                list_files(root)
            }
        },
    }
}

} // verus!
