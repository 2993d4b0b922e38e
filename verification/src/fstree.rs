//! A snapshot of a source directory tree, and its enumeration.
//!
//! The embedding application lists the source directory with link-aware
//! metadata and records what it saw as an [`FsEntry`] tree: a regular file, a
//! directory with its entries, or a symbolic link — without following the
//! link. Enumeration walks that snapshot and yields the relative path of
//! every regular file, joined with forward slashes; a link contributes
//! nothing, so nothing reachable only through a link is ever archived and a
//! cyclic link cannot cause an endless walk.

use vstd::prelude::*;

verus! {

/// What one directory entry of the snapshot is.
pub enum FsNode {
    /// A regular file.
    File,
    /// A symbolic link, to a file or to a directory; never followed.
    Link,
    /// A directory and the entries listed in it.
    Dir { entries: Vec<FsEntry> },
}

/// One named entry of a directory listing.
pub struct FsEntry {
    pub name: String,
    pub node: FsNode,
}

/// Every path of `paths` with `prefix` prepended.
pub open spec fn prefix_all(prefix: Seq<char>, paths: Seq<Seq<char>>) -> Seq<Seq<char>> {
    paths.map_values(|p: Seq<char>| prefix + p)
}

/// The relative paths of the regular files below one entry: the entry's name
/// for a file, nothing for a link, and the entry's name plus a slash in front
/// of every file path of a directory's listing.
pub open spec fn entry_files(e: FsEntry) -> Seq<Seq<char>>
    decreases e,
{
    match e.node {
        FsNode::File => seq![e.name@],
        FsNode::Link => Seq::empty(),
        FsNode::Dir { entries } => prefix_all(e.name@ + seq!['/'], dir_files(entries@)),
    }
}

/// The relative paths of the regular files below a directory listing, in
/// listing order.
pub open spec fn dir_files(es: Seq<FsEntry>) -> Seq<Seq<char>>
    decreases es,
{
    if es.len() == 0 {
        Seq::empty()
    } else {
        entry_files(es[0]) + dir_files(es.drop_first())
    }
}

/// Appending an entry to a listing appends its file paths to the listing's.
pub proof fn lemma_dir_files_push(es: Seq<FsEntry>, e: FsEntry)
    ensures
        dir_files(es.push(e)) == dir_files(es) + entry_files(e),
    decreases es.len(),
{
    if es.len() == 0 {
        assert(es.push(e).drop_first() =~= Seq::<FsEntry>::empty());
        assert(es.push(e)[0] == e);
        assert(dir_files(Seq::<FsEntry>::empty()) == Seq::<Seq<char>>::empty()) by {
            reveal_with_fuel(dir_files, 2);
        }
        assert(dir_files(es.push(e)) == entry_files(e) + Seq::<Seq<char>>::empty());
        assert(dir_files(es.push(e)) =~= dir_files(es) + entry_files(e));
    } else {
        assert(es.push(e).drop_first() =~= es.drop_first().push(e));
        lemma_dir_files_push(es.drop_first(), e);
        assert(dir_files(es.push(e)) =~= dir_files(es) + entry_files(e));
    }
}

/// Prefixing distributes over concatenation of path lists.
pub proof fn lemma_prefix_all_concat(pre: Seq<char>, a: Seq<Seq<char>>, b: Seq<Seq<char>>)
    ensures
        prefix_all(pre, a + b) == prefix_all(pre, a) + prefix_all(pre, b),
{
    assert(prefix_all(pre, a + b) =~= prefix_all(pre, a) + prefix_all(pre, b));
}

/// Prefixing twice is prefixing with the concatenated prefix.
pub proof fn lemma_prefix_all_compose(p1: Seq<char>, p2: Seq<char>, s: Seq<Seq<char>>)
    ensures
        prefix_all(p1, prefix_all(p2, s)) == prefix_all(p1 + p2, s),
{
    assert(prefix_all(p1, prefix_all(p2, s)) =~~= prefix_all(p1 + p2, s));
}

/// The empty prefix changes nothing.
pub proof fn lemma_prefix_all_empty(s: Seq<Seq<char>>)
    ensures
        prefix_all(Seq::<char>::empty(), s) == s,
{
    assert(prefix_all(Seq::<char>::empty(), s) =~~= s);
}

/// A symbolic link contributes no file: dropping a link entry from a listing
/// leaves the enumerated paths unchanged.
pub proof fn lemma_link_contributes_nothing(es: Seq<FsEntry>, i: int)
    requires
        0 <= i < es.len(),
        es[i].node is Link,
    ensures
        dir_files(es) == dir_files(es.remove(i)),
    decreases es.len(),
{
    if i == 0 {
        assert(es.remove(0) =~= es.drop_first());
        assert(entry_files(es[0]) + dir_files(es.drop_first()) =~= dir_files(es.drop_first()));
    } else {
        lemma_link_contributes_nothing(es.drop_first(), i - 1);
        assert(es.remove(i).drop_first() =~= es.drop_first().remove(i - 1));
        assert(es.remove(i)[0] == es[0]);
        assert(dir_files(es) =~= dir_files(es.remove(i)));
    }
}

/// A name as a directory listing reports it: non-empty, and without a
/// separator in it.
pub open spec fn wf_name(n: Seq<char>) -> bool {
    n.len() > 0 && forall|i: int| 0 <= i < n.len() ==> n[i] != '/'
}

/// A well-formed snapshot entry: its own name is well formed, and so is any
/// directory listing below it.
pub open spec fn wf_entry(e: FsEntry) -> bool
    decreases e,
{
    &&& wf_name(e.name@)
    &&& (e.node matches FsNode::Dir { entries } ==> wf_entries(entries@))
}

/// A well-formed directory listing: every entry is well formed and sibling
/// names are pairwise distinct, as a real directory guarantees.
pub open spec fn wf_entries(es: Seq<FsEntry>) -> bool
    decreases es,
{
    if es.len() == 0 {
        true
    } else {
        &&& wf_entry(es[0])
        &&& (forall|j: int| 1 <= j < es.len() ==> (#[trigger] es[j]).name@ != es[0].name@)
        &&& wf_entries(es.drop_first())
    }
}

proof fn lemma_wf_entry_at(es: Seq<FsEntry>, i: int)
    requires
        wf_entries(es),
        0 <= i < es.len(),
    ensures
        wf_entry(es[i]),
    decreases es.len(),
{
    if i > 0 {
        lemma_wf_entry_at(es.drop_first(), i - 1);
        assert(es.drop_first()[i - 1] == es[i]);
    }
}

proof fn lemma_wf_names_distinct(es: Seq<FsEntry>, i: int, j: int)
    requires
        wf_entries(es),
        0 <= i < j < es.len(),
    ensures
        es[i].name@ != es[j].name@,
    decreases es.len(),
{
    if i > 0 {
        lemma_wf_names_distinct(es.drop_first(), i - 1, j - 1);
        assert(es.drop_first()[i - 1] == es[i]);
        assert(es.drop_first()[j - 1] == es[j]);
    }
}

proof fn lemma_entry_file_shape(e: FsEntry, p: Seq<char>)
    requires
        wf_entry(e),
        entry_files(e).contains(p),
    ensures
        p.len() >= e.name@.len(),
        p.subrange(0, e.name@.len() as int) == e.name@,
        p.len() > e.name@.len() ==> p[e.name@.len() as int] == '/',
{
    let n = e.name@.len() as int;
    let files = entry_files(e);
    let k = choose|k: int| 0 <= k < files.len() && files[k] == p;
    match e.node {
        FsNode::File => {
            assert(p == e.name@);
            assert(p.subrange(0, n) =~= e.name@);
        },
        FsNode::Link => {
            assert(false);
        },
        FsNode::Dir { entries } => {
            let pre = e.name@ + seq!['/'];
            assert(p == pre + dir_files(entries@)[k]);
            assert(p.subrange(0, n) =~= e.name@);
            assert(p[n] == '/');
        },
    }
}

proof fn lemma_entry_files_disjoint(e1: FsEntry, e2: FsEntry, p: Seq<char>)
    requires
        wf_entry(e1),
        wf_entry(e2),
        e1.name@ != e2.name@,
        entry_files(e1).contains(p),
    ensures
        !entry_files(e2).contains(p),
{
    if entry_files(e2).contains(p) {
        lemma_entry_file_shape(e1, p);
        lemma_entry_file_shape(e2, p);
        let n1 = e1.name@.len() as int;
        let n2 = e2.name@.len() as int;
        if n1 == n2 {
            assert(e1.name@ =~= e2.name@);
        } else if n1 < n2 {
            assert(p[n1] == '/');
            assert(e2.name@[n1] == p.subrange(0, n2)[n1]);
            assert(e2.name@[n1] != '/');
        } else {
            assert(p[n2] == '/');
            assert(e1.name@[n2] == p.subrange(0, n1)[n2]);
            assert(e1.name@[n2] != '/');
        }
    }
}

proof fn lemma_dir_files_from_entry(es: Seq<FsEntry>, p: Seq<char>)
    requires
        dir_files(es).contains(p),
    ensures
        exists|i: int| 0 <= i < es.len() && entry_files(#[trigger] es[i]).contains(p),
    decreases es.len(),
{
    assert(es.len() > 0);
    let a = entry_files(es[0]);
    let b = dir_files(es.drop_first());
    let k = choose|k: int| 0 <= k < dir_files(es).len() && dir_files(es)[k] == p;
    if k < a.len() {
        assert(a.contains(p));
        assert(0 <= 0 < es.len() && entry_files(es[0]).contains(p));
    } else {
        assert(b[k - a.len()] == p);
        assert(b.contains(p));
        lemma_dir_files_from_entry(es.drop_first(), p);
        let k2 = choose|i: int|
            0 <= i < es.drop_first().len() && entry_files(#[trigger] es.drop_first()[i]).contains(
                p,
            );
        assert(es.drop_first()[k2] == es[k2 + 1]);
        assert(0 <= k2 + 1 < es.len() && entry_files(es[k2 + 1]).contains(p));
    }
}

proof fn lemma_entry_files_no_dup(e: FsEntry)
    requires
        wf_entry(e),
    ensures
        entry_files(e).no_duplicates(),
    decreases e,
{
    match e.node {
        FsNode::File => {
        },
        FsNode::Link => {
        },
        FsNode::Dir { entries } => {
            lemma_dir_files_no_dup(entries@);
            let pre = e.name@ + seq!['/'];
            let paths = dir_files(entries@);
            let mapped = prefix_all(pre, paths);
            assert forall|i: int, j: int|
                0 <= i < mapped.len() && 0 <= j < mapped.len() && i != j implies mapped[i]
                != mapped[j] by {
                if mapped[i] == mapped[j] {
                    assert(paths[i] =~= (pre + paths[i]).subrange(
                        pre.len() as int,
                        (pre + paths[i]).len() as int,
                    ));
                    assert(paths[j] =~= (pre + paths[j]).subrange(
                        pre.len() as int,
                        (pre + paths[j]).len() as int,
                    ));
                }
            }
        },
    }
}

/// Every eligible file appears exactly once: over a well-formed snapshot the
/// enumerated relative paths are pairwise distinct.
pub proof fn lemma_dir_files_no_dup(es: Seq<FsEntry>)
    requires
        wf_entries(es),
    ensures
        dir_files(es).no_duplicates(),
    decreases es,
{
    if es.len() > 0 {
        lemma_entry_files_no_dup(es[0]);
        lemma_dir_files_no_dup(es.drop_first());
        let a = entry_files(es[0]);
        let b = dir_files(es.drop_first());
        assert(dir_files(es) == a + b);
        assert forall|i: int, j: int|
            0 <= i < (a + b).len() && 0 <= j < (a + b).len() && i != j implies (a + b)[i] != (a
            + b)[j] by {
            if i < a.len() && j >= a.len() {
                lemma_dir_files_cross(es, i, j);
            } else if j < a.len() && i >= a.len() {
                lemma_dir_files_cross(es, j, i);
            }
        }
    }
}

proof fn lemma_dir_files_cross(es: Seq<FsEntry>, i: int, j: int)
    requires
        wf_entries(es),
        es.len() > 0,
        0 <= i < entry_files(es[0]).len(),
        entry_files(es[0]).len() <= j < dir_files(es).len(),
    ensures
        dir_files(es)[i] != dir_files(es)[j],
{
    let a = entry_files(es[0]);
    let b = dir_files(es.drop_first());
    let p = a[i];
    let q = b[j - a.len()];
    if p == q {
        assert(a.contains(p));
        assert(b.contains(q));
        lemma_dir_files_from_entry(es.drop_first(), q);
        let k = choose|k: int|
            0 <= k < es.drop_first().len() && entry_files(#[trigger] es.drop_first()[k]).contains(
                q,
            );
        assert(es.drop_first()[k] == es[k + 1]);
        lemma_wf_entry_at(es, 0);
        lemma_wf_entry_at(es, k + 1);
        lemma_wf_names_distinct(es, 0, k + 1);
        lemma_entry_files_disjoint(es[0], es[k + 1], p);
    }
}

fn collect_entry(e: &FsEntry, prefix: &String, out: &mut Vec<String>)
    ensures
        final(out).deep_view() == old(out).deep_view() + prefix_all(prefix@, entry_files(*e)),
    decreases e,
{
    match &e.node {
        FsNode::File => {
            let mut p = prefix.clone();
            p.append(e.name.as_str());
            out.push(p);
            proof {
                assert(out.deep_view() =~= old(out).deep_view() + prefix_all(
                    prefix@,
                    entry_files(*e),
                ));
            }
        },
        FsNode::Link => {
            proof {
                assert(out.deep_view() =~= old(out).deep_view() + prefix_all(
                    prefix@,
                    entry_files(*e),
                ));
            }
        },
        FsNode::Dir { entries } => {
            let mut p = prefix.clone();
            p.append(e.name.as_str());
            p.append("/");
            collect_dir(entries, &p, out);
            proof {
                reveal_strlit("/");
                assert("/"@ =~= seq!['/']);
                assert(p@ =~= prefix@ + (e.name@ + seq!['/']));
                lemma_prefix_all_compose(prefix@, e.name@ + seq!['/'], dir_files(entries@));
            }
        },
    }
}

fn collect_dir(es: &Vec<FsEntry>, prefix: &String, out: &mut Vec<String>)
    ensures
        final(out).deep_view() == old(out).deep_view() + prefix_all(prefix@, dir_files(es@)),
    decreases es,
{
    proof {
        assert(es@.take(0) =~= Seq::<FsEntry>::empty());
        assert(old(out).deep_view() + prefix_all(prefix@, dir_files(es@.take(0))) =~= old(
            out,
        ).deep_view());
    }
    let mut i: usize = 0;
    while i < es.len()
        invariant
            i <= es@.len(),
            out.deep_view() == old(out).deep_view() + prefix_all(
                prefix@,
                dir_files(es@.take(i as int)),
            ),
        decreases es@.len() - i,
    {
        collect_entry(&es[i], prefix, out);
        proof {
            assert(es@.take(i + 1) =~= es@.take(i as int).push(es@[i as int]));
            lemma_dir_files_push(es@.take(i as int), es@[i as int]);
            lemma_prefix_all_concat(prefix@, dir_files(es@.take(i as int)), entry_files(es@[i as int]));
            assert(old(out).deep_view() + prefix_all(prefix@, dir_files(es@.take(i as int)))
                + prefix_all(prefix@, entry_files(es@[i as int])) =~= old(out).deep_view()
                + prefix_all(prefix@, dir_files(es@.take(i + 1))));
        }
        i += 1;
    }
    proof {
        assert(es@.take(es@.len() as int) =~= es@);
    }
}

/// Walks a snapshot of the source directory and returns the forward-slash
/// relative path of every regular file in it, in listing order; symbolic
/// links and everything below them are left out.
pub fn enumerate_files(root: &Vec<FsEntry>) -> (r: Vec<String>)
    ensures
        r.deep_view() == dir_files(root@),
{
    let mut out: Vec<String> = Vec::new();
    let prefix = String::new();
    collect_dir(root, &prefix, &mut out);
    proof {
        lemma_prefix_all_empty(dir_files(root@));
        assert(out.deep_view() =~= dir_files(root@));
    }
    out
}

} // verus!
