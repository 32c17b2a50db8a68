//! What a walk over the store's directory tree brings back.
//!
//! A walk visits a directory before what it holds, so an entry's
//! descendants follow it directly, each deeper than the entry itself.

use vstd::prelude::*;

verus! {

/// What kind of thing an entry of the tree is.
#[derive(Clone, Copy, Debug, PartialEq, Eq, Structural)]
pub enum Kind {
    /// A regular file.
    File,
    /// A directory.
    Dir,
    /// Anything else.
    Other,
}

/// One entry of the tree, as the walk saw it.
#[derive(Clone, Debug, PartialEq, Eq)]
pub struct Entry {
    /// The full path; empty where it cannot be written as text.
    pub path: String,
    /// The last component of the path; empty where it cannot be written
    /// as text.
    pub file_name: String,
    /// How far below the walk's root the entry lies; the root is at 0.
    pub depth: usize,
    /// The kind; `None` where the entry's metadata could not be read.
    pub kind: Option<Kind>,
    /// When the entry was made, in seconds since the epoch; `None` where
    /// the file system does not say.
    pub created: Option<i64>,
    /// What the file holds; `None` where it could not be opened or was
    /// not asked for.
    pub text: Option<String>,
}

/// One step of a walk: an entry, or the report that one could not be
/// reached.
#[derive(Clone, Debug, PartialEq, Eq)]
pub enum Visit {
    Entry(Entry),
    Fault,
}

/// The path of a visit; a fault has none.
pub open spec fn path_text(v: Visit) -> Seq<char> {
    match v {
        Visit::Entry(e) => e.path@,
        Visit::Fault => Seq::empty(),
    }
}

/// Whether the visit is an entry whose metadata could not be read.
pub open spec fn unreadable(v: Visit) -> bool {
    v matches Visit::Entry(e) && e.kind is None
}

/// Whether the visit is an entry of the given kind.
pub open spec fn has_kind(v: Visit, kind: Kind) -> bool {
    v matches Visit::Entry(e) && e.kind == Some(kind)
}

/// Whether a walk holds an entry whose metadata could not be read.
pub open spec fn some_unreadable(walk: Seq<Visit>) -> bool {
    exists|i: int| 0 <= i < walk.len() && unreadable(#[trigger] walk[i])
}

/// Whether a walk reports a fault.
pub open spec fn some_fault(walk: Seq<Visit>) -> bool {
    exists|i: int| 0 <= i < walk.len() && #[trigger] walk[i] is Fault
}

/// What is read off a visit where its path is asked for.
pub open spec fn by_path() -> spec_fn(Visit) -> Seq<char> {
    |v: Visit| path_text(v)
}

/// What is read off a visit where its contents are asked for.
pub open spec fn by_contents() -> spec_fn(Visit) -> Seq<char> {
    |v: Visit| contents(v)
}

/// The paths of the visits that `keep` accepts, in the order of the walk.
pub open spec fn paths_where(walk: Seq<Visit>, keep: spec_fn(Visit) -> bool) -> Seq<Seq<char>> {
    walk.filter(keep).map_values(by_path())
}

/// The contents of a visit, where they were read.
pub open spec fn contents(v: Visit) -> Seq<char> {
    match v {
        Visit::Entry(e) => match e.text {
            Some(t) => t@,
            None => Seq::empty(),
        },
        Visit::Fault => Seq::empty(),
    }
}

/// The contents of the visits that `keep` accepts, in the order of the
/// walk.
pub open spec fn texts_where(walk: Seq<Visit>, keep: spec_fn(Visit) -> bool) -> Seq<Seq<char>> {
    walk.filter(keep).map_values(by_contents())
}

/// Whether `listed` names, in ascending order, exactly the positions
/// below `len` that `keep` accepts.
pub open spec fn lists_exactly(listed: Seq<usize>, len: int, keep: spec_fn(int) -> bool) -> bool {
    &&& forall|k: int|
        0 <= k < listed.len() ==> #[trigger] listed[k] < len && keep(listed[k] as int)
    &&& forall|j: int, k: int| 0 <= j < k < listed.len() ==> listed[j] < listed[k]
    &&& forall|i: int| 0 <= i < len && #[trigger] keep(i) ==> listed.contains(i as usize)
}

/// Taking one more visit into account adds what is read off it where
/// `keep` accepts it, and nothing otherwise.
proof fn kept_step(
    walk: Seq<Visit>,
    keep: spec_fn(Visit) -> bool,
    read: spec_fn(Visit) -> Seq<char>,
    i: int,
)
    requires
        0 <= i < walk.len(),
    ensures
        walk.take(i + 1).filter(keep).map_values(read) == if keep(walk[i]) {
            walk.take(i).filter(keep).map_values(read).push(read(walk[i]))
        } else {
            walk.take(i).filter(keep).map_values(read)
        },
{
    let before = walk.take(i);
    assert(walk.take(i + 1) =~= before.push(walk[i]));
    before.lemma_filter_push(walk[i], keep);
    if keep(walk[i]) {
        assert(before.filter(keep).push(walk[i]).map_values(read) =~= before.filter(
            keep,
        ).map_values(read).push(read(walk[i])));
    }
}

/// Taking one more visit into account adds its path where `keep` accepts
/// it, and nothing otherwise.
pub proof fn paths_where_step(walk: Seq<Visit>, keep: spec_fn(Visit) -> bool, i: int)
    requires
        0 <= i < walk.len(),
    ensures
        paths_where(walk.take(i + 1), keep) == if keep(walk[i]) {
            paths_where(walk.take(i), keep).push(path_text(walk[i]))
        } else {
            paths_where(walk.take(i), keep)
        },
{
    kept_step(walk, keep, by_path(), i);
}

/// Taking one more visit into account adds its contents where `keep`
/// accepts it, and nothing otherwise.
pub proof fn texts_where_step(walk: Seq<Visit>, keep: spec_fn(Visit) -> bool, i: int)
    requires
        0 <= i < walk.len(),
    ensures
        texts_where(walk.take(i + 1), keep) == if keep(walk[i]) {
            texts_where(walk.take(i), keep).push(contents(walk[i]))
        } else {
            texts_where(walk.take(i), keep)
        },
{
    kept_step(walk, keep, by_contents(), i);
}

/// Taking one more position into account adds it to the list where
/// `keep` accepts it, and nothing otherwise.
pub proof fn lists_exactly_step(listed: Seq<usize>, i: usize, keep: spec_fn(int) -> bool)
    requires
        lists_exactly(listed, i as int, keep),
    ensures
        keep(i as int) ==> lists_exactly(listed.push(i), i + 1, keep),
        !keep(i as int) ==> lists_exactly(listed, i + 1, keep),
{
    if keep(i as int) {
        let longer = listed.push(i);
        assert forall|k: int| 0 <= k < longer.len() implies #[trigger] longer[k] < i + 1 && keep(
            longer[k] as int,
        ) by {
            if k < listed.len() {
                assert(longer[k] == listed[k]);
            }
        }
        assert forall|j: int, k: int| 0 <= j < k < longer.len() implies longer[j] < longer[k] by {
            assert(longer[j] == listed[j]);
            if k < listed.len() {
                assert(longer[k] == listed[k]);
            }
        }
        assert forall|at: int| 0 <= at < i + 1 && #[trigger] keep(at) implies longer.contains(
            at as usize,
        ) by {
            if at < i {
                assert(listed.contains(at as usize));
                let k = choose|k: int| 0 <= k < listed.len() && listed[k] == at as usize;
                assert(longer[k] == at as usize);
            } else {
                assert(longer[listed.len() as int] == i);
            }
        }
    }
}

/// A path is among those kept exactly if a visit that `keep` accepts has
/// it.
pub proof fn paths_where_holds(walk: Seq<Visit>, keep: spec_fn(Visit) -> bool, path: Seq<char>)
    ensures
        paths_where(walk, keep).contains(path) <==> exists|i: int|
            0 <= i < walk.len() && keep(#[trigger] walk[i]) && path_text(walk[i]) == path,
{
    broadcast use vstd::seq_lib::group_filter_ensures;

    let kept = walk.filter(keep);
    let paths = paths_where(walk, keep);
    if paths.contains(path) {
        let k = choose|k: int| 0 <= k < paths.len() && paths[k] == path;
        assert(kept.contains(kept[k]));
        walk.lemma_filter_contains_rev(keep, kept[k]);
        let i = choose|i: int| 0 <= i < walk.len() && walk[i] == kept[k];
        assert(keep(walk[i]) && path_text(walk[i]) == path);
    }
    if exists|i: int|
        0 <= i < walk.len() && keep(#[trigger] walk[i]) && path_text(walk[i]) == path {
        let i = choose|i: int|
            0 <= i < walk.len() && keep(#[trigger] walk[i]) && path_text(walk[i]) == path;
        assert(kept.contains(walk[i]));
        let k = choose|k: int| 0 <= k < kept.len() && kept[k] == walk[i];
        assert(paths[k] == path);
    }
}

} // verus!
