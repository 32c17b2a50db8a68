//! What holds of the store's operations taken together.

use vstd::prelude::*;

use crate::config::Config;
use crate::date::Clock;
use crate::dirs::{empty_dirs, is_empty_dir};
use crate::error::{Missing, NoteError};
use crate::index::{
    duplicate_check, files_by_word, has_duplicate, holding, holds_word, is_named, named,
    note_paths,
};
use crate::notes::{drafted, note_plan, removal, Draft};
use crate::paths::scope_name;
use crate::plan::{Deed, Verdict};
use crate::walk::{
    has_kind, lists_exactly, path_text, paths_where, paths_where_holds, some_fault,
    some_unreadable, Entry, Kind, Visit,
};

verus! {

/// Whether position `at` of a walk is an entry with this path, and the
/// walk reports no fault before it.
pub open spec fn reaches_at(walk: Seq<Visit>, path: Seq<char>, at: int) -> bool {
    &&& 0 <= at < walk.len()
    &&& walk[at] matches Visit::Entry(e) && e.path@ == path
    &&& forall|j: int| 0 <= j < at ==> !(#[trigger] walk[j] is Fault)
}

/// Whether a walk comes to an entry with this path before it reports any
/// fault.
pub open spec fn reaches(walk: Seq<Visit>, path: Seq<char>) -> bool {
    exists|at: int| reaches_at(walk, path, at)
}

/// Whether the visit is an entry with another path.
pub open spec fn is_other(v: Visit, path: Seq<char>) -> bool {
    v matches Visit::Entry(e) && e.path@ != path
}

/// Whether a walk has no fault and no entry with this path.
pub open spec fn lacks(walk: Seq<Visit>, path: Seq<char>) -> bool {
    forall|i: int| 0 <= i < walk.len() ==> is_other(#[trigger] walk[i], path)
}

/// A name is taken exactly if the scope's walk reaches the note's file,
/// and free exactly if the walk is whole and does not hold the file.
pub proof fn duplicate_check_decides(walk: Seq<Visit>, file: Seq<char>)
    ensures
        has_duplicate(walk, file) <==> reaches(walk, file),
        duplicate_check(walk, file) is Ok <==> lacks(walk, file),
    decreases walk.len(),
{
    if walk.len() > 0 {
        let rest = walk.drop_first();
        duplicate_check_decides(rest, file);
        assert(forall|i: int| 0 <= i < rest.len() ==> rest[i] == walk[i + 1]);
        if reaches(walk, file) {
            let at = choose|at: int| reaches_at(walk, file, at);
            if at > 0 {
                assert(!(walk[0] is Fault));
                assert(reaches_at(rest, file, at - 1));
            }
        }
        if reaches(rest, file) && is_other(walk[0], file) {
            let at = choose|at: int| reaches_at(rest, file, at);
            assert forall|j: int| 0 <= j < at + 1 implies !(#[trigger] walk[j] is Fault) by {
                if j > 0 {
                    assert(walk[j] == rest[j - 1]);
                }
            }
            assert(reaches_at(walk, file, at + 1));
        }
        if walk[0] matches Visit::Entry(e) && e.path@ == file {
            assert(reaches_at(walk, file, 0));
        }
        if lacks(walk, file) {
            assert(is_other(walk[0], file));
            assert forall|i: int| 0 <= i < rest.len() implies is_other(
                #[trigger] rest[i],
                file,
            ) by {
                assert(is_other(walk[i + 1], file));
            }
        }
        if lacks(rest, file) && is_other(walk[0], file) {
            assert forall|i: int| 0 <= i < walk.len() implies is_other(
                #[trigger] walk[i],
                file,
            ) by {
                if i > 0 {
                    assert(is_other(rest[i - 1], file));
                }
            }
        }
    }
}

/// Whether `after` is what a walk shows once a file with this path was
/// made among what `before` shows: the same visits in the same order,
/// and the new file somewhere between them.
pub open spec fn with_file(before: Seq<Visit>, path: Seq<char>, after: Seq<Visit>) -> bool {
    exists|at: int, made: Entry|
        0 <= at <= before.len() && made.path@ == path && made.kind == Some(Kind::File)
            && #[trigger] before.insert(at, Visit::Entry(made)) == after
}

/// Once a note was made, its name is taken in its scope. Making it
/// begins with the file itself; the scope's walk then shows the file
/// among what it showed before, and with that it shows a duplicate, so
/// that making a note of the same name in the same scope again is
/// refused with `Conflict`, whatever the clock shows by then, as long
/// as it is the same scope.
pub proof fn made_note_is_taken(
    config: Config,
    name: Seq<char>,
    category: Seq<char>,
    first: Clock,
    second: Clock,
    made: Draft,
    again: Draft,
    before: Seq<Visit>,
    after: Seq<Visit>,
)
    requires
        drafted(Ok(made), config, name, category, first),
        note_plan(made, before) is Ok,
        with_file(before, made.file@, after),
        drafted(Ok(again), config, name, category, second),
        scope_name(category, first) == scope_name(category, second),
    ensures
        note_plan(made, before)->Ok_0[0] == (Deed::CreateFile { path: made.file@ }),
        has_duplicate(after, made.file@),
        note_plan(again, after) == Err::<Seq<Deed>, NoteError>(NoteError::Conflict),
{
    let file = made.file@;
    duplicate_check_decides(before, file);
    duplicate_check_decides(after, file);
    let (at, new) = choose|at: int, new: Entry|
        0 <= at <= before.len() && new.path@ == file && new.kind == Some(Kind::File)
            && #[trigger] before.insert(at, Visit::Entry(new)) == after;
    assert forall|j: int| 0 <= j < at implies !(#[trigger] after[j] is Fault) by {
        assert(after[j] == before[j]);
        assert(is_other(before[j], file));
    }
    assert(reaches_at(after, file, at));
    assert(again.file@ == file);
}

/// A directory that held one note and nothing else goes once the note
/// is removed. Removing a note takes its file away and then prunes; the
/// walk without the file shows the directory empty, which it did not
/// before, so every answer of the pruning names it.
pub proof fn emptied_scope_is_pruned(walk: Seq<Visit>, dir: int, doomed: Seq<usize>)
    requires
        0 <= dir,
        dir + 1 < walk.len(),
        has_kind(walk[dir], Kind::Dir),
        has_kind(walk[dir + 1], Kind::File),
        walk[dir + 1]->Entry_0.depth == walk[dir]->Entry_0.depth + 1,
        dir + 2 < walk.len() ==> (walk[dir + 2] matches Visit::Entry(next) && next.depth
            <= walk[dir]->Entry_0.depth),
        lists_exactly(doomed, walk.len() - 1, empty_dirs(walk.remove(dir + 1))),
    ensures
        removal(Some(path_text(walk[dir + 1]))) == Verdict::Run(
            seq![Deed::RemoveFile { path: path_text(walk[dir + 1]) }, Deed::PruneEmptyDirs],
        ),
        !is_empty_dir(walk, dir),
        is_empty_dir(walk.remove(dir + 1), dir),
        doomed.contains(dir as usize),
{
    let after = walk.remove(dir + 1);
    assert(after[dir] == walk[dir]);
    if dir + 2 < walk.len() {
        assert(after[dir + 1] == walk[dir + 2]);
    }
    assert(is_empty_dir(after, dir));
    assert(empty_dirs(after)(dir));
}

/// A lookup by name does not depend on the order of the walk: two walks
/// of the same visits find the same set of paths, or fail alike. So two
/// lookups with nothing changed in between agree.
pub proof fn find_by_name_ignores_order(a: Seq<Visit>, b: Seq<Visit>, name: Seq<char>)
    requires
        forall|v: Visit| a.contains(v) <==> b.contains(v),
    ensures
        match (note_paths(a, name), note_paths(b, name)) {
            (Ok(x), Ok(y)) => x.to_set() == y.to_set(),
            (Err(e), Err(f)) => e == f,
            _ => false,
        },
{
    let x = paths_where(a, named(name));
    let y = paths_where(b, named(name));
    assert(some_fault(a) <==> some_fault(b)) by {
        if some_fault(a) {
            let i = choose|i: int| 0 <= i < a.len() && #[trigger] a[i] is Fault;
            assert(a.contains(a[i]));
            let j = choose|j: int| 0 <= j < b.len() && b[j] == a[i];
            assert(b[j] is Fault);
        }
        if some_fault(b) {
            let i = choose|i: int| 0 <= i < b.len() && #[trigger] b[i] is Fault;
            assert(b.contains(b[i]));
            let j = choose|j: int| 0 <= j < a.len() && a[j] == b[i];
            assert(a[j] is Fault);
        }
    }
    assert forall|path: Seq<char>| x.contains(path) <==> y.contains(path) by {
        paths_where_holds(a, named(name), path);
        paths_where_holds(b, named(name), path);
        if x.contains(path) {
            let i = choose|i: int|
                0 <= i < a.len() && named(name)(#[trigger] a[i]) && path_text(a[i])
                    == path;
            assert(a.contains(a[i]));
            let j = choose|j: int| 0 <= j < b.len() && b[j] == a[i];
            assert(named(name)(b[j]) && path_text(b[j]) == path);
        }
        if y.contains(path) {
            let i = choose|i: int|
                0 <= i < b.len() && named(name)(#[trigger] b[i]) && path_text(b[i])
                    == path;
            assert(b.contains(b[i]));
            let j = choose|j: int| 0 <= j < a.len() && a[j] == b[i];
            assert(named(name)(a[j]) && path_text(a[j]) == path);
        }
    }
    assert(x.to_set() =~= y.to_set());
    if x.len() > 0 {
        assert(x.contains(x[0]));
        assert(y.len() > 0);
    }
    if y.len() > 0 {
        assert(y.contains(y[0]));
        assert(x.len() > 0);
    }
}

/// Where nothing matches, a search by word and a lookup by name answer
/// differently: the search finds the empty list, which is no error; the
/// lookup fails with `NotFound`.
pub proof fn no_match_is_empty_or_missing(walk: Seq<Visit>, word: Seq<char>, name: Seq<char>)
    requires
        !some_unreadable(walk),
        !some_fault(walk),
        forall|i: int| 0 <= i < walk.len() ==> !holds_word(#[trigger] walk[i], word),
        forall|i: int| 0 <= i < walk.len() ==> !is_named(#[trigger] walk[i], name),
    ensures
        files_by_word(walk, word) == Ok::<Seq<Seq<char>>, NoteError>(Seq::empty()),
        note_paths(walk, name) == Err::<Seq<Seq<char>>, NoteError>(
            NoteError::NotFound(Missing::Note),
        ),
{
    let held = paths_where(walk, holding(word));
    let found = paths_where(walk, named(name));
    if held.len() > 0 {
        paths_where_holds(walk, holding(word), held[0]);
        assert(held.contains(held[0]));
    }
    if found.len() > 0 {
        paths_where_holds(walk, named(name), found[0]);
        assert(found.contains(found[0]));
    }
    assert(held =~= Seq::<Seq<char>>::empty());
}

} // verus!
