//! The directory manager: making scope directories, and clearing away
//! the empty ones.

use vstd::prelude::*;
use vstd::string::*;

use crate::config::Config;
use crate::date::Clock;
use crate::error::NoteError;
use crate::paths::{base_of, get_base_path, get_scope_dir, has_scope, scope_dir};
use crate::plan::{deeds, plan_of, Action, Deed, DIR_MODE};
use crate::walk::{has_kind, lists_exactly, lists_exactly_step, Entry, Kind, Visit};

verus! {

/// What making a scope's directory takes: the directory with all above
/// it, then owner-only permissions on it and on the store's root.
pub open spec fn dir_plan(config: Config, category: Seq<char>, clock: Clock) -> Result<
    Seq<Deed>,
    NoteError,
> {
    match scope_dir(config, category, clock) {
        Ok(dir) => Ok(
            seq![
                Deed::CreateDirAll { path: dir },
                Deed::SetPermissions { path: dir, mode: DIR_MODE },
                Deed::SetPermissions { path: base_of(config.data_home->0@), mode: DIR_MODE },
            ],
        ),
        Err(e) => Err(e),
    }
}

/// Whether position `i` of a walk is a directory that the walk shows
/// empty: no entry below it follows.
pub open spec fn is_empty_dir(walk: Seq<Visit>, i: int) -> bool {
    &&& 0 <= i < walk.len()
    &&& has_kind(walk[i], Kind::Dir)
    &&& (i + 1 == walk.len() || (walk[i + 1] matches Visit::Entry(next) && next.depth
        <= walk[i]->Entry_0.depth))
}

/// The choice of the empty directories of a walk.
pub open spec fn empty_dirs(walk: Seq<Visit>) -> spec_fn(int) -> bool {
    |i: int| is_empty_dir(walk, i)
}

/// The actions that make the directory of a scope at a clock reading.
/// Doing them again on a directory that is there only sets the
/// permissions once more.
pub fn create_dir(config: &Config, category: &str, clock: &Clock) -> (plan: Result<
    Vec<Action>,
    NoteError,
>)
    ensures
        plan_of(plan) == dir_plan(*config, category@, *clock),
        has_scope(*config, category@, *clock) ==> plan is Ok,
{
    let base = match get_base_path(config) {
        Ok(base) => base,
        Err(e) => { return Err(e); },
    };
    let dir = match get_scope_dir(config, category, clock) {
        Ok(dir) => dir,
        Err(e) => { return Err(e); },
    };
    let mut plan: Vec<Action> = Vec::new();
    plan.push(Action::CreateDirAll { path: dir.clone() });
    plan.push(Action::SetPermissions { path: dir, mode: DIR_MODE });
    plan.push(Action::SetPermissions { path: base, mode: DIR_MODE });
    assert(deeds(plan@) =~= dir_plan(*config, category@, *clock)->Ok_0);
    Ok(plan)
}

fn is_dir(entry: &Entry) -> (yes: bool)
    ensures
        yes == has_kind(Visit::Entry(*entry), Kind::Dir),
{
    match entry.kind {
        Some(Kind::Dir) => true,
        _ => false,
    }
}

fn shows_empty(walk: &Vec<Visit>, i: usize) -> (yes: bool)
    requires
        i < walk.len(),
    ensures
        yes == is_empty_dir(walk@, i as int),
{
    match &walk[i] {
        Visit::Entry(entry) => {
            if !is_dir(entry) {
                false
            } else if i + 1 == walk.len() {
                true
            } else {
                match &walk[i + 1] {
                    Visit::Entry(next) => next.depth <= entry.depth,
                    Visit::Fault => false,
                }
            }
        },
        Visit::Fault => false,
    }
}

/// The empty directories of a walk, by position and in the walk's order:
/// they are the ones to remove. A directory that only holds an empty
/// directory is not among them: it still holds something when the walk
/// passes it. A walk of nothing, as of a store that is not there yet,
/// names none.
pub fn remove_empty_dirs(walk: &Vec<Visit>) -> (doomed: Vec<usize>)
    ensures
        lists_exactly(doomed@, walk@.len() as int, empty_dirs(walk@)),
{
    let mut doomed: Vec<usize> = Vec::new();
    let mut i: usize = 0;
    while i < walk.len()
        invariant
            i <= walk.len(),
            lists_exactly(doomed@, i as int, empty_dirs(walk@)),
        decreases walk.len() - i,
    {
        proof {
            lists_exactly_step(doomed@, i, empty_dirs(walk@));
        }
        if shows_empty(walk, i) {
            doomed.push(i);
        }
        i += 1;
    }
    doomed
}

} // verus!
