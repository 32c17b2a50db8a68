//! The note index: which notes a walk of the store shows.
//!
//! Each function takes what a walk brought back and says what it holds;
//! none of them reads the disk.

use vstd::prelude::*;
use vstd::string::*;

use crate::error::{Missing, NoteError};
use crate::paths::note_file_name;
use crate::text::{contains, occurs, views};
use crate::walk::{
    has_kind, paths_where, paths_where_step, some_fault, some_unreadable, unreadable, Entry, Kind,
    Visit,
};

verus! {

/// The texts of a list of paths, or the error in its place.
pub open spec fn paths_of(r: Result<Vec<String>, NoteError>) -> Result<Seq<Seq<char>>, NoteError> {
    match r {
        Ok(paths) => Ok(views(paths@)),
        Err(e) => Err(e),
    }
}

/// Whether the visit is a regular file whose path can be written as text.
pub open spec fn is_note(v: Visit) -> bool {
    has_kind(v, Kind::File) && v->Entry_0.path@.len() > 0
}

/// Whether the visit is an entry with the file name of the note `name`.
pub open spec fn is_named(v: Visit, name: Seq<char>) -> bool {
    v matches Visit::Entry(e) && e.file_name@ == note_file_name(name)
}

/// Whether the visit is a note whose contents were read and hold `word`.
pub open spec fn holds_word(v: Visit, word: Seq<char>) -> bool {
    is_note(v) && (v->Entry_0.text matches Some(t) && occurs(t@, word))
}

/// The choice of the notes.
pub open spec fn notes() -> spec_fn(Visit) -> bool {
    |v: Visit| is_note(v)
}

/// The choice of the entries named like the note `name`.
pub open spec fn named(name: Seq<char>) -> spec_fn(Visit) -> bool {
    |v: Visit| is_named(v, name)
}

/// The choice of the notes that hold `word`.
pub open spec fn holding(word: Seq<char>) -> spec_fn(Visit) -> bool {
    |v: Visit| holds_word(v, word)
}

/// The notes of a walk: the paths of its regular files, in its order.
/// `Io` where an entry's metadata could not be read, `NotFound` where no
/// file is left to name.
pub open spec fn all_notes(walk: Seq<Visit>, missing: Missing) -> Result<
    Seq<Seq<char>>,
    NoteError,
> {
    if some_unreadable(walk) {
        Err(NoteError::Io)
    } else if paths_where(walk, notes()).len() == 0 {
        Err(NoteError::NotFound(missing))
    } else {
        Ok(paths_where(walk, notes()))
    }
}

/// The notes of a category whose directory was walked, if it is there.
pub open spec fn notes_in_category(listing: Option<Seq<Visit>>) -> Result<
    Seq<Seq<char>>,
    NoteError,
> {
    match listing {
        Some(walk) => all_notes(walk, Missing::CategoryContents),
        None => Err(NoteError::NotFound(Missing::Category)),
    }
}

/// The paths of every entry named like the note `name`, in the order of
/// the walk. `Io` where the walk reports a fault, `NotFound` where no
/// entry has the name.
pub open spec fn note_paths(walk: Seq<Visit>, name: Seq<char>) -> Result<
    Seq<Seq<char>>,
    NoteError,
> {
    if some_fault(walk) {
        Err(NoteError::Io)
    } else if paths_where(walk, named(name)).len() == 0 {
        Err(NoteError::NotFound(Missing::Note))
    } else {
        Ok(paths_where(walk, named(name)))
    }
}

/// The paths of the notes that hold `word`, in the order of the walk;
/// none is no error. `Io` where an entry's metadata could not be read.
pub open spec fn files_by_word(walk: Seq<Visit>, word: Seq<char>) -> Result<
    Seq<Seq<char>>,
    NoteError,
> {
    if some_unreadable(walk) {
        Err(NoteError::Io)
    } else {
        Ok(paths_where(walk, holding(word)))
    }
}

/// What the first deciding visit of a scope's walk says of a file to be
/// made: `Io` if it is a fault, `Conflict` if it is the file itself.
pub open spec fn duplicate_check(walk: Seq<Visit>, file: Seq<char>) -> Result<(), NoteError>
    decreases walk.len(),
{
    if walk.len() == 0 {
        Ok(())
    } else {
        match walk[0] {
            Visit::Fault => Err(NoteError::Io),
            Visit::Entry(e) => if e.path@ == file {
                Err(NoteError::Conflict)
            } else {
                duplicate_check(walk.drop_first(), file)
            },
        }
    }
}

/// Whether a scope's walk shows the file.
pub open spec fn has_duplicate(walk: Seq<Visit>, file: Seq<char>) -> bool {
    duplicate_check(walk, file) == Err::<(), NoteError>(NoteError::Conflict)
}

fn is_file(entry: &Entry) -> (yes: bool)
    ensures
        yes == has_kind(Visit::Entry(*entry), Kind::File),
{
    match entry.kind {
        Some(Kind::File) => true,
        _ => false,
    }
}

fn notes_of(walk: &Vec<Visit>, missing: Missing) -> (found: Result<Vec<String>, NoteError>)
    ensures
        paths_of(found) == all_notes(walk@, missing),
{
    let mut files: Vec<String> = Vec::new();
    let mut i: usize = 0;
    while i < walk.len()
        invariant
            i <= walk.len(),
            views(files@) == paths_where(walk@.take(i as int), notes()),
            forall|j: int| 0 <= j < i ==> !unreadable(#[trigger] walk@[j]),
        decreases walk.len() - i,
    {
        proof {
            paths_where_step(walk@, notes(), i as int);
        }
        match &walk[i] {
            Visit::Entry(entry) => {
                if entry.kind.is_none() {
                    return Err(NoteError::Io);
                }
                if is_file(entry) && !entry.path.as_str().is_empty() {
                    files.push(entry.path.clone());
                }
            },
            Visit::Fault => {},
        }
        i += 1;
    }
    assert(walk@.take(walk@.len() as int) =~= walk@);
    if files.is_empty() {
        Err(NoteError::NotFound(missing))
    } else {
        Ok(files)
    }
}

/// All note paths: every regular file that a walk of the whole store
/// shows, in the walk's order. An empty store is an error.
pub fn get_all_notes(walk: &Vec<Visit>) -> (found: Result<Vec<String>, NoteError>)
    ensures
        paths_of(found) == all_notes(walk@, Missing::Notes),
{
    notes_of(walk, Missing::Notes)
}

/// All notes in a category, from a walk of its directory, or from `None`
/// where the directory is not there. A category without a directory and
/// one without notes are told apart.
pub fn get_notes_in_category(listing: Option<&Vec<Visit>>) -> (found: Result<
    Vec<String>,
    NoteError,
>)
    ensures
        paths_of(found) == notes_in_category(
            match listing {
                Some(walk) => Some(walk@),
                None => None,
            },
        ),
{
    match listing {
        Some(walk) => notes_of(walk, Missing::CategoryContents),
        None => Err(NoteError::NotFound(Missing::Category)),
    }
}

/// The paths of the note `name` in every scope: each entry of the walk
/// whose file name is the name followed by `.md`. No match is an error.
pub fn get_note_path(walk: &Vec<Visit>, name: &str) -> (found: Result<Vec<String>, NoteError>)
    ensures
        paths_of(found) == note_paths(walk@, name@),
{
    let mut wanted = String::from_str(name);
    wanted.append(".md");
    let mut paths: Vec<String> = Vec::new();
    let mut i: usize = 0;
    while i < walk.len()
        invariant
            i <= walk.len(),
            wanted@ == note_file_name(name@),
            views(paths@) == paths_where(walk@.take(i as int), named(name@)),
            forall|j: int| 0 <= j < i ==> !(#[trigger] walk@[j] is Fault),
        decreases walk.len() - i,
    {
        proof {
            paths_where_step(walk@, named(name@), i as int);
        }
        match &walk[i] {
            Visit::Entry(entry) => {
                if entry.file_name == wanted {
                    paths.push(entry.path.clone());
                }
            },
            Visit::Fault => {
                return Err(NoteError::Io);
            },
        }
        i += 1;
    }
    assert(walk@.take(walk@.len() as int) =~= walk@);
    if paths.is_empty() {
        Err(NoteError::NotFound(Missing::Note))
    } else {
        Ok(paths)
    }
}

fn has_word(entry: &Entry, word: &str) -> (yes: bool)
    ensures
        yes == (entry.text matches Some(t) && occurs(t@, word@)),
{
    match &entry.text {
        Some(text) => contains(text.as_str(), word),
        None => false,
    }
}

/// The paths of all notes that contain `word`, letter for letter. That no
/// note contains it is no error: the list is then empty.
pub fn get_files_by_word(walk: &Vec<Visit>, word: &str) -> (found: Result<Vec<String>, NoteError>)
    ensures
        paths_of(found) == files_by_word(walk@, word@),
{
    let mut paths: Vec<String> = Vec::new();
    let mut i: usize = 0;
    while i < walk.len()
        invariant
            i <= walk.len(),
            views(paths@) == paths_where(walk@.take(i as int), holding(word@)),
            forall|j: int| 0 <= j < i ==> !unreadable(#[trigger] walk@[j]),
        decreases walk.len() - i,
    {
        proof {
            paths_where_step(walk@, holding(word@), i as int);
        }
        match &walk[i] {
            Visit::Entry(entry) => {
                if entry.kind.is_none() {
                    return Err(NoteError::Io);
                }
                if is_file(entry) && has_word(entry, word) && !entry.path.as_str().is_empty() {
                    paths.push(entry.path.clone());
                }
            },
            Visit::Fault => {},
        }
        i += 1;
    }
    assert(walk@.take(walk@.len() as int) =~= walk@);
    Ok(paths)
}

/// Checks whether the name of a note to be made is taken: walks through
/// the scope's directory, as it was walked, for the file itself.
pub fn is_duplicate(walk: &Vec<Visit>, file: &str) -> (free: Result<(), NoteError>)
    ensures
        free == duplicate_check(walk@, file@),
{
    let wanted = String::from_str(file);
    let mut i: usize = 0;
    assert(walk@.skip(0) =~= walk@);
    while i < walk.len()
        invariant
            i <= walk.len(),
            wanted@ == file@,
            duplicate_check(walk@, file@) == duplicate_check(walk@.skip(i as int), file@),
        decreases walk.len() - i,
    {
        proof {
            assert(walk@.skip(i as int).drop_first() =~= walk@.skip(i + 1));
        }
        match &walk[i] {
            Visit::Entry(entry) => {
                if entry.path == wanted {
                    return Err(NoteError::Conflict);
                }
            },
            Visit::Fault => {
                return Err(NoteError::Io);
            },
        }
        i += 1;
    }
    Ok(())
}

} // verus!
