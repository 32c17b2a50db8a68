//! Where the store keeps what: the root, the scope directories, the notes.
//!
//! Nothing here touches the disk; every function only writes a path down.

use vstd::prelude::*;
use vstd::string::*;

use crate::config::Config;
use crate::date::{iso_pattern, local_date, shows_common_year, today, Clock};
use crate::error::NoteError;

verus! {

/// The text of a path, or the error in its place.
pub open spec fn path_of(r: Result<String, NoteError>) -> Result<Seq<char>, NoteError> {
    match r {
        Ok(path) => Ok(path@),
        Err(e) => Err(e),
    }
}

/// The root of the store under a data home.
pub open spec fn base_of(home: Seq<char>) -> Seq<char> {
    home + "/rnote/"@
}

/// The root of the store, or `Config` where no data home is set.
pub open spec fn base_path(config: Config) -> Result<Seq<char>, NoteError> {
    match config.data_home {
        Some(home) => Ok(base_of(home@)),
        None => Err(NoteError::Config),
    }
}

/// The directory name of a scope: the category, or the local date of the
/// clock reading where no category is given.
pub open spec fn scope_name(category: Seq<char>, clock: Clock) -> Option<Seq<char>> {
    if category.len() == 0 {
        local_date(clock, iso_pattern())
    } else {
        Some(category)
    }
}

/// The scope's directory without a closing slash, as it is created.
pub open spec fn scope_dir(config: Config, category: Seq<char>, clock: Clock) -> Result<
    Seq<char>,
    NoteError,
> {
    match config.data_home {
        None => Err(NoteError::Config),
        Some(home) => match scope_name(category, clock) {
            None => Err(NoteError::Clock),
            Some(name) => Ok(base_of(home@) + name),
        },
    }
}

/// The scope's directory with a closing slash, ready for a file name.
pub open spec fn category_path(config: Config, category: Seq<char>, clock: Clock) -> Result<
    Seq<char>,
    NoteError,
> {
    match scope_dir(config, category, clock) {
        Ok(dir) => Ok(dir + "/"@),
        Err(e) => Err(e),
    }
}

/// The directory of a category taken literally: no date stands in for an
/// empty name.
pub open spec fn category_dir(config: Config, category: Seq<char>) -> Result<
    Seq<char>,
    NoteError,
> {
    match config.data_home {
        Some(home) => Ok(base_of(home@) + category),
        None => Err(NoteError::Config),
    }
}

/// The file of a note in a scope directory that ends in a slash.
pub open spec fn note_file(category_path: Seq<char>, name: Seq<char>) -> Seq<char> {
    category_path + name + ".md"@
}

/// The file name under which a note of this name is kept.
pub open spec fn note_file_name(name: Seq<char>) -> Seq<char> {
    name + ".md"@
}

/// The file of a note, from the settings on.
pub open spec fn note_path(config: Config, name: Seq<char>, category: Seq<char>, clock: Clock)
    -> Result<Seq<char>, NoteError> {
    match category_path(config, category, clock) {
        Ok(dir) => Ok(note_file(dir, name)),
        Err(e) => Err(e),
    }
}

/// Whether the path of a scope is owed: the data home is set, and the
/// scope is a named category or the clock stands in the years 0000 to
/// 9999, so that its date can be written.
pub open spec fn has_scope(config: Config, category: Seq<char>, clock: Clock) -> bool {
    config.data_home is Some && (category.len() > 0 || shows_common_year(clock))
}

/// The root directory of all notes: `rnote/` under the data home.
pub fn get_base_path(config: &Config) -> (base: Result<String, NoteError>)
    ensures
        path_of(base) == base_path(*config),
{
    match &config.data_home {
        Some(home) => {
            let mut base = home.clone();
            base.append("/rnote/");
            Ok(base)
        },
        None => Err(NoteError::Config),
    }
}

/// The directory of a category, taken literally, without a closing slash.
pub fn get_category_dir(config: &Config, category: &str) -> (dir: Result<String, NoteError>)
    ensures
        path_of(dir) == category_dir(*config, category@),
{
    match get_base_path(config) {
        Ok(base) => {
            let mut dir = base;
            dir.append(category);
            Ok(dir)
        },
        Err(e) => Err(e),
    }
}

/// The scope's directory at a clock reading, without a closing slash.
pub fn get_scope_dir(config: &Config, category: &str, clock: &Clock) -> (dir: Result<
    String,
    NoteError,
>)
    ensures
        path_of(dir) == scope_dir(*config, category@, *clock),
        has_scope(*config, category@, *clock) ==> dir is Ok,
{
    let mut dir = match get_base_path(config) {
        Ok(base) => base,
        Err(e) => { return Err(e); },
    };
    if category.is_empty() {
        match today(clock) {
            Some(date) => dir.append(date.as_str()),
            None => { return Err(NoteError::Clock); },
        }
    } else {
        dir.append(category);
    }
    Ok(dir)
}

/// The path of a category or date directory at a clock reading: the
/// category's where one is named, the local date's otherwise. The clock
/// is read by the caller, at each call anew, so the dated scope of one
/// call need not be that of the next.
pub fn get_category_path(config: &Config, category: &str, clock: &Clock) -> (path: Result<
    String,
    NoteError,
>)
    ensures
        path_of(path) == category_path(*config, category@, *clock),
        has_scope(*config, category@, *clock) ==> path is Ok,
{
    match get_scope_dir(config, category, clock) {
        Ok(dir) => {
            let mut path = dir;
            path.append("/");
            Ok(path)
        },
        Err(e) => Err(e),
    }
}

/// The file of a note: its name and `.md`, in its scope's directory.
pub fn get_note_file(config: &Config, name: &str, category: &str, clock: &Clock) -> (file: Result<
    String,
    NoteError,
>)
    ensures
        path_of(file) == note_path(*config, name@, category@, *clock),
        has_scope(*config, category@, *clock) ==> file is Ok,
{
    match get_category_path(config, category, clock) {
        Ok(dir) => {
            let mut file = dir;
            file.append(name);
            file.append(".md");
            Ok(file)
        },
        Err(e) => Err(e),
    }
}

} // verus!
