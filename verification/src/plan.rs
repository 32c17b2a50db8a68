//! What an operation asks its surroundings to do, and to ask the user.

use vstd::prelude::*;

use crate::error::NoteError;
use crate::text::{text_of, views};

verus! {

/// Permissions of a directory of the store: all for its owner, none for
/// anyone else.
pub const DIR_MODE: u32 = 0o700;

/// Permissions of a note: reading and writing for its owner, none for
/// anyone else.
pub const NOTE_MODE: u32 = 0o600;

/// One thing to do on the disk or with the editor.
#[derive(Clone, Debug, PartialEq, Eq)]
pub enum Action {
    /// Make the directory and every missing directory above it.
    CreateDirAll { path: String },
    /// Set the permission bits of a file or directory.
    SetPermissions { path: String, mode: u32 },
    /// Make the file, empty.
    CreateFile { path: String },
    /// Write the text into the file.
    Write { path: String, text: String },
    /// Remove the file.
    RemoveFile { path: String },
    /// Remove the directory with all that it holds.
    RemoveDirAll { path: String },
    /// Walk the store afresh and remove each directory that the walk
    /// shows empty.
    PruneEmptyDirs,
    /// Start the editor on the file and wait for it.
    Launch { editor: String, path: String },
}

/// An action, with texts in place of strings.
pub ghost enum Deed {
    CreateDirAll { path: Seq<char> },
    SetPermissions { path: Seq<char>, mode: u32 },
    CreateFile { path: Seq<char> },
    Write { path: Seq<char>, text: Seq<char> },
    RemoveFile { path: Seq<char> },
    RemoveDirAll { path: Seq<char> },
    PruneEmptyDirs,
    Launch { editor: Seq<char>, path: Seq<char> },
}

impl View for Action {
    type V = Deed;

    open spec fn view(&self) -> Deed {
        match *self {
            Action::CreateDirAll { path } => Deed::CreateDirAll { path: path@ },
            Action::SetPermissions { path, mode } => Deed::SetPermissions { path: path@, mode },
            Action::CreateFile { path } => Deed::CreateFile { path: path@ },
            Action::Write { path, text } => Deed::Write { path: path@, text: text@ },
            Action::RemoveFile { path } => Deed::RemoveFile { path: path@ },
            Action::RemoveDirAll { path } => Deed::RemoveDirAll { path: path@ },
            Action::PruneEmptyDirs => Deed::PruneEmptyDirs,
            Action::Launch { editor, path } => Deed::Launch { editor: editor@, path: path@ },
        }
    }
}

/// The deeds of a list of actions, in order.
pub open spec fn deeds(plan: Seq<Action>) -> Seq<Deed> {
    plan.map_values(|a: Action| a@)
}

/// The deeds of a plan, or the error in its place.
pub open spec fn plan_of(r: Result<Vec<Action>, NoteError>) -> Result<Seq<Deed>, NoteError> {
    match r {
        Ok(plan) => Ok(deeds(plan@)),
        Err(e) => Err(e),
    }
}

/// How an operation that may ask the user ended.
#[derive(Clone, Debug, PartialEq, Eq)]
pub enum Outcome {
    /// The user chose nothing; nothing is to be done, and nothing went
    /// wrong.
    Aborted,
    /// These actions are to be done, in order.
    Run(Vec<Action>),
}

/// An outcome, with deeds in place of actions.
pub ghost enum Verdict {
    Aborted,
    Run(Seq<Deed>),
}

impl View for Outcome {
    type V = Verdict;

    open spec fn view(&self) -> Verdict {
        match *self {
            Outcome::Aborted => Verdict::Aborted,
            Outcome::Run(plan) => Verdict::Run(deeds(plan@)),
        }
    }
}

/// The candidates that the user is asked to choose from.
#[derive(Clone, Debug, PartialEq, Eq)]
pub struct Menu {
    /// The paths of the candidates.
    pub paths: Vec<String>,
    /// What is shown for each candidate, in the same order.
    pub labels: Vec<String>,
    /// The candidate that is marked when the menu opens, if any.
    pub marked: Option<usize>,
}

/// A menu, with texts in place of strings.
pub ghost struct Offer {
    pub paths: Seq<Seq<char>>,
    pub labels: Seq<Seq<char>>,
    pub marked: Option<usize>,
}

impl View for Menu {
    type V = Offer;

    open spec fn view(&self) -> Offer {
        Offer { paths: views(self.paths@), labels: views(self.labels@), marked: self.marked }
    }
}

/// What a lookup by name came to.
#[derive(Clone, Debug, PartialEq, Eq)]
pub enum Pick {
    /// One note has the name: this is its path, and nobody is asked.
    One(String),
    /// Several have it: the user chooses.
    Ask(Menu),
}

/// A pick, with texts in place of strings.
pub ghost enum Find {
    One(Seq<char>),
    Ask(Offer),
}

impl View for Pick {
    type V = Find;

    open spec fn view(&self) -> Find {
        match *self {
            Pick::One(path) => Find::One(path@),
            Pick::Ask(menu) => Find::Ask(menu@),
        }
    }
}

/// What was found, or the error in its place.
pub open spec fn find_of(r: Result<Pick, NoteError>) -> Result<Find, NoteError> {
    match r {
        Ok(pick) => Ok(pick@),
        Err(e) => Err(e),
    }
}

impl Menu {
    /// The path that a selection stands for. A selection is `None` where
    /// the user chose nothing, or the position of a candidate.
    pub open spec fn selected(offer: Offer, selection: Option<usize>) -> Option<Seq<char>> {
        match selection {
            Some(at) => Some(offer.paths[at as int]),
            None => None,
        }
    }

    /// The path of the candidate that the user selected, if any.
    pub fn chosen(&self, selection: Option<usize>) -> (path: Option<String>)
        requires
            selection matches Some(at) ==> at < self.paths@.len(),
        ensures
            text_of(path) == Menu::selected(self@, selection),
    {
        match selection {
            Some(at) => Some(self.paths[at].clone()),
            None => None,
        }
    }
}

} // verus!
