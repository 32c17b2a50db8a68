//! The life of a note: making it, finding it, opening it, removing it.
//!
//! An operation that needs the disk or the user between two decisions
//! comes in steps. Each step takes what was found and returns what to do
//! next; the caller does it and comes back with the answer.

use vstd::prelude::*;
use vstd::string::*;

use crate::config::Config;
use crate::date::{
    day_first, day_first_pattern, falls_on, formatted, iso_pattern, local_date,
    shows_common_year, Clock,
};
use crate::dirs::{create_dir, dir_plan};
use crate::error::{Missing, NoteError};
use crate::index::{
    all_notes, duplicate_check, files_by_word, get_all_notes, get_files_by_word, get_note_path,
    get_notes_in_category, is_duplicate, note_paths, notes_in_category,
};
use crate::paths::{
    base_path, category_path, get_base_path, get_category_path, get_note_file, has_scope,
    note_path, path_of, scope_dir,
};
use crate::plan::{
    deeds, find_of, plan_of, Action, Deed, Find, Menu, Offer, Outcome, Pick, Verdict, NOTE_MODE,
};
use crate::text::{
    copy_all, find, first_at, first_at_unique, join, joined, occurs, skip_chars, tail, text_of,
    views,
};
use crate::walk::{
    has_kind, lists_exactly, lists_exactly_step, texts_where, texts_where_step, unreadable, Entry,
    Kind, Visit,
};

verus! {

/// The header of a new note: its title, its author and the date it was
/// made on.
pub open spec fn front_matter(name: Seq<char>, user: Seq<char>, date: Seq<char>) -> Seq<char> {
    "---\ntitle: "@ + name + "\nauthor: "@ + user + "\ndate: "@ + date + "\n---"@
}

/// What a new note holds before its author writes: the header and a line
/// break.
pub open spec fn first_text(name: Seq<char>, user: Seq<char>, date: Seq<char>) -> Seq<char> {
    front_matter(name, user, date) + "\n"@
}

/// Writes the header of a new note.
pub fn make_front_matter(name: &str, user: &str, date: &str) -> (header: String)
    ensures
        header@ == front_matter(name@, user@, date@),
{
    let mut header = String::from_str("---\ntitle: ");
    header.append(name);
    header.append("\nauthor: ");
    header.append(user);
    header.append("\ndate: ");
    header.append(date);
    header.append("\n---");
    header
}

/// A note that is about to be made: all that was settled before its
/// scope was looked into.
#[derive(Clone, Debug, PartialEq, Eq)]
pub struct Draft {
    /// The file of the note.
    pub file: String,
    /// The directory of its scope, with a closing slash: what is walked
    /// to see whether the name is taken.
    pub scope: String,
    /// The command that starts the editor.
    pub editor: String,
    /// What the file holds at first.
    pub text: String,
    /// The actions that make the scope's directory; they come first.
    pub ensure: Vec<Action>,
}

/// Why no note can be drafted, if anything stands against it: a setting
/// is missing, or the clock shows no date.
pub open spec fn draft_error(config: Config, category: Seq<char>, clock: Clock) -> Option<
    NoteError,
> {
    if config.editor is None || config.data_home is None {
        Some(NoteError::Config)
    } else if scope_dir(config, category, clock) is Err || local_date(clock, day_first_pattern())
        is None {
        Some(NoteError::Clock)
    } else {
        None
    }
}

/// Whether a draft is the one for this note, scope and clock reading.
pub open spec fn is_draft(
    draft: Draft,
    config: Config,
    name: Seq<char>,
    category: Seq<char>,
    clock: Clock,
) -> bool {
    &&& Ok::<Seq<char>, NoteError>(draft.file@) == note_path(config, name, category, clock)
    &&& Ok::<Seq<char>, NoteError>(draft.scope@) == category_path(config, category, clock)
    &&& Some(draft.editor@) == text_of(config.editor)
    &&& Some(draft.text@) == match local_date(clock, day_first_pattern()) {
        Some(date) => Some(first_text(name, config.user@, date)),
        None => None,
    }
    &&& Ok::<Seq<Deed>, NoteError>(deeds(draft.ensure@)) == dir_plan(config, category, clock)
}

/// Whether the first step of making a note answered as it must at this
/// clock reading: with the draft, or with what stands against one.
pub open spec fn drafted(
    draft: Result<Draft, NoteError>,
    config: Config,
    name: Seq<char>,
    category: Seq<char>,
    clock: Clock,
) -> bool {
    match draft {
        Ok(d) => draft_error(config, category, clock) is None && is_draft(
            d,
            config,
            name,
            category,
            clock,
        ),
        Err(e) => draft_error(config, category, clock) == Some(e),
    }
}

/// What making the drafted note takes, once its scope was walked: the
/// file, owner-only permissions, the first text, and the editor on it.
/// Nothing at all where the walk shows the file or reports a fault first.
pub open spec fn note_plan(draft: Draft, walk: Seq<Visit>) -> Result<Seq<Deed>, NoteError> {
    match duplicate_check(walk, draft.file@) {
        Err(e) => Err(e),
        Ok(_) => Ok(
            seq![
                Deed::CreateFile { path: draft.file@ },
                Deed::SetPermissions { path: draft.file@, mode: NOTE_MODE },
                Deed::Write { path: draft.file@, text: draft.text@ },
                Deed::Launch { editor: draft.editor@, path: draft.file@ },
            ],
        ),
    }
}

/// First step of making a note, at a clock reading: settles the file,
/// the first text and the editor, and names the actions that make the
/// scope's directory. A missing setting is reported before anything is
/// done on the disk. With both settings there, a draft is owed for every
/// clock that stands in the years 0000 to 9999.
pub fn create(config: &Config, name: &str, category: &str, clock: &Clock) -> (draft: Result<
    Draft,
    NoteError,
>)
    ensures
        drafted(draft, *config, name@, category@, *clock),
        config.editor is Some && config.data_home is Some && shows_common_year(*clock)
            ==> draft is Ok,
{
    let editor = match &config.editor {
        Some(editor) => editor.clone(),
        None => { return Err(NoteError::Config); },
    };
    let file = match get_note_file(config, name, category, clock) {
        Ok(file) => file,
        Err(e) => { return Err(e); },
    };
    let scope = match get_category_path(config, category, clock) {
        Ok(scope) => scope,
        Err(e) => { return Err(e); },
    };
    let ensure = match create_dir(config, category, clock) {
        Ok(plan) => plan,
        Err(e) => { return Err(e); },
    };
    let date = match day_first(clock) {
        Some(date) => date,
        None => { return Err(NoteError::Clock); },
    };
    let mut text = make_front_matter(name, config.user.as_str(), date.as_str());
    text.append("\n");
    Ok(Draft { file, scope, editor, text, ensure })
}

impl Draft {
    /// Second step of making a note, after the drafted actions were done
    /// and the scope's directory was walked: refuses a name that is
    /// taken, and names the actions that make the note otherwise.
    pub fn finish(&self, walk: &Vec<Visit>) -> (plan: Result<Vec<Action>, NoteError>)
        ensures
            plan_of(plan) == note_plan(*self, walk@),
    {
        match is_duplicate(walk, self.file.as_str()) {
            Err(e) => Err(e),
            Ok(_) => {
                let mut plan: Vec<Action> = Vec::new();
                plan.push(Action::CreateFile { path: self.file.clone() });
                plan.push(Action::SetPermissions { path: self.file.clone(), mode: NOTE_MODE });
                plan.push(Action::Write { path: self.file.clone(), text: self.text.clone() });
                plan.push(Action::Launch { editor: self.editor.clone(), path: self.file.clone() });
                assert(deeds(plan@) =~= note_plan(*self, walk@)->Ok_0);
                Ok(plan)
            },
        }
    }
}

/// The word after which the label of a path begins: the name of the
/// store's root.
pub open spec fn root_word() -> Seq<char> {
    "rnote"@
}

/// How many characters a label leaves out: those before the first
/// `rnote` in the path, none where the path does not hold the word.
pub open spec fn cut_point(path: Seq<char>) -> nat {
    if occurs(path, root_word()) {
        (choose|at: int| first_at(path, root_word(), at)) as nat
    } else {
        0
    }
}

/// What is shown for each of the paths: the path from the first `rnote`
/// of the first path on. Every path is cut at that same place, counted
/// in characters; nothing is left of one that is shorter.
pub open spec fn labels_of(paths: Seq<Seq<char>>) -> Seq<Seq<char>> {
    Seq::new(paths.len(), |i: int| tail(paths[i], cut_point(paths[0])))
}

/// A menu of these paths under their labels, the first one marked.
pub open spec fn menu_of(paths: Seq<Seq<char>>) -> Offer {
    Offer { paths, labels: labels_of(paths), marked: Some(0usize) }
}

/// What looking a note up by name comes to: its path where one entry has
/// the name, a menu where several have it.
pub open spec fn interactive_pick(walk: Seq<Visit>, name: Seq<char>) -> Result<Find, NoteError> {
    match note_paths(walk, name) {
        Err(e) => Err(e),
        Ok(paths) => if paths.len() == 1 {
            Ok(Find::One(paths[0]))
        } else {
            Ok(Find::Ask(menu_of(paths)))
        },
    }
}

/// What looking up a note to remove comes to: as for any lookup by name,
/// but the menu shows the full paths and marks none.
pub open spec fn removal_pick(walk: Seq<Visit>, name: Seq<char>) -> Result<Find, NoteError> {
    match note_paths(walk, name) {
        Err(e) => Err(e),
        Ok(paths) => if paths.len() == 1 {
            Ok(Find::One(paths[0]))
        } else {
            Ok(Find::Ask(Offer { paths, labels: paths, marked: None }))
        },
    }
}

/// What removing the chosen note takes: the file goes, then the
/// directories left empty. Nothing where nothing was chosen.
pub open spec fn removal(choice: Option<Seq<char>>) -> Verdict {
    match choice {
        Some(path) => Verdict::Run(seq![Deed::RemoveFile { path }, Deed::PruneEmptyDirs]),
        None => Verdict::Aborted,
    }
}

/// What opening the chosen note takes: the editor on its file. Nothing
/// where nothing was chosen; `Config` where something was and no editor
/// is set.
pub open spec fn opening(config: Config, choice: Option<Seq<char>>) -> Result<Verdict, NoteError> {
    match choice {
        None => Ok(Verdict::Aborted),
        Some(path) => match config.editor {
            None => Err(NoteError::Config),
            Some(editor) => Ok(Verdict::Run(seq![Deed::Launch { editor: editor@, path }])),
        },
    }
}

/// The outcome, with deeds in place of actions, or the error.
pub open spec fn verdict_of(r: Result<Outcome, NoteError>) -> Result<Verdict, NoteError> {
    match r {
        Ok(outcome) => Ok(outcome@),
        Err(e) => Err(e),
    }
}

/// The menu, with texts in place of strings, or the error.
pub open spec fn offer_of(r: Result<Menu, NoteError>) -> Result<Offer, NoteError> {
    match r {
        Ok(menu) => Ok(menu@),
        Err(e) => Err(e),
    }
}

/// The labels of a list of paths.
fn shorten(paths: &Vec<String>) -> (labels: Vec<String>)
    ensures
        views(labels@) == labels_of(views(paths@)),
{
    let mut labels: Vec<String> = Vec::new();
    if paths.len() == 0 {
        return labels;
    }
    let cut: usize = match find(paths[0].as_str(), "rnote") {
        Some(at) => {
            proof {
                let first = paths@[0]@;
                let other = choose|other: int| first_at(first, root_word(), other);
                first_at_unique(first, root_word(), at as int, other);
            }
            at
        },
        None => 0,
    };
    let mut i: usize = 0;
    while i < paths.len()
        invariant
            i <= paths.len(),
            paths.len() > 0,
            cut == cut_point(views(paths@)[0]),
            views(labels@) == labels_of(views(paths@)).take(i as int),
        decreases paths.len() - i,
    {
        let ghost before = labels@;
        labels.push(skip_chars(paths[i].as_str(), cut));
        assert(views(labels@) =~= views(before).push(tail(paths@[i as int]@, cut as nat)));
        i += 1;
    }
    labels
}

/// A menu of the paths under their labels, the first one marked.
fn menu(paths: Vec<String>) -> (menu: Menu)
    ensures
        menu@ == menu_of(views(paths@)),
{
    let labels = shorten(&paths);
    Menu { paths, labels, marked: Some(0) }
}

/// Finds the note `name` and, where several scopes hold one, prepares
/// the question which of them is meant.
pub fn get_note_path_interractive(walk: &Vec<Visit>, name: &str) -> (pick: Result<Pick, NoteError>)
    ensures
        find_of(pick) == interactive_pick(walk@, name@),
{
    match get_note_path(walk, name) {
        Err(e) => Err(e),
        Ok(paths) => {
            if paths.len() == 1 {
                Ok(Pick::One(paths[0].clone()))
            } else {
                Ok(Pick::Ask(menu(paths)))
            }
        },
    }
}

/// First step of removing the note `name`: finds it, and where several
/// scopes hold one, prepares the question which of them is to go.
pub fn remove_note(walk: &Vec<Visit>, name: &str) -> (pick: Result<Pick, NoteError>)
    ensures
        find_of(pick) == removal_pick(walk@, name@),
{
    match get_note_path(walk, name) {
        Err(e) => Err(e),
        Ok(paths) => {
            if paths.len() == 1 {
                Ok(Pick::One(paths[0].clone()))
            } else {
                let labels = copy_all(&paths);
                Ok(Pick::Ask(Menu { paths, labels, marked: None }))
            }
        },
    }
}

/// Second step of removing a note: what to do with the one that was
/// found or chosen. Where the user chose none, nothing is removed and
/// the operation ends well.
pub fn remove_chosen(choice: Option<String>) -> (outcome: Outcome)
    ensures
        outcome@ == removal(text_of(choice)),
{
    match choice {
        Some(path) => {
            let mut plan: Vec<Action> = Vec::new();
            plan.push(Action::RemoveFile { path });
            plan.push(Action::PruneEmptyDirs);
            assert(deeds(plan@) =~= seq![
                Deed::RemoveFile { path: path@ },
                Deed::PruneEmptyDirs,
            ]);
            Outcome::Run(plan)
        },
        None => Outcome::Aborted,
    }
}

/// Opens the note that was found or chosen in the editor. Where the user
/// chose none, nothing is opened and the operation ends well.
pub fn open_chosen(config: &Config, choice: Option<String>) -> (outcome: Result<Outcome, NoteError>)
    ensures
        verdict_of(outcome) == opening(*config, text_of(choice)),
{
    match choice {
        None => Ok(Outcome::Aborted),
        Some(path) => match &config.editor {
            None => Err(NoteError::Config),
            Some(editor) => {
                let mut plan: Vec<Action> = Vec::new();
                plan.push(Action::Launch { editor: editor.clone(), path });
                assert(deeds(plan@) =~= seq![Deed::Launch { editor: editor@, path: path@ }]);
                Ok(Outcome::Run(plan))
            },
        },
    }
}

/// What looking up a note to modify comes to. A missing editor is
/// reported before anything else. That no note has the name is no
/// failure here: there is then nothing to open, and the operation ends
/// as if the user had chosen none.
pub open spec fn modify_pick(config: Config, walk: Seq<Visit>, name: Seq<char>) -> Result<
    Option<Find>,
    NoteError,
> {
    if config.editor is None {
        Err(NoteError::Config)
    } else {
        match interactive_pick(walk, name) {
            Ok(found) => Ok(Some(found)),
            Err(NoteError::NotFound(_)) => Ok(None),
            Err(e) => Err(e),
        }
    }
}

/// What was found, if anything, or the error in its place.
pub open spec fn maybe_find_of(r: Result<Option<Pick>, NoteError>) -> Result<
    Option<Find>,
    NoteError,
> {
    match r {
        Ok(Some(pick)) => Ok(Some(pick@)),
        Ok(None) => Ok(None),
        Err(e) => Err(e),
    }
}

/// First step of modifying the note `name`: asks for the editor before
/// anything else, then finds the note as any lookup by name does.
/// `Ok(None)` says that no note has the name, which aborts the
/// operation without failing it.
pub fn modify(config: &Config, walk: &Vec<Visit>, name: &str) -> (pick: Result<
    Option<Pick>,
    NoteError,
>)
    ensures
        maybe_find_of(pick) == modify_pick(*config, walk@, name@),
{
    if config.editor.is_none() {
        return Err(NoteError::Config);
    }
    match get_note_path_interractive(walk, name) {
        Ok(found) => Ok(Some(found)),
        Err(NoteError::NotFound(_)) => Ok(None),
        Err(e) => Err(e),
    }
}

/// What became of handing a file to the editor: `Editor` where the
/// editor could not be started, and where it ran and did not end well.
pub open spec fn editor_outcome(started: bool, succeeded: bool) -> Result<(), NoteError> {
    if started && succeeded {
        Ok(())
    } else {
        Err(NoteError::Editor)
    }
}

/// Judges how the editor did. `started` says whether its process could
/// be started at all, `succeeded` whether it then ended with success;
/// what `succeeded` holds where the editor never started does not
/// matter.
pub fn editor_result(started: bool, succeeded: bool) -> (done: Result<(), NoteError>)
    ensures
        done == editor_outcome(started, succeeded),
{
    if started && succeeded {
        Ok(())
    } else {
        Err(NoteError::Editor)
    }
}

/// What a search for `word` offers: a menu of the notes that hold it,
/// or nothing to ask where none does.
pub open spec fn search_offer(walk: Seq<Visit>, word: Seq<char>) -> Result<
    Option<Offer>,
    NoteError,
> {
    match files_by_word(walk, word) {
        Err(e) => Err(e),
        Ok(paths) => if paths.len() == 0 {
            Ok(None)
        } else {
            Ok(Some(menu_of(paths)))
        },
    }
}

/// A menu of the notes found, or the error in its place.
pub open spec fn menu_over(found: Result<Seq<Seq<char>>, NoteError>) -> Result<Offer, NoteError> {
    match found {
        Ok(paths) => Ok(menu_of(paths)),
        Err(e) => Err(e),
    }
}

/// First step of a search by word: the notes that hold `word`, as a menu
/// to open one of them from. Where no note holds the word there is
/// nothing to ask and nothing to do; that is no error.
pub fn search_by_word(walk: &Vec<Visit>, word: &str) -> (offer: Result<Option<Menu>, NoteError>)
    ensures
        match offer {
            Ok(Some(menu)) => search_offer(walk@, word@) == Ok::<Option<Offer>, NoteError>(
                Some(menu@),
            ),
            Ok(None) => search_offer(walk@, word@) == Ok::<Option<Offer>, NoteError>(None),
            Err(e) => search_offer(walk@, word@) == Err::<Option<Offer>, NoteError>(e),
        },
{
    match get_files_by_word(walk, word) {
        Err(e) => Err(e),
        Ok(paths) => {
            if paths.len() == 0 {
                Ok(None)
            } else {
                Ok(Some(menu(paths)))
            }
        },
    }
}

/// First step of listing all notes: a menu of them, to open one from.
pub fn list_all_notes(walk: &Vec<Visit>) -> (offer: Result<Menu, NoteError>)
    ensures
        offer_of(offer) == menu_over(all_notes(walk@, Missing::Notes)),
{
    match get_all_notes(walk) {
        Ok(paths) => Ok(menu(paths)),
        Err(e) => Err(e),
    }
}

/// First step of listing a category: a menu of its notes, to open one
/// from. The listing is the walk of the category's directory, or `None`
/// where the directory is not there.
pub fn list_category(listing: Option<&Vec<Visit>>) -> (offer: Result<Menu, NoteError>)
    ensures
        offer_of(offer) == menu_over(
            notes_in_category(
                match listing {
                    Some(walk) => Some(walk@),
                    None => None,
                },
            ),
        ),
{
    match get_notes_in_category(listing) {
        Ok(paths) => Ok(menu(paths)),
        Err(e) => Err(e),
    }
}

/// What removing a scope takes: its directory goes, with all it holds.
pub open spec fn scope_removal(config: Config, category: Seq<char>, clock: Clock) -> Result<
    Seq<Deed>,
    NoteError,
> {
    match category_path(config, category, clock) {
        Ok(path) => Ok(seq![Deed::RemoveDirAll { path }]),
        Err(e) => Err(e),
    }
}

/// What wiping the store takes: its root goes, with all it holds.
pub open spec fn wipe(config: Config) -> Result<Seq<Deed>, NoteError> {
    match base_path(config) {
        Ok(path) => Ok(seq![Deed::RemoveDirAll { path }]),
        Err(e) => Err(e),
    }
}

/// Removes a whole scope at a clock reading: the category's directory,
/// or that of the local date where no category is named. Nobody is asked.
pub fn remove_category(config: &Config, category: &str, clock: &Clock) -> (plan: Result<
    Vec<Action>,
    NoteError,
>)
    ensures
        plan_of(plan) == scope_removal(*config, category@, *clock),
        has_scope(*config, category@, *clock) ==> plan is Ok,
{
    match get_category_path(config, category, clock) {
        Ok(path) => {
            let mut plan: Vec<Action> = Vec::new();
            plan.push(Action::RemoveDirAll { path });
            assert(deeds(plan@) =~= seq![Deed::RemoveDirAll { path: path@ }]);
            Ok(plan)
        },
        Err(e) => Err(e),
    }
}

/// Removes every note and every scope: the whole store. There is no way
/// back.
pub fn panic(config: &Config) -> (plan: Result<Vec<Action>, NoteError>)
    ensures
        plan_of(plan) == wipe(*config),
{
    match get_base_path(config) {
        Ok(path) => {
            let mut plan: Vec<Action> = Vec::new();
            plan.push(Action::RemoveDirAll { path });
            assert(deeds(plan@) =~= seq![Deed::RemoveDirAll { path: path@ }]);
            Ok(plan)
        },
        Err(e) => Err(e),
    }
}

/// The choice of the regular files.
pub open spec fn files() -> spec_fn(Visit) -> bool {
    |v: Visit| has_kind(v, Kind::File)
}

/// Whether the visit keeps a walk from being shown: its metadata could
/// not be read, or it is a regular file whose contents could not.
pub open spec fn unshown(v: Visit) -> bool {
    unreadable(v) || (has_kind(v, Kind::File) && v->Entry_0.text is None)
}

/// What stands between the notes of one document.
pub open spec fn rule() -> Seq<char> {
    "---\n"@
}

/// The notes of a walk as one document: the contents of its regular
/// files in the walk's order, a rule between each two. `Io` where
/// something could not be read, `NotFound` where there is no file.
pub open spec fn document(walk: Seq<Visit>) -> Result<Seq<char>, NoteError> {
    if exists|i: int| 0 <= i < walk.len() && unshown(#[trigger] walk[i]) {
        Err(NoteError::Io)
    } else if texts_where(walk, files()).len() == 0 {
        Err(NoteError::NotFound(Missing::Notes))
    } else {
        Ok(joined(texts_where(walk, files()), rule()))
    }
}

/// The notes of a category as one document, from the walk of its
/// directory, or from `None` where the directory is not there.
pub open spec fn category_document(listing: Option<Seq<Visit>>) -> Result<Seq<char>, NoteError> {
    match listing {
        Some(walk) => document(walk),
        None => Err(NoteError::NotFound(Missing::Category)),
    }
}

/// All notes of the store as one markdown document, ready to be shown.
pub fn show_all(walk: &Vec<Visit>) -> (shown: Result<String, NoteError>)
    ensures
        path_of(shown) == document(walk@),
{
    let mut texts: Vec<String> = Vec::new();
    let mut i: usize = 0;
    while i < walk.len()
        invariant
            i <= walk.len(),
            views(texts@) == texts_where(walk@.take(i as int), files()),
            forall|j: int| 0 <= j < i ==> !unshown(#[trigger] walk@[j]),
        decreases walk.len() - i,
    {
        proof {
            texts_where_step(walk@, files(), i as int);
        }
        match &walk[i] {
            Visit::Entry(entry) => {
                match entry.kind {
                    None => {
                        return Err(NoteError::Io);
                    },
                    Some(Kind::File) => {
                        match &entry.text {
                            Some(text) => {
                                texts.push(text.clone());
                            },
                            None => {
                                return Err(NoteError::Io);
                            },
                        }
                    },
                    Some(_) => {},
                }
            },
            Visit::Fault => {},
        }
        i += 1;
    }
    assert(walk@.take(walk@.len() as int) =~= walk@);
    if texts.is_empty() {
        Err(NoteError::NotFound(Missing::Notes))
    } else {
        Ok(join(&texts, "---\n"))
    }
}

/// All notes of a category as one markdown document.
pub fn show_category(listing: Option<&Vec<Visit>>) -> (shown: Result<String, NoteError>)
    ensures
        path_of(shown) == category_document(
            match listing {
                Some(walk) => Some(walk@),
                None => None,
            },
        ),
{
    match listing {
        Some(walk) => show_all(walk),
        None => Err(NoteError::NotFound(Missing::Category)),
    }
}

/// Which notes a removal by date takes away, and how it goes on.
#[derive(Debug, PartialEq, Eq)]
pub struct Sweep {
    /// The notes to remove, by their position in the walk and in its
    /// order.
    pub remove: Vec<usize>,
    /// What follows once they are gone: the pruning of the directories
    /// left empty; or `Io`, where the walk came to something that could
    /// not be read and went no further.
    pub next: Result<Vec<Action>, NoteError>,
}

/// Whether the visit stops a removal by date: its metadata could not be
/// read, or it is a regular file that does not say when it was made.
pub open spec fn stops_sweep(v: Visit) -> bool {
    unreadable(v) || (has_kind(v, Kind::File) && v->Entry_0.created is None)
}

/// Whether position `i` of a walk is a regular file made on the UTC date
/// `date`, written `YYYY-MM-DD`.
pub open spec fn is_due(walk: Seq<Visit>, date: Seq<char>, i: int) -> bool {
    &&& 0 <= i < walk.len()
    &&& has_kind(walk[i], Kind::File)
    &&& (walk[i]->Entry_0.created matches Some(made) && formatted(made, iso_pattern()) == Some(
        date,
    ))
}

/// The choice of the files made on `date`.
pub open spec fn due(walk: Seq<Visit>, date: Seq<char>) -> spec_fn(int) -> bool {
    |i: int| is_due(walk, date, i)
}

/// Whether a removal by date goes through the walk up to `end` and no
/// further: to the first visit that stops it, or to the end of the walk.
pub open spec fn sweep_end(walk: Seq<Visit>, end: int) -> bool {
    &&& 0 <= end <= walk.len()
    &&& forall|j: int| 0 <= j < end ==> !stops_sweep(#[trigger] walk[j])
    &&& end < walk.len() ==> stops_sweep(walk[end])
}

/// Whether `sweep` is the removal by date of this walk: it removes the
/// files made on `date` as far as the walk can be read, and then prunes,
/// or fails where it could not be read to its end.
pub open spec fn is_sweep(sweep: Sweep, walk: Seq<Visit>, date: Seq<char>, end: int) -> bool {
    &&& sweep_end(walk, end)
    &&& lists_exactly(sweep.remove@, end, due(walk, date))
    &&& plan_of(sweep.next) == if end == walk.len() {
        Ok::<Seq<Deed>, NoteError>(seq![Deed::PruneEmptyDirs])
    } else {
        Err::<Seq<Deed>, NoteError>(NoteError::Io)
    }
}

fn made_on(entry: &Entry, date: &str) -> (yes: bool)
    ensures
        yes == (entry.created matches Some(made) && formatted(made, iso_pattern()) == Some(date@)),
{
    match entry.created {
        Some(made) => falls_on(made, date),
        None => false,
    }
}

/// Removes all notes created on the given date, written `YYYY-MM-DD`.
/// What counts is when the file system says the file was made, taken in
/// UTC, not the name of the directory that holds it. That no note was
/// made on the date is no error: nothing is removed then.
pub fn remove_by_date(walk: &Vec<Visit>, date: &str) -> (sweep: Sweep)
    ensures
        exists|end: int| is_sweep(sweep, walk@, date@, end),
{
    let mut remove: Vec<usize> = Vec::new();
    let mut i: usize = 0;
    while i < walk.len()
        invariant
            i <= walk.len(),
            lists_exactly(remove@, i as int, due(walk@, date@)),
            forall|j: int| 0 <= j < i ==> !stops_sweep(#[trigger] walk@[j]),
        decreases walk.len() - i,
    {
        proof {
            lists_exactly_step(remove@, i, due(walk@, date@));
        }
        match &walk[i] {
            Visit::Entry(entry) => {
                match entry.kind {
                    None => {
                        let sweep = Sweep { remove, next: Err(NoteError::Io) };
                        assert(is_sweep(sweep, walk@, date@, i as int));
                        return sweep;
                    },
                    Some(Kind::File) => {
                        if entry.created.is_none() {
                            let sweep = Sweep { remove, next: Err(NoteError::Io) };
                            assert(is_sweep(sweep, walk@, date@, i as int));
                            return sweep;
                        }
                        if made_on(entry, date) {
                            remove.push(i);
                        }
                    },
                    Some(_) => {},
                }
            },
            Visit::Fault => {},
        }
        i += 1;
    }
    let mut prune: Vec<Action> = Vec::new();
    prune.push(Action::PruneEmptyDirs);
    assert(deeds(prune@) =~= seq![Deed::PruneEmptyDirs]);
    let sweep = Sweep { remove, next: Ok(prune) };
    assert(is_sweep(sweep, walk@, date@, walk@.len() as int));
    sweep
}

} // verus!
