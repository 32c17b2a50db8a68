use rnote::config::Config;
use rnote::date::Clock;
use rnote::error::{Missing, NoteError};
use rnote::index::{
    get_all_notes, get_files_by_word, get_note_path, get_notes_in_category, is_duplicate,
};
use rnote::notes::create;
use rnote::walk::{Entry, Kind, Visit};

fn dir_at(path: &str, name: &str, depth: usize) -> Visit {
    Visit::Entry(Entry {
        path: path.to_string(),
        file_name: name.to_string(),
        depth,
        kind: Some(Kind::Dir),
        created: Some(1709251200),
        text: None,
    })
}

fn file_at(path: &str, name: &str, depth: usize, text: &str) -> Visit {
    Visit::Entry(Entry {
        path: path.to_string(),
        file_name: name.to_string(),
        depth,
        kind: Some(Kind::File),
        created: Some(1709251200),
        text: Some(text.to_string()),
    })
}

fn unread_at(path: &str, name: &str, depth: usize) -> Visit {
    Visit::Entry(Entry {
        path: path.to_string(),
        file_name: name.to_string(),
        depth,
        kind: None,
        created: None,
        text: None,
    })
}

fn index_settings() -> Config {
    Config {
        data_home: Some("/d".to_string()),
        editor: Some("vi".to_string()),
        user: "ann".to_string(),
    }
}

fn noon() -> Clock {
    Clock { utc: 1709251200 + 12 * 3600, offset: 0 }
}

fn store() -> Vec<Visit> {
    vec![
        dir_at("/d/rnote/", "rnote", 0),
        dir_at("/d/rnote/a", "a", 1),
        file_at("/d/rnote/a/x.md", "x.md", 2, "alpha beta\n"),
        file_at("/d/rnote/a/y.md", "y.md", 2, "gamma\n"),
        dir_at("/d/rnote/b", "b", 1),
        file_at("/d/rnote/b/x.md", "x.md", 2, "beta delta\n"),
    ]
}

#[test]
fn find_by_word_test() {
    let draft = create(&index_settings(), "test", "test_word", &noon());
    assert!(draft.is_ok());
    let draft = draft.unwrap();
    let walk = vec![
        dir_at("/d/rnote/", "rnote", 0),
        dir_at("/d/rnote/test_word", "test_word", 1),
        file_at(&draft.file, "test.md", 2, &draft.text),
    ];
    let found = get_files_by_word(&walk, "test");
    assert!(found.is_ok());
    assert_eq!(found, Ok(vec!["/d/rnote/test_word/test.md".to_string()]));
}

#[test]
fn get_note_path_test() {
    let draft = create(&index_settings(), "test", "test_path", &noon());
    assert!(draft.is_ok());
    let draft = draft.unwrap();
    let walk = vec![
        dir_at("/d/rnote/", "rnote", 0),
        dir_at("/d/rnote/test_path", "test_path", 1),
        file_at(&draft.file, "test.md", 2, &draft.text),
    ];
    let found = get_note_path(&walk, "test");
    assert!(found.is_ok());
    assert_eq!(found, Ok(vec!["/d/rnote/test_path/test.md".to_string()]));
}

#[test]
fn get_notes_in_category_test() {
    let draft = create(&index_settings(), "test", "test_c", &noon());
    assert!(draft.is_ok());
    let draft = draft.unwrap();
    let listing = vec![
        dir_at("/d/rnote/test_c", "test_c", 0),
        file_at(&draft.file, "test.md", 1, &draft.text),
    ];
    let found = get_notes_in_category(Some(&listing));
    assert!(found.is_ok());
    assert_eq!(found, Ok(vec!["/d/rnote/test_c/test.md".to_string()]));
}

#[test]
fn all_notes_are_the_regular_files_in_order() {
    assert_eq!(
        get_all_notes(&store()),
        Ok(vec![
            "/d/rnote/a/x.md".to_string(),
            "/d/rnote/a/y.md".to_string(),
            "/d/rnote/b/x.md".to_string(),
        ])
    );
}

#[test]
fn all_notes_of_an_empty_store() {
    let none = NoteError::NotFound(Missing::Notes);
    assert_eq!(get_all_notes(&Vec::new()), Err(none));
    assert_eq!(get_all_notes(&vec![dir_at("/d/rnote/", "rnote", 0)]), Err(none));
    assert_eq!(get_all_notes(&vec![Visit::Fault]), Err(none));
    assert!(none.is_not_found());
}

#[test]
fn all_notes_skip_faults_and_unwritable_paths() {
    let walk = vec![
        dir_at("/d/rnote/", "rnote", 0),
        Visit::Fault,
        file_at("", "", 1, "lost"),
        file_at("/d/rnote/z.md", "z.md", 1, ""),
    ];
    assert_eq!(get_all_notes(&walk), Ok(vec!["/d/rnote/z.md".to_string()]));
}

#[test]
fn all_notes_fail_on_unreadable_metadata() {
    let mut walk = store();
    walk.push(unread_at("/d/rnote/b/q.md", "q.md", 2));
    assert_eq!(get_all_notes(&walk), Err(NoteError::Io));
    assert!(!NoteError::Io.is_not_found());
}

#[test]
fn category_without_directory_and_without_notes() {
    assert_eq!(get_notes_in_category(None), Err(NoteError::NotFound(Missing::Category)));
    let bare = vec![dir_at("/d/rnote/c", "c", 0)];
    assert_eq!(
        get_notes_in_category(Some(&bare)),
        Err(NoteError::NotFound(Missing::CategoryContents))
    );
    assert_ne!(
        NoteError::NotFound(Missing::Category),
        NoteError::NotFound(Missing::CategoryContents)
    );
}

#[test]
fn note_path_in_every_scope() {
    assert_eq!(
        get_note_path(&store(), "x"),
        Ok(vec!["/d/rnote/a/x.md".to_string(), "/d/rnote/b/x.md".to_string()])
    );
    assert_eq!(get_note_path(&store(), "y"), Ok(vec!["/d/rnote/a/y.md".to_string()]));
}

#[test]
fn note_path_wants_the_exact_name() {
    let missing = Err(NoteError::NotFound(Missing::Note));
    assert_eq!(get_note_path(&store(), "X"), missing);
    assert_eq!(get_note_path(&store(), "x.md"), missing);
    assert_eq!(get_note_path(&store(), ""), missing);
    assert_eq!(get_note_path(&store(), "a"), missing);
    assert_eq!(get_note_path(&Vec::new(), "x"), missing);
}

#[test]
fn note_path_fails_on_a_fault() {
    let mut walk = store();
    walk.push(Visit::Fault);
    assert_eq!(get_note_path(&walk, "x"), Err(NoteError::Io));
    assert_eq!(get_note_path(&vec![Visit::Fault], "x"), Err(NoteError::Io));
}

#[test]
fn note_path_does_not_read_metadata() {
    let walk = vec![unread_at("/d/rnote/a/x.md", "x.md", 2)];
    assert_eq!(get_note_path(&walk, "x"), Ok(vec!["/d/rnote/a/x.md".to_string()]));
}

#[test]
fn note_path_twice_gives_the_same() {
    let walk = store();
    assert_eq!(get_note_path(&walk, "x"), get_note_path(&walk, "x"));
}

#[test]
fn note_path_in_another_order_gives_the_same_set() {
    let mut turned = store();
    turned.reverse();
    let mut one = get_note_path(&store(), "x").unwrap();
    let mut other = get_note_path(&turned, "x").unwrap();
    assert_ne!(one, other);
    one.sort();
    other.sort();
    assert_eq!(one, other);
}

#[test]
fn files_by_word_finds_those_that_hold_it() {
    assert_eq!(
        get_files_by_word(&store(), "beta"),
        Ok(vec!["/d/rnote/a/x.md".to_string(), "/d/rnote/b/x.md".to_string()])
    );
    assert_eq!(get_files_by_word(&store(), "gamma"), Ok(vec!["/d/rnote/a/y.md".to_string()]));
}

#[test]
fn files_by_word_nothing_found_is_no_error() {
    assert_eq!(get_files_by_word(&store(), "omega"), Ok(Vec::new()));
    assert_eq!(get_files_by_word(&store(), "Beta"), Ok(Vec::new()));
    assert_eq!(get_files_by_word(&Vec::new(), "beta"), Ok(Vec::new()));
}

#[test]
fn no_match_by_word_and_by_name_differ() {
    assert_eq!(get_files_by_word(&store(), "zzz"), Ok(Vec::new()));
    assert_eq!(get_note_path(&store(), "zzz"), Err(NoteError::NotFound(Missing::Note)));
}

#[test]
fn files_by_word_skips_what_could_not_be_opened() {
    let mut locked = Entry {
        path: "/d/rnote/a/l.md".to_string(),
        file_name: "l.md".to_string(),
        depth: 2,
        kind: Some(Kind::File),
        created: None,
        text: None,
    };
    let walk = vec![Visit::Entry(locked.clone()), Visit::Fault];
    assert_eq!(get_files_by_word(&walk, ""), Ok(Vec::new()));
    locked.text = Some(String::new());
    let walk = vec![Visit::Entry(locked)];
    assert_eq!(get_files_by_word(&walk, ""), Ok(vec!["/d/rnote/a/l.md".to_string()]));
}

#[test]
fn files_by_word_fails_on_unreadable_metadata() {
    let walk = vec![unread_at("/d/rnote/a/x.md", "x.md", 2)];
    assert_eq!(get_files_by_word(&walk, "a"), Err(NoteError::Io));
}

#[test]
fn files_by_word_looks_into_files_only() {
    let mut named = dir_at("/d/rnote/beta", "beta", 1);
    if let Visit::Entry(entry) = &mut named {
        entry.text = Some("beta".to_string());
    }
    assert_eq!(get_files_by_word(&vec![named], "beta"), Ok(Vec::new()));
}

#[test]
fn duplicate_is_the_file_itself() {
    let scope = vec![
        dir_at("/d/rnote/a/", "a", 0),
        file_at("/d/rnote/a/x.md", "x.md", 1, ""),
    ];
    assert_eq!(is_duplicate(&scope, "/d/rnote/a/x.md"), Err(NoteError::Conflict));
    assert_eq!(is_duplicate(&scope, "/d/rnote/a/y.md"), Ok(()));
    assert_eq!(is_duplicate(&scope, "/d/rnote/b/x.md"), Ok(()));
    assert_eq!(is_duplicate(&scope, "/d/rnote/a/x"), Ok(()));
    assert_eq!(is_duplicate(&Vec::new(), "/d/rnote/a/x.md"), Ok(()));
}

#[test]
fn duplicate_check_stops_at_what_comes_first() {
    let fault_first = vec![Visit::Fault, file_at("/d/rnote/a/x.md", "x.md", 1, "")];
    assert_eq!(is_duplicate(&fault_first, "/d/rnote/a/x.md"), Err(NoteError::Io));
    let file_first = vec![file_at("/d/rnote/a/x.md", "x.md", 1, ""), Visit::Fault];
    assert_eq!(is_duplicate(&file_first, "/d/rnote/a/x.md"), Err(NoteError::Conflict));
    assert_eq!(is_duplicate(&file_first, "/d/rnote/a/y.md"), Err(NoteError::Io));
}
