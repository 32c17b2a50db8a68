use rnote::config::{check, Config};
use rnote::date::Clock;
use rnote::dirs::create_dir;
use rnote::error::NoteError;
use rnote::paths::{
    get_base_path, get_category_dir, get_category_path, get_note_file, get_scope_dir,
};
use rnote::plan::Action;

fn settings() -> Config {
    Config {
        data_home: Some("/home/ann/.local/share".to_string()),
        editor: Some("vi".to_string()),
        user: "ann".to_string(),
    }
}

fn unset() -> Config {
    Config { data_home: None, editor: None, user: String::new() }
}

fn first_of_march() -> Clock {
    Clock { utc: 1709251200 + 8 * 3600, offset: 0 }
}

#[test]
fn check_test() {
    assert!(check(&settings()).is_ok());
}

#[test]
fn check_wants_both_settings() {
    let mut config = settings();
    config.editor = None;
    assert_eq!(check(&config), Err(NoteError::Config));
    let mut config = settings();
    config.data_home = None;
    assert_eq!(check(&config), Err(NoteError::Config));
    assert_eq!(check(&unset()), Err(NoteError::Config));
}

#[test]
fn check_takes_empty_for_unset() {
    let mut config = settings();
    config.editor = Some(String::new());
    assert_eq!(check(&config), Err(NoteError::Config));
    let mut config = settings();
    config.data_home = Some(String::new());
    assert_eq!(check(&config), Err(NoteError::Config));
}

#[test]
fn check_does_not_ask_for_a_user() {
    let mut config = settings();
    config.user = String::new();
    assert_eq!(check(&config), Ok(()));
}

#[test]
fn get_base_path_test() {
    assert!(get_base_path(&settings()).is_ok());
}

#[test]
fn base_path_is_rnote_under_the_data_home() {
    assert_eq!(get_base_path(&settings()), Ok("/home/ann/.local/share/rnote/".to_string()));
}

#[test]
fn base_path_without_data_home() {
    assert_eq!(get_base_path(&unset()), Err(NoteError::Config));
}

#[test]
fn get_category_path_create_dir_test() {
    assert!(create_dir(&settings(), "test_dir", &first_of_march()).is_ok());
    assert!(get_category_path(&settings(), "test", &first_of_march()).is_ok());
}

#[test]
fn category_path_of_a_category() {
    assert_eq!(
        get_category_path(&settings(), "work", &first_of_march()),
        Ok("/home/ann/.local/share/rnote/work/".to_string())
    );
    let another_day = Clock { utc: 0, offset: -3600 };
    assert_eq!(
        get_category_path(&settings(), "work", &another_day),
        Ok("/home/ann/.local/share/rnote/work/".to_string())
    );
}

#[test]
fn category_path_of_the_dated_scope() {
    assert_eq!(
        get_category_path(&settings(), "", &first_of_march()),
        Ok("/home/ann/.local/share/rnote/2024-03-01/".to_string())
    );
}

#[test]
fn dated_scope_follows_the_clock() {
    let next_day = Clock { utc: 1709251200 + 86400, offset: 0 };
    assert_eq!(
        get_category_path(&settings(), "", &next_day),
        Ok("/home/ann/.local/share/rnote/2024-03-02/".to_string())
    );
}

#[test]
fn dated_scope_is_owed_in_the_years_that_have_four_digits() {
    let first = Clock { utc: -62_167_219_200, offset: 0 };
    assert_eq!(
        get_category_path(&settings(), "", &first),
        Ok("/home/ann/.local/share/rnote/0000-01-01/".to_string())
    );
    let last = Clock { utc: 253_402_300_799 - 3600, offset: 3600 };
    assert_eq!(
        get_category_path(&settings(), "", &last),
        Ok("/home/ann/.local/share/rnote/9999-12-31/".to_string())
    );
}

#[test]
fn category_path_errors() {
    assert_eq!(get_category_path(&unset(), "work", &first_of_march()), Err(NoteError::Config));
    assert_eq!(get_category_path(&unset(), "", &first_of_march()), Err(NoteError::Config));
    let far = Clock { utc: i64::MAX, offset: 0 };
    assert_eq!(get_category_path(&settings(), "", &far), Err(NoteError::Clock));
    assert_eq!(
        get_category_path(&settings(), "work", &far),
        Ok("/home/ann/.local/share/rnote/work/".to_string())
    );
    assert_eq!(get_category_path(&unset(), "", &far), Err(NoteError::Config));
}

#[test]
fn scope_dir_has_no_closing_slash() {
    assert_eq!(
        get_scope_dir(&settings(), "work", &first_of_march()),
        Ok("/home/ann/.local/share/rnote/work".to_string())
    );
    assert_eq!(
        get_scope_dir(&settings(), "", &first_of_march()),
        Ok("/home/ann/.local/share/rnote/2024-03-01".to_string())
    );
}

#[test]
fn category_dir_is_taken_literally() {
    assert_eq!(
        get_category_dir(&settings(), "work"),
        Ok("/home/ann/.local/share/rnote/work".to_string())
    );
    assert_eq!(get_category_dir(&settings(), ""), Ok("/home/ann/.local/share/rnote/".to_string()));
    assert_eq!(get_category_dir(&unset(), "work"), Err(NoteError::Config));
}

#[test]
fn note_file_is_name_and_md_in_the_scope() {
    assert_eq!(
        get_note_file(&settings(), "meeting", "", &first_of_march()),
        Ok("/home/ann/.local/share/rnote/2024-03-01/meeting.md".to_string())
    );
    assert_eq!(
        get_note_file(&settings(), "x", "work", &first_of_march()),
        Ok("/home/ann/.local/share/rnote/work/x.md".to_string())
    );
}

#[test]
fn create_dir_makes_the_directory_owner_only() {
    let plan = create_dir(&settings(), "work", &first_of_march()).unwrap();
    assert_eq!(
        plan,
        vec![
            Action::CreateDirAll { path: "/home/ann/.local/share/rnote/work".to_string() },
            Action::SetPermissions {
                path: "/home/ann/.local/share/rnote/work".to_string(),
                mode: 0o700
            },
            Action::SetPermissions {
                path: "/home/ann/.local/share/rnote/".to_string(),
                mode: 0o700
            },
        ]
    );
}

#[test]
fn create_dir_of_the_dated_scope() {
    let plan = create_dir(&settings(), "", &first_of_march()).unwrap();
    assert_eq!(
        plan[0],
        Action::CreateDirAll { path: "/home/ann/.local/share/rnote/2024-03-01".to_string() }
    );
    assert_eq!(plan.len(), 3);
}

#[test]
fn create_dir_is_the_same_each_time() {
    let first = create_dir(&settings(), "work", &first_of_march());
    let second = create_dir(&settings(), "work", &first_of_march());
    assert_eq!(first, second);
    let later = Clock { utc: 1709251200 + 30 * 86400, offset: 0 };
    assert_eq!(create_dir(&settings(), "work", &later), first);
}

#[test]
fn create_dir_errors() {
    assert_eq!(create_dir(&unset(), "work", &first_of_march()), Err(NoteError::Config));
    let far = Clock { utc: i64::MIN, offset: -1 };
    assert_eq!(create_dir(&settings(), "", &far), Err(NoteError::Clock));
}
