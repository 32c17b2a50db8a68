use rnote::text::{chars_of, contains, copy_all, find, join, same, skip_chars};

#[test]
fn chars_of_keeps_every_character() {
    assert_eq!(chars_of("añb"), vec!['a', 'ñ', 'b']);
    assert_eq!(chars_of(""), Vec::<char>::new());
}

#[test]
fn same_compares_letter_for_letter() {
    assert!(same("note", "note"));
    assert!(!same("note", "Note"));
    assert!(!same("note", "notes"));
    assert!(same("", ""));
}

#[test]
fn find_gives_the_first_position() {
    assert_eq!(find("/data/rnote/work/rnote.md", "rnote"), Some(6));
    assert_eq!(find("rnote", "rnote"), Some(0));
    assert_eq!(find("abcabc", "c"), Some(2));
}

#[test]
fn find_counts_characters_not_bytes() {
    assert_eq!(find("/döta/rnote/x.md", "rnote"), Some(6));
}

#[test]
fn find_misses_what_is_not_there() {
    assert_eq!(find("/data/notes/x.md", "rnote"), None);
    assert_eq!(find("rnot", "rnote"), None);
    assert_eq!(find("", "a"), None);
}

#[test]
fn find_empty_word_is_at_the_start() {
    assert_eq!(find("abc", ""), Some(0));
    assert_eq!(find("", ""), Some(0));
}

#[test]
fn contains_is_case_sensitive() {
    assert!(contains("title: Meeting\n", "Meeting"));
    assert!(!contains("title: Meeting\n", "meeting"));
}

#[test]
fn contains_reaches_over_line_breaks() {
    assert!(contains("one\ntwo", "e\nt"));
}

#[test]
fn contains_word_at_the_very_end() {
    assert!(contains("abc", "bc"));
    assert!(contains("abc", "abc"));
    assert!(!contains("abc", "abcd"));
}

#[test]
fn contains_empty_word_always() {
    assert!(contains("abc", ""));
    assert!(contains("", ""));
}

#[test]
fn skip_chars_cuts_the_front() {
    assert_eq!(skip_chars("/data/rnote/a/x.md", 6), "rnote/a/x.md");
    assert_eq!(skip_chars("abc", 0), "abc");
    assert_eq!(skip_chars("abc", 3), "");
}

#[test]
fn skip_chars_leaves_nothing_of_a_short_text() {
    assert_eq!(skip_chars("abc", 4), "");
    assert_eq!(skip_chars("", 1), "");
}

#[test]
fn skip_chars_counts_characters() {
    assert_eq!(skip_chars("äöü-x", 3), "-x");
}

#[test]
fn join_puts_the_separator_between() {
    let parts = vec!["a\n".to_string(), "b\n".to_string(), "c".to_string()];
    assert_eq!(join(&parts, "---\n"), "a\n---\nb\n---\nc");
}

#[test]
fn join_of_one_and_of_none() {
    assert_eq!(join(&vec!["only".to_string()], "---\n"), "only");
    assert_eq!(join(&Vec::new(), "---\n"), "");
}

#[test]
fn copy_all_copies_in_order() {
    let strings = vec!["x".to_string(), "".to_string(), "y".to_string()];
    assert_eq!(copy_all(&strings), strings);
}
