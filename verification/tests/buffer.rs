use inquire::input::Input;
use inquire::key::{Key, KeyModifiers};

fn typed(text: &str) -> Input {
    let mut input = Input::new();
    for c in text.chars() {
        assert!(input.handle_key(Key::Char(c, KeyModifiers::none())));
    }
    input
}

#[test]
fn new_buffer_is_empty() {
    let input = Input::new();
    assert_eq!(input.content(), "");
    assert_eq!(input.length(), 0);
    assert_eq!(input.cursor(), 0);
}

#[test]
fn with_content_splits_into_clusters_and_moves_cursor_to_end() {
    let input = Input::new().with_content("a\u{310}e\u{301}o\u{308}\u{332}");
    assert_eq!(input.length(), 3);
    assert_eq!(input.cursor(), 3);
    assert_eq!(input.cluster(0), Some("a\u{310}"));
    assert_eq!(input.cluster(1), Some("e\u{301}"));
    assert_eq!(input.cluster(2), Some("o\u{308}\u{332}"));
    assert_eq!(input.cluster(3), None);
    assert_eq!(input.content(), "a\u{310}e\u{301}o\u{308}\u{332}");
}

#[test]
fn with_content_replaces_earlier_content() {
    let input = typed("hello").with_content("hi");
    assert_eq!(input.content(), "hi");
    assert_eq!(input.cursor(), 2);
}

#[test]
fn backspace_on_empty_buffer_changes_nothing() {
    let mut input = Input::new();
    assert!(!input.delete_before());
    assert!(!input.handle_key(Key::Backspace));
    assert_eq!(input.content(), "");
    assert_eq!(input.cursor(), 0);
    assert_eq!(input.length(), 0);
}

#[test]
fn backspace_removes_one_whole_cluster() {
    let mut input = Input::new().with_content("ab🧘🏻‍♂️");
    assert_eq!(input.length(), 3);
    assert!(input.delete_before());
    assert_eq!(input.content(), "ab");
    assert_eq!(input.cursor(), 2);
    let mut flags = Input::new().with_content("b🇷🇺🇸🇹");
    assert_eq!(flags.length(), 3);
    assert!(flags.delete_before());
    assert_eq!(flags.content(), "b🇷🇺");
    assert_eq!(flags.length(), 2);
}

#[test]
fn insert_goes_in_front_of_the_cursor() {
    let mut input = Input::new().with_content("ac");
    input.move_left();
    input.insert("b");
    assert_eq!(input.content(), "abc");
    assert_eq!(input.cursor(), 2);
    assert_eq!(input.length(), 3);
}

#[test]
fn insert_that_merges_into_a_cluster_keeps_cursor_in_range() {
    let mut input = typed("e");
    assert!(input.handle_key(Key::Char('\u{301}', KeyModifiers::none())));
    assert_eq!(input.content(), "e\u{301}");
    assert_eq!(input.length(), 1);
    assert_eq!(input.cursor(), 1);
    assert!(input.delete_before());
    assert_eq!(input.content(), "");
}

#[test]
fn delete_at_removes_the_cluster_under_the_cursor() {
    let mut input = Input::new().with_content("a🌍c");
    assert!(!input.delete_at());
    input.move_left();
    input.move_left();
    assert_eq!(input.cursor(), 1);
    assert!(input.delete_at());
    assert_eq!(input.content(), "ac");
    assert_eq!(input.cursor(), 1);
    assert!(input.handle_key(Key::Delete(KeyModifiers::none())));
    assert_eq!(input.content(), "a");
    assert!(!input.handle_key(Key::Delete(KeyModifiers::none())));
}

#[test]
fn cursor_moves_stop_at_both_ends() {
    let mut input = Input::new().with_content("ab");
    input.move_right();
    assert_eq!(input.cursor(), 2);
    input.move_left();
    input.move_left();
    input.move_left();
    assert_eq!(input.cursor(), 0);
    assert!(!input.handle_key(Key::End));
    assert_eq!(input.cursor(), 2);
    assert!(!input.handle_key(Key::Home));
    assert_eq!(input.cursor(), 0);
    assert!(!input.handle_key(Key::Right(KeyModifiers::none())));
    assert_eq!(input.cursor(), 1);
    assert!(!input.handle_key(Key::Left(KeyModifiers::none())));
    assert_eq!(input.cursor(), 0);
    input.move_to(9);
    assert_eq!(input.cursor(), 2);
}

#[test]
fn text_around_the_cursor() {
    let mut input = Input::new().with_content("a🌍c");
    assert_eq!(input.before_cursor(), "a🌍c");
    assert_eq!(input.after_cursor(), "");
    input.move_to(1);
    assert_eq!(input.before_cursor(), "a");
    assert_eq!(input.cluster(input.cursor()), Some("🌍"));
    assert_eq!(input.after_cursor(), "c");
}

#[test]
fn keys_with_control_or_alt_are_not_typed() {
    let mut input = typed("a");
    assert!(!input.handle_key(Key::Char('x', KeyModifiers::control())));
    assert!(!input.handle_key(Key::Char('x', KeyModifiers::alt())));
    assert!(input.handle_key(Key::Char('X', KeyModifiers::shift())));
    assert!(!input.handle_key(Key::PageUp));
    assert!(!input.handle_key(Key::Any));
    assert_eq!(input.content(), "aX");
}

#[test]
fn cursor_stays_in_range_over_mixed_edits() {
    let keys = [
        Key::Backspace,
        Key::Char('a', KeyModifiers::none()),
        Key::Char('\u{1F9D8}', KeyModifiers::none()),
        Key::Char('\u{1F3FB}', KeyModifiers::none()),
        Key::Left(KeyModifiers::none()),
        Key::Left(KeyModifiers::none()),
        Key::Left(KeyModifiers::none()),
        Key::Delete(KeyModifiers::none()),
        Key::Char('\u{200D}', KeyModifiers::none()),
        Key::Right(KeyModifiers::none()),
        Key::Right(KeyModifiers::none()),
        Key::Backspace,
        Key::Backspace,
        Key::Backspace,
        Key::Delete(KeyModifiers::none()),
    ];
    let mut input = Input::new();
    for key in keys {
        input.handle_key(key);
        assert!(input.cursor() <= input.length());
        let again = Input::new().with_content(&input.content());
        assert_eq!(again.length(), input.length());
        for i in 0..input.length() {
            assert_eq!(again.cluster(i), input.cluster(i));
        }
    }
}

#[test]
fn from_clusters_clamps_the_cursor() {
    let input = Input::from_clusters(vec!["a".to_string(), "b".to_string()], 5);
    assert_eq!(input.cursor(), 2);
    assert_eq!(input.content(), "ab");
    let input = Input::from_clusters(vec!["a".to_string(), "b".to_string()], 1);
    assert_eq!(input.cursor(), 1);
}

#[test]
fn from_clusters_takes_the_clusters_as_they_are() {
    let mut input = Input::from_clusters(vec!["e".to_string(), "\u{301}".to_string()], 2);
    assert_eq!(input.length(), 2);
    input.move_left();
    input.insert("x");
    assert_eq!(input.content(), "ex\u{301}");
    assert_eq!(input.length(), 2);
    assert_eq!(input.cursor(), 2);
}
