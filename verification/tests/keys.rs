use inquire::error::InquireError;
use inquire::key::{Key, KeyModifiers, RawCode, RawKey};
use inquire::key_handler::{Callback, Guard, KeyHandler, Predicate};

fn raw(code: RawCode, modifiers: KeyModifiers) -> RawKey {
    RawKey { code, modifiers }
}

#[test]
fn escape_is_cancel_whatever_the_modifiers() {
    assert_eq!(Key::from_raw(raw(RawCode::Esc, KeyModifiers::none())), Key::Cancel);
    assert_eq!(Key::from_raw(raw(RawCode::Esc, KeyModifiers::shift())), Key::Cancel);
    assert_eq!(Key::from_raw(raw(RawCode::Esc, KeyModifiers::control())), Key::Cancel);
}

#[test]
fn control_c_is_interrupt_and_not_cancel() {
    let key = Key::from_raw(raw(RawCode::Char('c'), KeyModifiers::control()));
    assert_eq!(key, Key::Interrupt);
    assert_ne!(key, Key::Cancel);
    assert_eq!(
        Key::from_raw(raw(RawCode::Char('c'), KeyModifiers::none())),
        Key::Char('c', KeyModifiers::none())
    );
}

#[test]
fn enter_and_line_breaks_are_submit() {
    assert_eq!(Key::from_raw(raw(RawCode::Enter, KeyModifiers::none())), Key::Submit);
    assert_eq!(Key::from_raw(raw(RawCode::Char('\n'), KeyModifiers::none())), Key::Submit);
    assert_eq!(Key::from_raw(raw(RawCode::Char('\r'), KeyModifiers::none())), Key::Submit);
}

#[test]
fn other_keys_keep_their_modifiers() {
    let m = KeyModifiers { shift: true, control: false, alt: true };
    assert_eq!(Key::from_raw(raw(RawCode::Up, m)), Key::Up(m));
    assert_eq!(Key::from_raw(raw(RawCode::Down, m)), Key::Down(m));
    assert_eq!(Key::from_raw(raw(RawCode::Left, m)), Key::Left(m));
    assert_eq!(Key::from_raw(raw(RawCode::Right, m)), Key::Right(m));
    assert_eq!(Key::from_raw(raw(RawCode::Delete, m)), Key::Delete(m));
    assert_eq!(Key::from_raw(raw(RawCode::Char('x'), m)), Key::Char('x', m));
    assert_eq!(Key::from_raw(raw(RawCode::Tab, m)), Key::Tab);
    assert_eq!(Key::from_raw(raw(RawCode::Char('\t'), m)), Key::Tab);
    assert_eq!(Key::from_raw(raw(RawCode::Backspace, m)), Key::Backspace);
    assert_eq!(Key::from_raw(raw(RawCode::Home, m)), Key::Home);
    assert_eq!(Key::from_raw(raw(RawCode::End, m)), Key::End);
    assert_eq!(Key::from_raw(raw(RawCode::PageUp, m)), Key::PageUp);
    assert_eq!(Key::from_raw(raw(RawCode::PageDown, m)), Key::PageDown);
    assert_eq!(Key::from_raw(raw(RawCode::Other, m)), Key::Any);
}

#[test]
fn key_equality_is_exact() {
    let up = Key::Up(KeyModifiers::none());
    assert!(up.matches(&Key::Up(KeyModifiers::none())));
    assert!(!up.matches(&Key::Up(KeyModifiers::shift())));
    assert!(!up.matches(&Key::Down(KeyModifiers::none())));
    assert!(KeyModifiers::none().is_empty());
    assert!(!KeyModifiers::alt().is_empty());
}

#[test]
fn user_aborts_are_told_from_failures() {
    assert!(InquireError::OperationCanceled.by_user());
    assert!(InquireError::OperationInterrupted.by_user());
    assert!(!InquireError::NotTTY.by_user());
    assert!(!InquireError::IO("broken pipe".to_string()).by_user());
    assert!(!InquireError::InvalidConfiguration("no options".to_string()).by_user());
}

struct AtLeast(i32);

impl Predicate for AtLeast {
    type State = i32;

    fn check(&self, state: &i32) -> bool {
        *state >= self.0
    }
}

struct Add(i32);

impl Callback for Add {
    type State = i32;

    fn call(&self, state: &mut i32) {
        *state += self.0;
    }
}

#[test]
fn guard_needs_its_key_and_its_predicate() {
    let guard = Guard::new(Key::Tab, Some(AtLeast(3)));
    assert!(guard.test(Key::Tab, &3));
    assert!(!guard.test(Key::Tab, &2));
    assert!(!guard.test(Key::Backspace, &3));
    let open: Guard<AtLeast> = Guard::new(Key::Up(KeyModifiers::none()), None);
    assert!(open.test(Key::Up(KeyModifiers::none()), &-1));
    assert!(!open.test(Key::Up(KeyModifiers::shift()), &-1));
}

#[test]
fn callback_fires_once_per_matching_guard() {
    let mut handler: KeyHandler<AtLeast, Add> = KeyHandler::new();
    handler.add_event_multiple_guards(
        vec![
            Guard::new(Key::Tab, None),
            Guard::new(Key::Tab, Some(AtLeast(0))),
            Guard::new(Key::Home, None),
            Guard::new(Key::Tab, Some(AtLeast(100))),
        ],
        Add(10),
    );
    let mut state = 0;
    KeyHandler::on_change(Key::Tab, &mut state, &handler);
    assert_eq!(state, 20);
    KeyHandler::on_change(Key::Home, &mut state, &handler);
    assert_eq!(state, 30);
    KeyHandler::on_change(Key::End, &mut state, &handler);
    assert_eq!(state, 30);
}

#[test]
fn later_guards_see_the_state_that_earlier_callbacks_left() {
    let mut handler: KeyHandler<AtLeast, Add> = KeyHandler::new();
    handler.add_event_single_guard(Guard::new(Key::Tab, None), Add(5));
    handler.add_event_multiple_guards(
        vec![Guard::new(Key::Tab, Some(AtLeast(5))), Guard::new(Key::Tab, Some(AtLeast(7)))],
        Add(1),
    );
    let mut state = 0;
    KeyHandler::on_change(Key::Tab, &mut state, &handler);
    assert_eq!(state, 6);
    KeyHandler::on_change(Key::Tab, &mut state, &handler);
    assert_eq!(state, 13);
}

#[test]
fn empty_handler_leaves_the_state() {
    let handler: KeyHandler<AtLeast, Add> = KeyHandler::new();
    let mut state = 4;
    KeyHandler::on_change(Key::Tab, &mut state, &handler);
    assert_eq!(state, 4);
}

#[test]
fn each_error_describes_itself() {
    assert_eq!(InquireError::NotTTY.message(), "The input device is not a TTY");
    assert_eq!(
        InquireError::InvalidConfiguration("no options".to_string()).message(),
        "The prompt configuration is invalid: no options"
    );
    assert_eq!(InquireError::IO("broken pipe".to_string()).message(), "IO error: broken pipe");
    assert_eq!(InquireError::OperationCanceled.message(), "Operation was canceled by the user");
    assert_eq!(
        InquireError::OperationInterrupted.message(),
        "Operation was interrupted by the user"
    );
}
