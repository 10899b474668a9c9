use inquire::input::Input;
use inquire::renderer::{Paint, Renderer};

#[test]
fn new_renderer_has_painted_nothing() {
    let r = Renderer::new();
    assert!(r.paints().is_empty());
    assert_eq!(r.lines(), 0);
    assert_eq!(r.committed(), 0);
    assert!(!r.finished());
}

#[test]
fn reset_erases_exactly_the_lines_of_the_last_frame() {
    let mut r = Renderer::new();
    r.reset_prompt();
    r.print_error_message("Invalid");
    r.print_prompt_input("Name?", Some("Ann"), &Input::new().with_content("Bo"));
    r.print_option(true, "Bob");
    r.print_option(false, "Boris");
    r.print_help("type away");
    assert_eq!(r.lines(), 5);
    r.flush();
    assert_eq!(r.lines(), 5);
    assert_eq!(r.committed(), 7);
    r.reset_prompt();
    assert_eq!(r.lines(), 0);
    r.print_prompt_input("Name?", None, &Input::new());
    assert_eq!(r.lines(), 1);
    r.reset_prompt();
    let ops = r.paints();
    assert_eq!(ops[0], Paint::Erase(0));
    assert_eq!(ops[1], Paint::Error("Invalid".to_string()));
    assert_eq!(
        ops[2],
        Paint::Prompt {
            message: "Name?".to_string(),
            default: Some("Ann".to_string()),
            before: "Bo".to_string(),
            under: String::new(),
            after: String::new(),
        }
    );
    assert_eq!(ops[3], Paint::Choice { selected: true, text: "Bob".to_string() });
    assert_eq!(ops[4], Paint::Choice { selected: false, text: "Boris".to_string() });
    assert_eq!(ops[5], Paint::Help("type away".to_string()));
    assert_eq!(ops[6], Paint::Flush);
    assert_eq!(ops[7], Paint::Erase(5));
    assert_eq!(ops[9], Paint::Erase(1));
    assert_eq!(r.committed(), 7);
}

#[test]
fn prompt_line_splits_the_buffer_at_the_cursor_cluster() {
    let mut input = Input::new().with_content("a🧘🏻‍♂️c");
    input.move_to(1);
    let mut r = Renderer::new();
    r.print_prompt_input("Q", None, &input);
    assert_eq!(
        r.paints()[0],
        Paint::Prompt {
            message: "Q".to_string(),
            default: None,
            before: "a".to_string(),
            under: "🧘🏻‍♂️".to_string(),
            after: "c".to_string(),
        }
    );
}

#[test]
fn cleanup_leaves_one_static_line_and_stops_painting() {
    let mut r = Renderer::new();
    r.reset_prompt();
    r.print_prompt_input("Name?", None, &Input::new());
    r.print_help("help");
    r.flush();
    r.cleanup("Name?", "Bob");
    assert!(r.finished());
    assert_eq!(r.lines(), 1);
    let n = r.paints().len();
    assert_eq!(n, 7);
    assert_eq!(r.committed(), 7);
    assert_eq!(r.paints()[4], Paint::Erase(2));
    assert_eq!(
        r.paints()[5],
        Paint::Answer { message: "Name?".to_string(), answer: "Bob".to_string() }
    );
    assert_eq!(r.paints()[6], Paint::Flush);
    r.reset_prompt();
    r.print_error_message("late");
    r.print_prompt_input("Name?", None, &Input::new());
    r.print_option(false, "x");
    r.print_help("late");
    r.flush();
    r.cleanup("Name?", "Al");
    assert_eq!(r.paints().len(), n);
    assert_eq!(r.lines(), 1);
}
