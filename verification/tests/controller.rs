use chat_tui::App;
use chat_tui::AppMode;
use chat_tui::Command;
use chat_tui::Key;
use chat_tui::MessageSender;

fn type_str(app: &mut App, s: &str) {
    for c in s.chars() {
        let cmd = app.handle_key_event(Key::Char(c));
        assert_eq!(cmd, Command::Nothing);
    }
}

#[test]
fn new_app_starts_in_navigation_with_everything_empty() {
    let app = App::new();
    assert_eq!(app.get_state(), AppMode::NavigationMode);
    assert_eq!(app.input().text(), "");
    assert_eq!(app.chat().len(), 0);
    assert!(!app.is_polling());
    assert!(!app.should_exit());
}

#[test]
fn default_is_same_as_new() {
    let app = App::default();
    assert_eq!(app.get_state(), AppMode::NavigationMode);
    assert_eq!(app.chat().len(), 0);
    assert!(!app.should_exit());
}

#[test]
fn scenario_esc_type_hi_then_enter() {
    let mut app = App::new();
    assert_eq!(app.get_state(), AppMode::NavigationMode);

    let cmd = app.handle_key_event(Key::Esc);
    assert_eq!(cmd, Command::Nothing);
    assert_eq!(app.get_state(), AppMode::ChatMode);

    type_str(&mut app, "hi");
    assert_eq!(app.input().text(), "hi");
    assert_eq!(app.input().cursor(), 2);

    let cmd = app.handle_key_event(Key::Enter);
    assert_eq!(cmd, Command::Submit);
    assert_eq!(app.chat().len(), 1);
    assert_eq!(app.chat()[0].0, MessageSender::User);
    assert_eq!(app.chat()[0].1, "hi");
    assert_eq!(app.input().text(), "");
    assert_eq!(app.input().cursor(), 0);
    assert!(app.is_polling());
}

#[test]
fn scenario_q_in_navigation_exits_loop() {
    let mut app = App::new();
    let cmd = app.handle_key_event(Key::Char('q'));
    assert_eq!(cmd, Command::Nothing);
    assert!(app.should_exit());

    // The event loop runs exactly while the exit flag is clear, so it
    // terminates here without taking another iteration.
    let mut iterations: usize = 0;
    while !app.should_exit() {
        iterations += 1;
    }
    assert_eq!(iterations, 0);
}

#[test]
fn scenario_backend_failure_appends_error_entry() {
    let mut app = App::new();
    app.handle_key_event(Key::Esc);
    type_str(&mut app, "hello");
    app.handle_key_event(Key::Enter);
    assert!(app.is_polling());

    app.on_backend_failure();
    assert!(!app.is_polling());
    assert_eq!(app.chat().len(), 2);
    assert_eq!(app.chat()[1].0, MessageSender::LLM);
    assert_eq!(app.chat()[1].1, "error: backend request failed");
}

#[test]
fn backend_success_appends_reply_and_clears_flag() {
    let mut app = App::new();
    app.handle_key_event(Key::Esc);
    type_str(&mut app, "question");
    app.handle_key_event(Key::Enter);

    app.on_backend_success(String::from("answer"));
    assert!(!app.is_polling());
    assert_eq!(app.chat().len(), 2);
    assert_eq!(app.chat()[1].0, MessageSender::LLM);
    assert_eq!(app.chat()[1].1, "answer");
}

#[test]
fn second_enter_while_polling_is_noop() {
    let mut app = App::new();
    app.handle_key_event(Key::Esc);
    type_str(&mut app, "first");
    assert_eq!(app.handle_key_event(Key::Enter), Command::Submit);

    type_str(&mut app, "second");
    let cmd = app.handle_key_event(Key::Enter);
    assert_eq!(cmd, Command::Nothing);
    assert_eq!(app.chat().len(), 1);
    assert_eq!(app.input().text(), "second");
    assert!(app.is_polling());
}

#[test]
fn esc_toggles_back_to_navigation() {
    let mut app = App::new();
    app.handle_key_event(Key::Esc);
    app.handle_key_event(Key::Esc);
    assert_eq!(app.get_state(), AppMode::NavigationMode);
}

#[test]
fn q_in_chat_mode_is_typed_not_quit() {
    let mut app = App::new();
    app.handle_key_event(Key::Esc);
    app.handle_key_event(Key::Char('q'));
    assert!(!app.should_exit());
    assert_eq!(app.input().text(), "q");
}

#[test]
fn editing_keys_do_nothing_in_navigation_mode() {
    let mut app = App::new();
    for key in [Key::Left, Key::Right, Key::Backspace, Key::Enter, Key::Other, Key::Char('x')] {
        let cmd = app.handle_key_event(key);
        assert_eq!(cmd, Command::Nothing);
    }
    assert_eq!(app.get_state(), AppMode::NavigationMode);
    assert_eq!(app.input().text(), "");
    assert_eq!(app.chat().len(), 0);
    assert!(!app.should_exit());
    assert!(!app.is_polling());
}

#[test]
fn arrow_keys_and_backspace_edit_in_chat_mode() {
    let mut app = App::new();
    app.handle_key_event(Key::Esc);
    type_str(&mut app, "abc");
    app.handle_key_event(Key::Left);
    assert_eq!(app.input().cursor(), 2);
    app.handle_key_event(Key::Backspace);
    assert_eq!(app.input().text(), "ac");
    assert_eq!(app.input().cursor(), 1);
    app.handle_key_event(Key::Right);
    assert_eq!(app.input().cursor(), 2);
}

#[test]
fn key_release_and_repeat_events_are_filtered() {
    let mut app = App::new();
    let cmd = app.handle_event(false, Key::Char('q'));
    assert_eq!(cmd, Command::Nothing);
    assert!(!app.should_exit());

    let cmd = app.handle_event(true, Key::Char('q'));
    assert_eq!(cmd, Command::Nothing);
    assert!(app.should_exit());
}

#[test]
fn enter_with_empty_buffer_submits_empty_message() {
    let mut app = App::new();
    app.handle_key_event(Key::Esc);
    let cmd = app.handle_key_event(Key::Enter);
    assert_eq!(cmd, Command::Submit);
    assert_eq!(app.chat().len(), 1);
    assert_eq!(app.chat()[0].1, "");
    assert!(app.is_polling());
}

#[test]
fn transcript_lines_prefix_each_entry_with_its_sender() {
    let mut app = App::new();
    app.handle_key_event(Key::Esc);
    type_str(&mut app, "hi there");
    app.handle_key_event(Key::Enter);
    app.on_backend_success(String::from("hello"));

    let lines = app.transcript_lines();
    assert_eq!(lines.len(), 2);
    assert_eq!(lines[0], "User: hi there");
    assert_eq!(lines[1], "LLM: hello");
}

#[test]
fn sender_labels() {
    assert_eq!(MessageSender::User.label(), "User");
    assert_eq!(MessageSender::LLM.label(), "LLM");
    assert_eq!(MessageSender::default(), MessageSender::User);
}
