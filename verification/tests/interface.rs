use coding_agent::interface::{status_title, App, AppCommand, KeyPress};

fn typed(text: &str) -> App {
    let mut app = App::new();
    for c in text.chars() {
        app.enter_char(c);
    }
    app
}

#[test]
fn new_app_is_empty() {
    let app = App::new();
    assert_eq!(app.input(), "");
    assert_eq!(app.character_index(), 0);
    assert!(!app.should_quit());
    assert!(!app.agent_responses().is_agent_active());
}

#[test]
fn typing_appends_and_moves_the_cursor() {
    let app = typed("hello");
    assert_eq!(app.input(), "hello");
    assert_eq!(app.character_index(), 5);
}

#[test]
fn typing_inserts_at_the_cursor() {
    let mut app = typed("held");
    app.move_cursor_left();
    app.enter_char('l');
    assert_eq!(app.input(), "helld");
    assert_eq!(app.character_index(), 4);
    app.enter_char('o');
    app.enter_char(' ');
    assert_eq!(app.input(), "hello d");
}

#[test]
fn typing_multibyte_characters_inserts_at_the_character_position() {
    let mut app = typed("aé€😀");
    assert_eq!(app.byte_index(), "aé€😀".len());
    app.move_cursor_left();
    app.move_cursor_left();
    assert_eq!(app.character_index(), 2);
    assert_eq!(app.byte_index(), 3);
    app.enter_char('ß');
    assert_eq!(app.input(), "aéß€😀");
    assert_eq!(app.character_index(), 3);
}

#[test]
fn byte_index_at_start_and_end() {
    let mut app = typed("ü1");
    assert_eq!(app.byte_index(), 3);
    app.move_cursor_left();
    assert_eq!(app.byte_index(), 2);
    app.move_cursor_left();
    assert_eq!(app.byte_index(), 0);
}

#[test]
fn cursor_stays_within_the_line() {
    let mut app = typed("ab");
    app.move_cursor_right();
    assert_eq!(app.character_index(), 2);
    app.move_cursor_left();
    app.move_cursor_left();
    app.move_cursor_left();
    assert_eq!(app.character_index(), 0);
    assert_eq!(app.clamp_cursor(10), 2);
    assert_eq!(app.clamp_cursor(1), 1);
    assert_eq!(app.clamp_cursor(usize::MAX), 2);
}

#[test]
fn backspace_deletes_before_the_cursor() {
    let mut app = typed("abc");
    app.move_cursor_left();
    app.delete_char();
    assert_eq!(app.input(), "ac");
    assert_eq!(app.character_index(), 1);
    app.move_cursor_left();
    app.delete_char();
    assert_eq!(app.input(), "ac");
    assert_eq!(app.character_index(), 0);
}

#[test]
fn backspace_undoes_typing() {
    let mut app = typed("naïve text");
    app.move_cursor_left();
    app.move_cursor_left();
    app.move_cursor_left();
    let before = app.input().to_string();
    let cursor = app.character_index();
    app.enter_char('Ω');
    app.delete_char();
    assert_eq!(app.input(), before);
    assert_eq!(app.character_index(), cursor);
}

#[test]
fn clear_input_empties_the_line() {
    let mut app = typed("abc");
    app.clear_input();
    assert_eq!(app.input(), "");
    assert_eq!(app.character_index(), 0);
}

#[test]
fn submitting_an_empty_line_does_nothing() {
    let mut app = App::new();
    assert_eq!(app.submit_message(), AppCommand::Nothing);
    assert!(!app.agent_responses().is_agent_active());
    assert!(app.agent_responses().messages().is_empty());
}

#[test]
fn submitting_a_line_starts_the_agent() {
    let mut app = typed("fix the bug");
    assert_eq!(app.submit_message(), AppCommand::StartAgent);
    assert_eq!(app.input(), "");
    assert_eq!(app.character_index(), 0);
    let messages = app.agent_responses().messages();
    assert_eq!(messages.len(), 1);
    assert_eq!(messages[0].role.as_deref(), Some("user"));
    assert_eq!(messages[0].content.as_deref(), Some("fix the bug"));
    assert!(app.agent_responses().is_agent_active());
}

#[test]
fn submitting_while_the_agent_runs_is_refused() {
    let mut app = typed("first");
    assert_eq!(app.submit_message(), AppCommand::StartAgent);
    for c in "second".chars() {
        app.enter_char(c);
    }
    assert_eq!(app.submit_message(), AppCommand::Nothing);
    assert_eq!(app.input(), "");
    assert_eq!(app.agent_responses().messages().len(), 1);
}

#[test]
fn clear_command_forgets_the_conversation() {
    let mut app = typed("hello");
    assert_eq!(app.submit_message(), AppCommand::StartAgent);
    for c in "/clear".chars() {
        app.enter_char(c);
    }
    assert_eq!(app.submit_message(), AppCommand::Nothing);
    assert_eq!(app.input(), "");
    assert!(app.agent_responses().messages().is_empty());
    assert!(app.agent_responses().is_agent_active());
}

#[test]
fn clear_messages_keeps_the_input() {
    let mut app = typed("hello");
    assert_eq!(app.submit_message(), AppCommand::StartAgent);
    for c in "draft".chars() {
        app.enter_char(c);
    }
    app.clear_messages();
    assert_eq!(app.input(), "draft");
    assert_eq!(app.character_index(), 5);
    assert!(app.agent_responses().messages().is_empty());
    assert!(app.agent_responses().is_agent_active());
}

#[test]
fn agent_loop_works_on_the_conversation_of_the_app() {
    let mut app = typed("go");
    assert_eq!(app.submit_message(), AppCommand::StartAgent);
    app.agent_responses_mut().end_turn();
    assert!(!app.agent_responses().is_agent_active());
    assert_eq!(app.agent_responses().messages().len(), 1);
    for c in "again".chars() {
        app.enter_char(c);
    }
    assert_eq!(app.submit_message(), AppCommand::StartAgent);
    assert_eq!(app.agent_responses().messages().len(), 2);
}

#[test]
fn key_presses() {
    let mut app = App::new();
    assert_eq!(app.handle_event(KeyPress::Char('h')), AppCommand::Nothing);
    assert_eq!(app.handle_event(KeyPress::Char('i')), AppCommand::Nothing);
    assert_eq!(app.handle_event(KeyPress::Left), AppCommand::Nothing);
    assert_eq!(app.character_index(), 1);
    assert_eq!(app.handle_event(KeyPress::Right), AppCommand::Nothing);
    assert_eq!(app.character_index(), 2);
    assert_eq!(app.handle_event(KeyPress::Backspace), AppCommand::Nothing);
    assert_eq!(app.input(), "h");
    assert_eq!(app.handle_event(KeyPress::Other), AppCommand::Nothing);
    assert_eq!(app.input(), "h");
    assert_eq!(app.handle_event(KeyPress::Enter), AppCommand::StartAgent);
    assert_eq!(app.input(), "");
    assert!(!app.should_quit());
    assert_eq!(app.handle_event(KeyPress::Esc), AppCommand::Nothing);
    assert!(app.should_quit());
}

#[test]
fn status_titles() {
    assert_eq!(status_title(true), "Agent working ...");
    assert_eq!(status_title(false), "Agent idle");
}
