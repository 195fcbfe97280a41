use pangu_agent::tui::{scroll_offset, App, AppRequest, Key, RunResponse};

fn type_text(app: &mut App, s: &str) {
    for c in s.chars() {
        assert!(app.handle_key(Key::Char(c)).is_none());
    }
}

#[test]
fn typing_editing_and_sending() {
    let mut app = App::new("http://localhost:4848".into());
    type_text(&mut app, "hix");
    app.handle_key(Key::Backspace);
    assert_eq!(app.input, "hi");
    assert_eq!(app.input_line(), "> hi");
    match app.handle_key(Key::Enter) {
        Some(AppRequest::Send { task, session_id }) => {
            assert_eq!(task, "hi");
            assert!(session_id.is_none());
        }
        None => panic!("expected a request"),
    }
    assert!(app.waiting);
    assert_eq!(app.input, "");
    assert_eq!(app.messages.len(), 1);
    assert_eq!(app.messages[0].role, "user");
    // keys are ignored while waiting
    assert!(app.handle_key(Key::Char('x')).is_none());
    assert_eq!(app.input, "");
    app.tick();
    assert_eq!(app.waiting_dots, 1);
    app.on_reply(Ok(RunResponse { session_id: "s9".into(), result: "ok".into(), iterations: 3, tool_calls: 2 }));
    assert!(!app.waiting);
    assert_eq!(app.waiting_dots, 0);
    assert_eq!(app.session_id.as_deref(), Some("s9"));
    assert_eq!(app.messages[1].meta.as_deref(), Some("3 iter, 2 tools"));
    app.on_reply(Err("boom".into()));
    assert_eq!(app.messages[2].content, "Error: boom");
    assert_eq!(app.messages[2].role, "error");
}

#[test]
fn commands() {
    let mut app = App::new("u".into());
    assert!(app.handle_key(Key::Enter).is_none());
    assert!(app.messages.is_empty());
    type_text(&mut app, " /session ");
    app.handle_key(Key::Enter);
    assert_eq!(app.messages[0].content, "No active session");
    app.session_id = Some("abc".into());
    type_text(&mut app, "/session");
    app.handle_key(Key::Enter);
    assert_eq!(app.messages[1].content, "Session ID: abc");
    type_text(&mut app, "/nope x");
    app.handle_key(Key::Enter);
    assert_eq!(app.messages[2].content, "Unknown command: /nope x");
    type_text(&mut app, "/clear");
    app.handle_key(Key::Enter);
    assert!(app.messages.is_empty());
    type_text(&mut app, "abc");
    app.handle_key(Key::Esc);
    assert_eq!(app.input, "");
    app.handle_key(Key::ControlChar('x'));
    app.handle_key(Key::Other);
    assert_eq!(app.input, "");
    type_text(&mut app, "/q");
    app.handle_key(Key::Enter);
    assert!(!app.running);
}

#[test]
fn layout_numbers() {
    assert_eq!(scroll_offset(25), 5);
    assert_eq!(scroll_offset(3), 0);
    let mut app = App::new("u".into());
    assert_eq!(app.cursor_x(80), 2);
    type_text(&mut app, "中文");
    assert_eq!(app.cursor_x(80), 8);
    assert_eq!(app.cursor_x(5), 2);
}
