use mengxi::chat::{App, ChatEvent, ChatMessage, ToolStatus};
use mengxi::explorer::ExplorerApp;
use mengxi::keys::{Key, KeyKind};

fn press(app: &mut App, key: Key) -> Option<String> {
    app.handle_key(KeyKind::Press, key)
}

fn type_text(app: &mut App, s: &str) {
    for c in s.chars() {
        press(app, Key::Char(c));
    }
}

#[test]
fn new_chat_greets_and_waits_for_input() {
    let app = App::new();
    assert_eq!(app.messages.len(), 1);
    assert!(matches!(&app.messages[0], ChatMessage::System(m) if m.contains("Welcome to mengxi chat")));
    assert_eq!(app.active_panel, 1);
    assert_eq!(app.history_pos, -1);
    assert!(!app.is_generating());
}

#[test]
fn typing_then_erasing_restores_the_input() {
    let mut app = App::new();
    type_text(&mut app, "ab");
    assert_eq!(app.input, "ab");
    press(&mut app, Key::Backspace);
    assert_eq!(app.input, "a");
    press(&mut app, Key::Backspace);
    press(&mut app, Key::Backspace);
    assert_eq!(app.input, "");
}

#[test]
fn enter_submits_the_line() {
    let mut app = App::new();
    assert_eq!(press(&mut app, Key::Enter), None);
    type_text(&mut app, "hello");
    assert_eq!(press(&mut app, Key::Enter), Some("hello".to_string()));
    assert_eq!(app.input, "");
    assert_eq!(app.history, vec!["hello".to_string()]);
    assert!(app.is_generating());
    assert!(matches!(&app.messages[1], ChatMessage::User(m) if m == "hello"));
    assert!(matches!(&app.messages[2], ChatMessage::Assistant(m) if m.is_empty()));
}

#[test]
fn up_and_down_walk_the_history() {
    let mut app = App::new();
    type_text(&mut app, "one");
    press(&mut app, Key::Enter);
    type_text(&mut app, "two");
    press(&mut app, Key::Enter);
    press(&mut app, Key::Up);
    assert_eq!(app.input, "two");
    press(&mut app, Key::Up);
    assert_eq!(app.input, "one");
    press(&mut app, Key::Up);
    assert_eq!(app.input, "one");
    press(&mut app, Key::Down);
    assert_eq!(app.input, "two");
    press(&mut app, Key::Down);
    assert_eq!(app.input, "");
    assert_eq!(app.history_pos, -1);
}

#[test]
fn releases_are_ignored_and_escape_quits() {
    let mut app = App::new();
    assert_eq!(app.handle_key(KeyKind::Release, Key::Char('x')), None);
    assert_eq!(app.input, "");
    press(&mut app, Key::Esc);
    assert!(app.should_quit);
}

#[test]
fn tab_switches_panels_and_page_keys_scroll() {
    let mut app = App::new();
    press(&mut app, Key::Tab);
    assert_eq!(app.active_panel, 0);
    press(&mut app, Key::PageDown);
    assert_eq!(app.scroll_offset, 10);
    press(&mut app, Key::Up);
    assert_eq!(app.scroll_offset, 9);
    press(&mut app, Key::PageUp);
    assert_eq!(app.scroll_offset, 0);
    press(&mut app, Key::Tab);
    assert_eq!(app.active_panel, 1);
}

#[test]
fn agent_events_fill_the_reply() {
    let mut app = App::new();
    type_text(&mut app, "hi");
    press(&mut app, Key::Enter);
    app.handle_agent_events(vec![
        ChatEvent::Started,
        ChatEvent::TextDelta("Hel".to_string()),
        ChatEvent::TextDelta("lo".to_string()),
        ChatEvent::ToolCallStart("search".to_string()),
        ChatEvent::ToolCallEnd { name: "search".to_string(), success: true, preview: "3 hits".to_string() },
        ChatEvent::Done("Hello".to_string()),
    ]);
    assert!(matches!(&app.messages[2], ChatMessage::Assistant(m) if m == "Hello"));
    assert!(matches!(&app.messages[3], ChatMessage::ToolCall { name, status: ToolStatus::Success(p) } if name == "search" && p == "3 hits"));
    assert!(!app.is_generating());
    assert_eq!(app.last_result.as_deref(), Some("Hello"));
}

#[test]
fn agent_errors_are_shown() {
    let mut app = App::new();
    app.handle_agent_event(ChatEvent::Error("boom".to_string()));
    assert!(matches!(app.messages.last(), Some(ChatMessage::System(m)) if m == "Error: boom"));
}

#[test]
fn explorer_starts_on_the_strip() {
    let e = ExplorerApp::new(120, 40);
    assert_eq!(e.status(), "Loaded 120x40 strip (120 frames)");
    assert_eq!(e.panel_name(), "Fingerprint Strip");
    assert_eq!((e.scroll_x(), e.scroll_y(), e.active_panel()), (0, 0, 0));
    assert_eq!((e.strip_width(), e.strip_height()), (120, 40));
}

#[test]
fn explorer_scrolls_within_the_strip() {
    let mut e = ExplorerApp::new(30, 10);
    assert!(e.handle_key(KeyKind::Press, Key::Left));
    assert_eq!(e.scroll_x(), 0);
    e.handle_key(KeyKind::Press, Key::PageDown);
    assert_eq!(e.scroll_x(), 20);
    e.handle_key(KeyKind::Press, Key::PageDown);
    assert_eq!(e.scroll_x(), 29);
    e.handle_key(KeyKind::Press, Key::Char('l'));
    assert_eq!(e.scroll_x(), 29);
    e.handle_key(KeyKind::Press, Key::Home);
    assert_eq!(e.scroll_x(), 0);
    e.handle_key(KeyKind::Press, Key::End);
    assert_eq!(e.scroll_x(), 29);
    e.handle_key(KeyKind::Press, Key::Char('j'));
    assert_eq!(e.scroll_y(), 1);
}

#[test]
fn explorer_tabs_cycle_panels() {
    let mut e = ExplorerApp::new(5, 5);
    e.handle_key(KeyKind::Press, Key::Tab);
    assert_eq!(e.panel_name(), "Scene Boundaries");
    assert_eq!(e.status(), "Panel: Scene Boundaries");
    e.handle_key(KeyKind::Press, Key::BackTab);
    e.handle_key(KeyKind::Press, Key::BackTab);
    assert_eq!(e.panel_name(), "Color DNA");
    for _ in 0..4 {
        e.handle_key(KeyKind::Press, Key::Tab);
    }
    assert_eq!(e.active_panel(), 3);
}

#[test]
fn explorer_quits_on_q() {
    let mut e = ExplorerApp::new(5, 5);
    assert!(e.handle_key(KeyKind::Release, Key::Char('q')));
    assert!(!e.should_quit());
    assert!(!e.handle_key(KeyKind::Press, Key::Char('q')));
    assert!(e.should_quit());
}
