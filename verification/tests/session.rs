use tedit::app::{App, EventResponse, WindowEvent};
use tedit::error::Error;
use tedit::input::{ElementState, Key, NamedKey};

#[test]
fn close_request_exits() {
    let mut app = App::new();
    let r = app.window_event(WindowEvent::CloseRequested);
    assert!(r.exit);
    assert!(!r.resize);
    assert!(!r.render);
    assert!(!r.redraw);
}

#[test]
fn escape_press_exits_without_editing() {
    let mut app = App::new();
    app.handle_keyboard_input(Key::Character("a".into()), ElementState::Pressed);
    let r = app.window_event(WindowEvent::KeyboardInput {
        key: Key::Named(NamedKey::Escape),
        state: ElementState::Pressed,
    });
    assert!(r.exit);
    assert!(!r.redraw);
    assert_eq!(app.editor_content(), "a");
    assert_eq!(app.cursor_position(), 1);
}

#[test]
fn key_press_edits_and_requests_redraw() {
    let mut app = App::new();
    let r = app.window_event(WindowEvent::KeyboardInput {
        key: Key::Character("hi".into()),
        state: ElementState::Pressed,
    });
    assert!(!r.exit);
    assert!(r.redraw);
    assert!(!r.render);
    assert_eq!(app.editor_content(), "hi");
    assert_eq!(app.cursor_position(), 2);
}

#[test]
fn key_release_is_ignored() {
    let mut app = App::new();
    app.handle_keyboard_input(Key::Character("a".into()), ElementState::Pressed);
    let r = app.window_event(WindowEvent::KeyboardInput {
        key: Key::Named(NamedKey::Backspace),
        state: ElementState::Released,
    });
    assert!(!r.exit);
    assert!(!r.redraw);
    assert_eq!(app.editor_content(), "a");
    assert_eq!(app.cursor_position(), 1);
}

#[test]
fn unhandled_key_is_ignored() {
    let mut app = App::new();
    let r = app.window_event(WindowEvent::KeyboardInput {
        key: Key::Named(NamedKey::Unidentified),
        state: ElementState::Pressed,
    });
    assert!(!r.exit);
    assert_eq!(app.editor_content(), "");
    assert_eq!(app.cursor_position(), 0);
    assert!(r.redraw);
}

#[test]
fn resize_event_passes_dimensions_through() {
    let mut app = App::new();
    let r = app.window_event(WindowEvent::Resized { width: 800, height: 600 });
    assert_eq!(
        r,
        EventResponse {
            exit: false,
            resize: true,
            render: false,
            redraw: false,
            width: 800,
            height: 600,
        }
    );
}

#[test]
fn degenerate_resize_event_asks_nothing() {
    let mut app = App::new();
    let r = app.window_event(WindowEvent::Resized { width: 0, height: 600 });
    assert!(!r.resize);
    let r = app.window_event(WindowEvent::Resized { width: 800, height: 0 });
    assert!(!r.resize);
}

#[test]
fn redraw_request_renders_and_rearms() {
    let mut app = App::new();
    let r = app.window_event(WindowEvent::RedrawRequested);
    assert!(r.render);
    assert!(r.redraw);
    assert!(!r.exit);
}

#[test]
fn snapshot_hands_content_and_cursor() {
    let mut app = App::new();
    app.handle_keyboard_input(Key::Character("ab".into()), ElementState::Pressed);
    app.handle_keyboard_input(Key::Named(NamedKey::ArrowLeft), ElementState::Pressed);
    let (text, cursor) = app.snapshot();
    assert_eq!(text, "ab");
    assert_eq!(cursor, 1);
}

#[test]
fn recorded_error_survives_to_exit() {
    let mut app = App::new();
    assert_eq!(app.error(), None);
    let mut app = App::new();
    app.record_error(Error::SurfaceAcquireFailed);
    assert_eq!(app.error(), Some(Error::SurfaceAcquireFailed));
}

#[test]
fn internal_error_carries_message() {
    let e = Error::internal("failed to get gpu adapter");
    assert_eq!(
        e,
        Error::Internal { message: String::from("failed to get gpu adapter") }
    );
}
