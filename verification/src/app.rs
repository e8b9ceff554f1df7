//! The orchestrator state: the text buffer and the terminal error of the
//! session, with the decisions the event loop acts on.
//!
//! The window, the GPU surface and the OS event loop live outside this
//! library. The shell around it feeds each window event to
//! [`App::window_event`] and performs what the returned [`EventResponse`]
//! asks: ending the loop, reconfiguring the surface, drawing a frame,
//! requesting the next redraw. A fatal failure met while doing so is
//! recorded with [`App::record_error`] and read back at loop exit with
//! [`App::error`].

use vstd::prelude::*;
use crate::buffer::{BufferView, TextBuffer};
use crate::error::Error;
use crate::input::{dispatched, handle_key, requests_exit, ElementState, Key};

verus! {

/// A window event, as the shell hands it over: a close request, a resize
/// with the new pixel dimensions, a key event, a redraw request, or
/// anything else (ignored).
#[derive(Debug, PartialEq, Eq)]
pub enum WindowEvent {
    CloseRequested,
    Resized { width: u32, height: u32 },
    KeyboardInput { key: Key, state: ElementState },
    RedrawRequested,
    Other,
}

/// What the shell must do after an event: end the loop, reconfigure the
/// surface to `width` x `height`, draw a frame, and/or request the next
/// redraw.
#[derive(Debug, Clone, Copy, PartialEq, Eq, Structural)]
pub struct EventResponse {
    pub exit: bool,
    pub resize: bool,
    pub render: bool,
    pub redraw: bool,
    pub width: u32,
    pub height: u32,
}

/// Whether an event ends the session: a close request or a press of
/// Escape.
pub open spec fn event_exit(e: WindowEvent) -> bool {
    match e {
        WindowEvent::CloseRequested => true,
        WindowEvent::KeyboardInput { key, state } => requests_exit(key, state),
        _ => false,
    }
}

/// Whether an event makes the shell reconfigure the surface: a resize to
/// non-degenerate dimensions.
pub open spec fn event_resize(e: WindowEvent) -> bool {
    e matches WindowEvent::Resized { width, height } && width > 0 && height > 0
}

/// Whether an event makes the shell draw a frame now.
pub open spec fn event_render(e: WindowEvent) -> bool {
    e is RedrawRequested
}

/// Whether an event makes the shell request the next redraw: after a frame
/// (the continuous redraw cadence that drives the caret blink), and after
/// every handled key press.
pub open spec fn event_redraw(e: WindowEvent) -> bool {
    match e {
        WindowEvent::RedrawRequested => true,
        WindowEvent::KeyboardInput { key, state } => state is Pressed && !requests_exit(
            key,
            state,
        ),
        _ => false,
    }
}

/// The buffer state an event leads to: key events go through the input
/// dispatcher, every other event leaves the buffer alone.
pub open spec fn event_dispatched(v: BufferView, e: WindowEvent) -> BufferView {
    match e {
        WindowEvent::KeyboardInput { key, state } => dispatched(v, key, state),
        _ => v,
    }
}

/// The mathematical model of the orchestrator: the buffer model and the
/// recorded terminal error.
pub ghost struct AppView {
    pub buffer: BufferView,
    pub error: Option<Error>,
}

/// The orchestrator state: the text buffer and the terminal error of the
/// session, if one was met.
pub struct App {
    buffer: TextBuffer,
    error: Option<Error>,
}

impl View for App {
    type V = AppView;

    closed spec fn view(&self) -> AppView {
        AppView { buffer: self.buffer@, error: self.error }
    }
}

impl App {
    /// The invariant: the buffer's cursor stays within its content.
    pub open spec fn inv(&self) -> bool {
        self@.buffer.wf()
    }

    /// A fresh session: an empty buffer, the cursor at zero, no error.
    pub fn new() -> (a: App)
        ensures
            a.inv(),
            a@.buffer == (BufferView { text: Seq::<char>::empty(), cursor: 0 }),
            a@.error is None,
    {
        App { buffer: TextBuffer::new(), error: None }
    }

    /// The terminal error of the session, if one was recorded.
    pub fn error(self) -> (e: Option<Error>)
        ensures
            e == self@.error,
    {
        self.error
    }

    /// Records a fatal failure; the buffer is left as it was.
    pub fn record_error(&mut self, err: Error)
        ensures
            final(self)@.buffer == old(self)@.buffer,
            final(self)@.error == Some(err),
    {
        self.error = Some(err);
    }

    /// Applies a key event to the buffer — exactly the dispatcher's
    /// transition — and reports whether the event asks to end the session.
    /// The error state is untouched.
    pub fn handle_keyboard_input(&mut self, key: Key, state: ElementState) -> (exit: bool)
        requires
            old(self).inv(),
        ensures
            final(self).inv(),
            final(self)@.buffer == dispatched(old(self)@.buffer, key, state),
            final(self)@.error == old(self)@.error,
            exit == requests_exit(key, state),
    {
        handle_key(&mut self.buffer, &key, state)
    }

    /// Routes one window event: key events mutate the buffer through the
    /// dispatcher, and the returned response tells the shell what to do.
    pub fn window_event(&mut self, event: WindowEvent) -> (r: EventResponse)
        requires
            old(self).inv(),
        ensures
            final(self).inv(),
            final(self)@.buffer == event_dispatched(old(self)@.buffer, event),
            final(self)@.error == old(self)@.error,
            r.exit == event_exit(event),
            r.resize == event_resize(event),
            r.render == event_render(event),
            r.redraw == event_redraw(event),
            event matches WindowEvent::Resized { width, height } ==> r.width == width
                && r.height == height,
    {
        match event {
            WindowEvent::CloseRequested => EventResponse {
                exit: true,
                resize: false,
                render: false,
                redraw: false,
                width: 0,
                height: 0,
            },
            WindowEvent::Resized { width, height } => EventResponse {
                exit: false,
                resize: width > 0 && height > 0,
                render: false,
                redraw: false,
                width,
                height,
            },
            WindowEvent::KeyboardInput { key, state } => {
                let exit = handle_key(&mut self.buffer, &key, state);
                let redraw = state == ElementState::Pressed && !exit;
                EventResponse { exit, resize: false, render: false, redraw, width: 0, height: 0 }
            },
            WindowEvent::RedrawRequested => EventResponse {
                exit: false,
                resize: false,
                render: true,
                redraw: true,
                width: 0,
                height: 0,
            },
            WindowEvent::Other => EventResponse {
                exit: false,
                resize: false,
                render: false,
                redraw: false,
                width: 0,
                height: 0,
            },
        }
    }

    /// The buffer content as one contiguous string together with the
    /// cursor offset, for the renderer. Read-only.
    pub fn snapshot(&self) -> (r: (String, usize))
        ensures
            r.0@ == self@.buffer.text,
            r.1 == self@.buffer.cursor,
    {
        self.buffer.snapshot()
    }

    /// The buffer content as one contiguous string.
    pub fn editor_content(&self) -> (s: String)
        ensures
            s@ == self@.buffer.text,
    {
        let (s, _) = self.buffer.snapshot();
        s
    }

    /// The cursor offset, in characters.
    pub fn cursor_position(&self) -> (r: usize)
        ensures
            r == self@.buffer.cursor,
    {
        self.buffer.cursor_position()
    }
}

} // verus!
