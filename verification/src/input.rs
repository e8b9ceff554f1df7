//! The input dispatcher: maps a raw key event to at most one buffer
//! operation.
//!
//! A key event is a logical key identity — a named key or an arbitrary
//! printable character payload — together with a press/release indicator.
//! Operations are applied only on the press transition; release events and
//! unhandled keys are explicitly ignored. Escape is no buffer operation: it
//! signals the orchestrator to end the session. The dispatcher holds no
//! state of its own.

use vstd::prelude::*;
use crate::buffer::{
    backspace_step,
    delete_forward_step,
    insert_step,
    move_end_step,
    move_home_step,
    move_left_step,
    move_right_step,
    BufferView,
    TextBuffer,
};

verus! {

/// The named keys the editor reacts to. Every other named key arrives as
/// `Unidentified` and is ignored.
#[derive(Debug, Clone, Copy, PartialEq, Eq, Structural)]
pub enum NamedKey {
    Backspace,
    Delete,
    ArrowLeft,
    ArrowRight,
    Home,
    End,
    Enter,
    Space,
    Escape,
    Unidentified,
}

/// A logical key identity: a named key, or a printable character payload of
/// one or more characters (a composed input arrives as one payload).
#[derive(Debug, PartialEq, Eq)]
pub enum Key {
    Named(NamedKey),
    Character(String),
}

/// The press/release state of a key event.
#[derive(Debug, Clone, Copy, PartialEq, Eq, Structural)]
pub enum ElementState {
    Pressed,
    Released,
}

/// The buffer state a key event leads to: the mapping table of the
/// dispatcher, one transition per handled key, identity for everything
/// else and for every release event.
pub open spec fn dispatched(v: BufferView, key: Key, state: ElementState) -> BufferView {
    if state is Released {
        v
    } else {
        match key {
            Key::Named(NamedKey::Backspace) => backspace_step(v),
            Key::Named(NamedKey::Delete) => delete_forward_step(v),
            Key::Named(NamedKey::ArrowLeft) => move_left_step(v),
            Key::Named(NamedKey::ArrowRight) => move_right_step(v),
            Key::Named(NamedKey::Home) => move_home_step(v),
            Key::Named(NamedKey::End) => move_end_step(v),
            Key::Named(NamedKey::Enter) => insert_step(v, seq!['\n']),
            Key::Named(NamedKey::Space) => insert_step(v, seq![' ']),
            Key::Character(s) => insert_step(v, s@),
            Key::Named(NamedKey::Escape) => v,
            Key::Named(NamedKey::Unidentified) => v,
        }
    }
}

/// Whether a key event asks the orchestrator to end the session: a press
/// of Escape, and nothing else.
pub open spec fn requests_exit(key: Key, state: ElementState) -> bool {
    state is Pressed && key == Key::Named(NamedKey::Escape)
}

/// Applies a key event to the buffer: exactly the transition that
/// [`dispatched`] gives, and reports whether the event asks to end the
/// session.
pub fn handle_key(buf: &mut TextBuffer, key: &Key, state: ElementState) -> (exit: bool)
    requires
        old(buf).inv(),
    ensures
        final(buf).inv(),
        final(buf)@ == dispatched(old(buf)@, *key, state),
        exit == requests_exit(*key, state),
{
    if state == ElementState::Released {
        return false;
    }
    match key {
        Key::Named(NamedKey::Backspace) => {
            buf.backspace();
            false
        },
        Key::Named(NamedKey::Delete) => {
            buf.delete_forward();
            false
        },
        Key::Named(NamedKey::ArrowLeft) => {
            buf.move_left();
            false
        },
        Key::Named(NamedKey::ArrowRight) => {
            buf.move_right();
            false
        },
        Key::Named(NamedKey::Home) => {
            buf.move_home();
            false
        },
        Key::Named(NamedKey::End) => {
            buf.move_end();
            false
        },
        Key::Named(NamedKey::Enter) => {
            buf.insert_newline();
            false
        },
        Key::Named(NamedKey::Space) => {
            buf.insert_space();
            false
        },
        Key::Character(s) => {
            buf.insert_text(s.as_str());
            false
        },
        Key::Named(NamedKey::Escape) => true,
        Key::Named(NamedKey::Unidentified) => false,
    }
}

/// Law: dispatching any key event on a well-formed buffer state leaves the
/// cursor within `0 ..= len(content)`.
pub proof fn lemma_dispatched_preserves_wf(v: BufferView, key: Key, state: ElementState)
    requires
        v.wf(),
    ensures
        dispatched(v, key, state).wf(),
{
}

/// Law: a release event never changes the buffer.
pub proof fn lemma_release_is_noop(v: BufferView, key: Key)
    ensures
        dispatched(v, key, ElementState::Released) == v,
{
}

} // verus!
