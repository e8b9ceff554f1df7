//! Core of a minimal keyboard-driven text editor: an editable character
//! buffer with a cursor, a dispatcher that maps key events to buffer
//! operations, the surface-configuration and cursor-blink state that drive
//! the renderer, and the session error kinds.

pub mod app;
pub mod buffer;
pub mod error;
pub mod input;
pub mod render;
pub mod storage;
