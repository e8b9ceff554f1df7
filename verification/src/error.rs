//! The error kinds of an editor session.
//!
//! Construction-time failures (event loop, window, surface, adapter, device,
//! font) are fatal to startup; `SurfaceAcquireFailed` and `GlyphFlushFailed`
//! arise per frame; `Internal` carries a detail message for conditions not
//! otherwise classified.

use vstd::prelude::*;

verus! {

#[derive(Debug, PartialEq, Eq)]
pub enum Error {
    EventLoopBuildFailed,
    WindowCreateFailed,
    SurfaceCreateFailed,
    AdapterUnavailable,
    DeviceRequestFailed,
    FontLoadFailed,
    SurfaceAcquireFailed,
    GlyphFlushFailed,
    Internal { message: String },
}

impl Error {
    /// Wraps a detail message as the generic `Internal` kind.
    pub fn internal(message: &str) -> (e: Error)
        ensures
            e matches Error::Internal { message: m } && m@ == message@,
    {
        Error::Internal { message: message.to_owned() }
    }
}

} // verus!
