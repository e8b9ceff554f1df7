//! The verified state behind the render surface: the surface configuration
//! that resize maintains, the choice of a surface pixel format, and the
//! cursor-blink state that the frame cadence drives.
//!
//! The GPU device, queue and drawable surface themselves live outside this
//! library; the shell around it applies each decision made here to them.

use vstd::prelude::*;

verus! {

/// The blink interval: the caret flips visibility when more than this many
/// milliseconds have passed since the last toggle.
pub const BLINK_INTERVAL_MS: u64 = 500;

/// The frame-latency bound every surface is configured with.
pub const FRAME_LATENCY: u32 = 2;

/// The surface configuration: the drawable target's pixel dimensions, the
/// index of the chosen pixel format in the surface's capability list, and
/// the frame-latency bound. Mutated only on resize, never on render.
#[derive(Debug, Clone, Copy, PartialEq, Eq, Structural)]
pub struct SurfaceConfig {
    pub width: u32,
    pub height: u32,
    pub format_index: usize,
    pub frame_latency: u32,
}

impl SurfaceConfig {
    /// A configuration for a target of the given dimensions and the chosen
    /// format, with the fixed frame-latency bound.
    pub fn new(width: u32, height: u32, format_index: usize) -> (c: SurfaceConfig)
        ensures
            c == (SurfaceConfig { width, height, format_index, frame_latency: FRAME_LATENCY }),
    {
        SurfaceConfig { width, height, format_index, frame_latency: FRAME_LATENCY }
    }

    /// Updates the stored dimensions, telling the caller to reconfigure the
    /// surface; a resize with a zero width or height leaves the prior
    /// configuration unchanged (a minimized or degenerate window state).
    pub fn resize(&mut self, new_width: u32, new_height: u32) -> (changed: bool)
        ensures
            changed == (new_width > 0 && new_height > 0),
            changed ==> *final(self) == (SurfaceConfig {
                width: new_width,
                height: new_height,
                ..*old(self)
            }),
            !changed ==> *final(self) == *old(self),
    {
        if new_width > 0 && new_height > 0 {
            self.width = new_width;
            self.height = new_height;
            true
        } else {
            false
        }
    }
}

/// Picks the surface pixel format from the capability list, given for each
/// offered format whether it is gamma-corrected (sRGB): the first sRGB
/// format if any is offered, otherwise the first format of the list.
pub fn pick_format_index(srgb: &Vec<bool>) -> (i: usize)
    requires
        srgb.len() > 0,
    ensures
        i < srgb.len(),
        srgb@[i as int] ==> forall|j: int| 0 <= j < i ==> !srgb@[j],
        !srgb@[i as int] ==> i == 0 && (forall|j: int| 0 <= j < srgb.len() ==> !srgb@[j]),
{
    let mut k: usize = 0;
    while k < srgb.len()
        invariant
            0 <= k <= srgb.len(),
            forall|j: int| 0 <= j < k ==> !srgb@[j],
        decreases srgb.len() - k,
    {
        if srgb[k] {
            return k;
        }
        k = k + 1;
    }
    0
}

/// The caret's blink state: purely render-side, derived from wall-clock
/// time, never persisted.
#[derive(Debug, Clone, Copy, PartialEq, Eq, Structural)]
pub struct CursorBlink {
    pub visible: bool,
}

impl CursorBlink {
    /// The caret starts visible.
    pub fn new() -> (b: CursorBlink)
        ensures
            b.visible,
    {
        CursorBlink { visible: true }
    }

    /// Advances the blink state at the start of a frame: when more than
    /// [`BLINK_INTERVAL_MS`] milliseconds have elapsed since the last
    /// toggle, visibility flips and the caller must reset its timer. The
    /// cadence depends on elapsed wall-clock time alone, not on the frame
    /// rate.
    pub fn advance(&mut self, elapsed_ms: u64) -> (reset: bool)
        ensures
            reset == (elapsed_ms > BLINK_INTERVAL_MS),
            final(self).visible == (if elapsed_ms > BLINK_INTERVAL_MS {
                !old(self).visible
            } else {
                old(self).visible
            }),
    {
        if elapsed_ms > BLINK_INTERVAL_MS {
            self.visible = !self.visible;
            true
        } else {
            false
        }
    }
}

} // verus!
