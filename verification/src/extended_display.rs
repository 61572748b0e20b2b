//! The extended display interface. No extended display exists; the window
//! bounds are those of a fixed 1280 by 720 window.

use vstd::prelude::*;

verus! {

/// The position and size of a window.
#[derive(Clone, Copy, Debug, PartialEq, Eq)]
pub struct WindowBounds {
    pub x: i32,
    pub y: i32,
    pub width: u32,
    pub height: u32,
}

/// The extended display interface.
pub struct ExtendedDisplay {}

impl ExtendedDisplay {
    /// The interface in its only state.
    pub fn default() -> (r: ExtendedDisplay)
        ensures
            r.window_bounds() == (WindowBounds { x: 0, y: 0, width: 1280, height: 720 }),
    {
        ExtendedDisplay {  }
    }

    /// The bounds that every read reports.
    pub open spec fn window_bounds(&self) -> WindowBounds {
        WindowBounds { x: 0, y: 0, width: 1280, height: 720 }
    }

    /// Reads the window bounds.
    pub fn get_window_bounds(&self) -> (r: WindowBounds)
        ensures
            r == self.window_bounds(),
    {
        WindowBounds { x: 0, y: 0, width: 1280, height: 720 }
    }
}

} // verus!
