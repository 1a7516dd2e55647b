//! The window that the setup hook adjusts, and the size it is given.

use vstd::prelude::*;

verus! {

/// A window size in whole logical units, which the window system scales by
/// the display's factor.
#[derive(Clone, Copy, Debug, PartialEq, Eq, Structural)]
pub struct WindowSize {
    pub width: u32,
    pub height: u32,
}

/// Width given to the main window in a development build.
pub const DEV_WINDOW_WIDTH: u32 = 300;

/// Height given to the main window in a development build.
pub const DEV_WINDOW_HEIGHT: u32 = 500;

/// The label under which the runtime knows the shell's primary window.
pub open spec fn main_window_label() -> Seq<char> {
    "main"@
}

/// The size given to the main window in a development build.
pub open spec fn spec_dev_window_size() -> WindowSize {
    WindowSize { width: DEV_WINDOW_WIDTH, height: DEV_WINDOW_HEIGHT }
}

#[verifier::when_used_as_spec(spec_dev_window_size)]
pub fn dev_window_size() -> (size: WindowSize)
    ensures
        size == spec_dev_window_size(),
        size.width == 300,
        size.height == 500,
{
    WindowSize { width: DEV_WINDOW_WIDTH, height: DEV_WINDOW_HEIGHT }
}

} // verus!
