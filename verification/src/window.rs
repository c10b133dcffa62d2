//! The window the program opens: its fixed settings, and the part of its state
//! that the program's decisions read and write.

use vstd::prelude::*;

verus! {

/// The width of the window, in screen coordinates.
pub const SCREEN_WIDTH: u32 = 800;

/// The height of the window, in screen coordinates.
pub const SCREEN_HEIGHT: u32 = 600;

/// The title of the window.
pub const WINDOW_TITLE: &'static str = "LearnOpenGL";

/// The major version of the OpenGL context that the window asks for.
pub const CONTEXT_VERSION_MAJOR: u32 = 3;

/// The minor version of the OpenGL context that the window asks for.
pub const CONTEXT_VERSION_MINOR: u32 = 3;

/// The close flag of a window: whether the render loop has been asked to end.
///
/// The adapter copies the flag of the real window into a `Window` before it
/// hands events over, and copies it back afterwards.
#[derive(Debug)]
pub struct Window {
    close_flag: bool,
}

impl Window {
    /// Whether the close flag is set.
    pub closed spec fn closing(&self) -> bool {
        self.close_flag
    }

    /// A window whose close flag is not set.
    pub fn new() -> (window: Window)
        ensures
            !window.closing(),
    {
        Window { close_flag: false }
    }

    /// Reads the close flag.
    #[verifier::when_used_as_spec(closing)]
    pub fn should_close(&self) -> (flag: bool)
        ensures
            flag == self.closing(),
    {
        self.close_flag
    }

    /// Writes the close flag.
    pub fn set_should_close(&mut self, value: bool)
        ensures
            final(self).closing() == value,
    {
        self.close_flag = value;
    }
}

} // verus!
