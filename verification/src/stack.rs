//! The windows of a workspace, as the layouts see them.

use vstd::prelude::*;

verus! {

/// The identifier of a window.
pub type Window = u64;

/// A snapshot of a workspace: its visible windows in their order, which
/// pairs them with the rectangles of a layout, and the window that has the
/// focus. Where no window has the focus, `focused_window` is an identifier
/// that no visible window has.
pub struct Stack {
    pub visible: Vec<Window>,
    pub focused_window: Window,
}

impl Stack {
    /// A snapshot of the given windows.
    pub fn new(visible: Vec<Window>, focused_window: Window) -> (s: Stack)
        ensures
            s.visible == visible,
            s.focused_window == focused_window,
    {
        Stack { visible, focused_window }
    }
}

} // verus!
