//! Which parts of a window's state are remembered between launches.
//!
//! Size, position, maximised and fullscreen state are kept. Visibility is not:
//! restoring it would show the main window before its page has loaded. Nor are
//! decorations: a run that switched on the system title bar must not pass it
//! on to later launches. The splash window is never remembered.
use vstd::prelude::*;
use crate::launch::SPLASH_WINDOW;

verus! {

/// The parts of a window's state that are saved and restored.
#[derive(PartialEq, Eq, Structural, Clone, Copy, Debug)]
pub struct RememberedState {
    pub size: bool,
    pub position: bool,
    pub maximized: bool,
    pub visible: bool,
    pub decorations: bool,
    pub fullscreen: bool,
}

/// What the shell remembers of its windows, and which window it leaves out.
pub struct WindowStatePolicy {
    pub remembered: RememberedState,
    pub excluded_window: &'static str,
}

/// The state the shell remembers of its windows.
pub open spec fn remembered_state() -> RememberedState {
    RememberedState {
        size: true,
        position: true,
        maximized: true,
        visible: false,
        decorations: false,
        fullscreen: true,
    }
}

/// The shell's window-state policy.
pub fn window_state_policy() -> (policy: WindowStatePolicy)
    ensures
        policy.remembered == remembered_state(),
        policy.excluded_window@ == SPLASH_WINDOW@,
{
    WindowStatePolicy {
        remembered: RememberedState {
            size: true,
            position: true,
            maximized: true,
            visible: false,
            decorations: false,
            fullscreen: true,
        },
        excluded_window: SPLASH_WINDOW,
    }
}

} // verus!
