//! A model of the running shell, and of a whole pass through the setup hook.
//!
//! Nothing here is executable. The model says what the outside calls do to
//! the one thing the hook touches, the main window, so that the decisions can
//! be judged by where a complete run leaves it.

use vstd::prelude::*;
use crate::setup::{ActionView, Event, action_for};
use crate::target::BuildTarget;
use crate::window::{WindowSize, main_window_label};

verus! {

/// What the setup hook can see and change of the running shell.
pub struct Shell {
    /// Logical size of the main window, if the runtime has one.
    pub main_window: Option<WindowSize>,
    /// Whether the window system applies a size change when asked.
    pub accepts_resize: bool,
}

impl Shell {
    /// Whether a lookup under `label` finds a window.
    pub open spec fn has_window(self, label: Seq<char>) -> bool {
        label == main_window_label() && self.main_window is Some
    }

    /// Whether a request to resize the main window takes effect.
    pub open spec fn resizes(self) -> bool {
        self.main_window is Some && self.accepts_resize
    }

    /// The shell after a request to give the main window `size`.
    pub open spec fn after_resize(self, size: WindowSize) -> Shell {
        if self.resizes() {
            Shell { main_window: Some(size), accepts_resize: self.accepts_resize }
        } else {
            self
        }
    }
}

/// How a pass through the setup hook ended.
pub struct SetupRun {
    /// The shell as the pass left it.
    pub shell: Shell,
    /// The action at which the pass stopped.
    pub last: ActionView,
}

/// A pass that starts by reporting `event` and carries out at most `calls`
/// outside calls, each followed by the event that the shell answers with.
pub open spec fn run_from(target: BuildTarget, event: Event, shell: Shell, calls: nat) -> SetupRun
    decreases calls,
{
    let action = action_for(target, event);
    if calls == 0 {
        SetupRun { shell, last: action }
    } else {
        match action {
            ActionView::FindWindow { label } => run_from(
                target,
                Event::WindowLookedUp { found: shell.has_window(label) },
                shell,
                (calls - 1) as nat,
            ),
            ActionView::Resize { size } => run_from(
                target,
                Event::WindowResized { applied: shell.resizes() },
                shell.after_resize(size),
                (calls - 1) as nat,
            ),
            _ => SetupRun { shell, last: action },
        }
    }
}

/// The most outside calls that a pass through the setup hook makes: one
/// lookup and one resize.
pub open spec fn setup_call_limit() -> nat {
    2
}

/// A whole pass through the setup hook, from its entry.
pub open spec fn setup_run(target: BuildTarget, shell: Shell) -> SetupRun {
    run_from(target, Event::HookEntered, shell, setup_call_limit())
}

} // verus!
