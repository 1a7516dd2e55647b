//! The decisions of the startup sequence.
//!
//! The program performs one outside call at a time and reports its outcome as
//! an [`Event`]; [`next_action`] answers with what to do next. The sequence is
//! linear, so the last outcome alone tells where it stands.

use vstd::prelude::*;
use crate::target::BuildTarget;
use crate::window::{WindowSize, dev_window_size, main_window_label, spec_dev_window_size};

verus! {

/// Why startup cannot go on. Each is fatal: nothing is retried.
#[derive(Clone, Copy, Debug, PartialEq, Eq, Structural)]
pub enum StartupFailure {
    /// The runtime knows no window under the main label.
    WindowMissing,
    /// The window system did not apply the new size.
    ResizeFailed,
    /// The runtime's event loop ended with an error.
    RunFailed,
}

/// What the program reports back after an outside call.
#[derive(Clone, Copy, Debug, PartialEq, Eq, Structural)]
pub enum Event {
    /// The runtime is up and has invoked the setup hook.
    HookEntered,
    /// The lookup of the main window returned.
    WindowLookedUp { found: bool },
    /// The request to resize the main window returned.
    WindowResized { applied: bool },
    /// The event loop returned.
    LoopReturned { ok: bool },
}

/// What the program is to do next.
#[derive(Clone, Copy, Debug, PartialEq, Eq)]
pub enum Action {
    /// Look up the window with this label.
    FindWindow { label: &'static str },
    /// Resize the window that was found.
    Resize { size: WindowSize },
    /// Leave the setup hook with success, so that the event loop starts.
    EnterLoop,
    /// Return from the bootstrap.
    Exit,
    /// Terminate the process.
    Abort { failure: StartupFailure },
}

/// An [`Action`] with its label as a sequence of characters.
pub enum ActionView {
    FindWindow { label: Seq<char> },
    Resize { size: WindowSize },
    EnterLoop,
    Exit,
    Abort { failure: StartupFailure },
}

impl View for Action {
    type V = ActionView;

    open spec fn view(&self) -> ActionView {
        match *self {
            Action::FindWindow { label } => ActionView::FindWindow { label: label@ },
            Action::Resize { size } => ActionView::Resize { size },
            Action::EnterLoop => ActionView::EnterLoop,
            Action::Exit => ActionView::Exit,
            Action::Abort { failure } => ActionView::Abort { failure },
        }
    }
}

impl ActionView {
    /// An action after which the setup hook asks for no further decision:
    /// the hook has returned, or the process ends.
    pub open spec fn ends_setup(self) -> bool {
        self is EnterLoop || self is Exit || self is Abort
    }
}

impl Action {
    /// [`ActionView::ends_setup`] of this action's view.
    pub open spec fn spec_ends_setup(self) -> bool {
        self@.ends_setup()
    }

    /// Whether the setup hook asks for no further decision after this action.
    #[verifier::when_used_as_spec(spec_ends_setup)]
    pub fn ends_setup(self) -> (ends: bool)
        ensures
            ends == self@.ends_setup(),
    {
        match self {
            Action::FindWindow { .. } | Action::Resize { .. } => false,
            Action::EnterLoop | Action::Exit | Action::Abort { .. } => true,
        }
    }
}

impl StartupFailure {
    /// The text of the diagnostic for each failure.
    pub open spec fn spec_diagnostic(self) -> Seq<char> {
        match self {
            StartupFailure::WindowMissing => "main window not found"@,
            StartupFailure::ResizeFailed => "failed to resize the main window"@,
            StartupFailure::RunFailed => "error while running tauri application"@,
        }
    }

    /// The message with which the process terminates on this failure.
    pub fn diagnostic(self) -> (message: &'static str)
        ensures
            message@ == self.spec_diagnostic(),
    {
        match self {
            StartupFailure::WindowMissing => "main window not found",
            StartupFailure::ResizeFailed => "failed to resize the main window",
            StartupFailure::RunFailed => "error while running tauri application",
        }
    }
}

/// The action that answers `event` in a build for `target`.
///
/// A build that adjusts the main window looks it up on entry and resizes it
/// once found; any other build lets the event loop start at once. A failed
/// outside call is answered with an abort in every build.
pub open spec fn action_for(target: BuildTarget, event: Event) -> ActionView {
    match event {
        Event::HookEntered => if target.spec_adjusts_main_window() {
            ActionView::FindWindow { label: main_window_label() }
        } else {
            ActionView::EnterLoop
        },
        Event::WindowLookedUp { found } => if !found {
            ActionView::Abort { failure: StartupFailure::WindowMissing }
        } else if target.spec_adjusts_main_window() {
            ActionView::Resize { size: spec_dev_window_size() }
        } else {
            ActionView::EnterLoop
        },
        Event::WindowResized { applied } => if applied {
            ActionView::EnterLoop
        } else {
            ActionView::Abort { failure: StartupFailure::ResizeFailed }
        },
        Event::LoopReturned { ok } => if ok {
            ActionView::Exit
        } else {
            ActionView::Abort { failure: StartupFailure::RunFailed }
        },
    }
}

/// Decides what follows `event` in a build for `target`.
pub fn next_action(target: BuildTarget, event: Event) -> (action: Action)
    ensures
        action@ == action_for(target, event),
{
    match event {
        Event::HookEntered => {
            if target.adjusts_main_window() {
                Action::FindWindow { label: "main" }
            } else {
                Action::EnterLoop
            }
        },
        Event::WindowLookedUp { found } => {
            if !found {
                Action::Abort { failure: StartupFailure::WindowMissing }
            } else if target.adjusts_main_window() {
                Action::Resize { size: dev_window_size() }
            } else {
                Action::EnterLoop
            }
        },
        Event::WindowResized { applied } => {
            if applied {
                Action::EnterLoop
            } else {
                Action::Abort { failure: StartupFailure::ResizeFailed }
            }
        },
        Event::LoopReturned { ok } => {
            if ok {
                Action::Exit
            } else {
                Action::Abort { failure: StartupFailure::RunFailed }
            }
        },
    }
}

} // verus!
