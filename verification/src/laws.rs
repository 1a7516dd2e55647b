//! What holds of every pass through the setup hook.

use vstd::prelude::*;
use crate::setup::{ActionView, Event, StartupFailure, action_for};
use crate::shell::{SetupRun, Shell, run_from, setup_run};
use crate::target::BuildTarget;
use crate::window::WindowSize;

verus! {

/// Every pass through the setup hook falls under one of four cases. A build
/// that does not adjust the window completes at once. One that does aborts
/// where the main window is missing, aborts where the window system refuses
/// the size, and otherwise completes with the window at the development size.
/// In all but the last case the shell is left as it was.
pub proof fn setup_run_cases(target: BuildTarget, shell: Shell)
    ensures
        !target.spec_adjusts_main_window() ==> setup_run(target, shell) == (SetupRun {
            shell,
            last: ActionView::EnterLoop,
        }),
        target.spec_adjusts_main_window() && shell.main_window is None ==> setup_run(target, shell)
            == (SetupRun {
            shell,
            last: ActionView::Abort { failure: StartupFailure::WindowMissing },
        }),
        target.spec_adjusts_main_window() && shell.main_window is Some && !shell.accepts_resize
            ==> setup_run(target, shell) == (SetupRun {
            shell,
            last: ActionView::Abort { failure: StartupFailure::ResizeFailed },
        }),
        target.spec_adjusts_main_window() && shell.main_window is Some && shell.accepts_resize
            ==> setup_run(target, shell) == (SetupRun {
            shell: Shell {
                main_window: Some(WindowSize { width: 300, height: 500 }),
                accepts_resize: true,
            },
            last: ActionView::EnterLoop,
        }),
{
    reveal_with_fuel(run_from, 3);
}

/// A pass through the setup hook needs no more than its two outside calls:
/// it stops at an action that ends the hook, and never at the event loop's
/// return.
pub proof fn setup_run_ends(target: BuildTarget, shell: Shell)
    ensures
        setup_run(target, shell).last.ends_setup(),
        !(setup_run(target, shell).last is Exit),
{
    setup_run_cases(target, shell);
}

/// In a development build for a desktop system the hook completes exactly
/// when the main window exists and takes the new size, and the window then
/// measures 300 by 500 logical units.
pub proof fn dev_desktop_run_resizes_main_window(target: BuildTarget, shell: Shell)
    requires
        target.profile is Debug,
        target.os.spec_is_desktop(),
    ensures
        setup_run(target, shell).last is EnterLoop <==> shell.main_window is Some
            && shell.accepts_resize,
        setup_run(target, shell).last is EnterLoop ==> setup_run(target, shell).shell.main_window
            == Some(WindowSize { width: 300, height: 500 }),
{
    setup_run_cases(target, shell);
}

/// In a release build no event is answered with a lookup or a resize, and
/// the hook completes with the shell, and so the window's size, as it was.
pub proof fn release_run_leaves_window(target: BuildTarget, shell: Shell, event: Event)
    requires
        target.profile is Release,
    ensures
        !(action_for(target, event) is FindWindow),
        !(action_for(target, event) is Resize),
        setup_run(target, shell) == (SetupRun { shell, last: ActionView::EnterLoop }),
{
    setup_run_cases(target, shell);
}

/// On a mobile system no event is answered with a lookup or a resize,
/// whatever the profile, and the hook completes with the shell as it was.
pub proof fn mobile_run_leaves_window(target: BuildTarget, shell: Shell, event: Event)
    requires
        target.os.spec_is_mobile(),
    ensures
        !(action_for(target, event) is FindWindow),
        !(action_for(target, event) is Resize),
        setup_run(target, shell) == (SetupRun { shell, last: ActionView::EnterLoop }),
{
    setup_run_cases(target, shell);
}

/// A lookup that finds no main window is answered with an abort in every
/// build. Where the build looks the window up and the shell has none, the
/// pass therefore ends in that abort, with no resize attempted.
pub proof fn missing_window_aborts(target: BuildTarget, shell: Shell)
    ensures
        action_for(target, Event::WindowLookedUp { found: false }) == (ActionView::Abort {
            failure: StartupFailure::WindowMissing,
        }),
        target.spec_adjusts_main_window() && shell.main_window is None ==> setup_run(target, shell)
            == (SetupRun {
            shell,
            last: ActionView::Abort { failure: StartupFailure::WindowMissing },
        }),
{
    setup_run_cases(target, shell);
}

/// An abort is decided only on a failed outside call, and names that call.
pub proof fn abort_names_failed_call(target: BuildTarget, event: Event, failure: StartupFailure)
    ensures
        action_for(target, event) == (ActionView::Abort { failure }) <==> match failure {
            StartupFailure::WindowMissing => event == (Event::WindowLookedUp { found: false }),
            StartupFailure::ResizeFailed => event == (Event::WindowResized { applied: false }),
            StartupFailure::RunFailed => event == (Event::LoopReturned { ok: false }),
        },
{
}

} // verus!
