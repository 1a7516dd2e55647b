use shell_bootstrap::setup::{next_action, Action, Event, StartupFailure};
use shell_bootstrap::target::{BuildProfile, BuildTarget, TargetOs};
use shell_bootstrap::window::WindowSize;

/// A stand-in for the running shell: one optional window under the label
/// "main", and a window system that takes or refuses a new size.
struct FakeShell {
    main_window: Option<WindowSize>,
    accepts_resize: bool,
    lookups: Vec<String>,
    resizes: Vec<WindowSize>,
}

impl FakeShell {
    fn new(main_window: Option<WindowSize>, accepts_resize: bool) -> FakeShell {
        FakeShell { main_window, accepts_resize, lookups: Vec::new(), resizes: Vec::new() }
    }

    fn find(&mut self, label: &str) -> bool {
        self.lookups.push(label.to_string());
        label == "main" && self.main_window.is_some()
    }

    fn resize(&mut self, size: WindowSize) -> bool {
        self.resizes.push(size);
        if self.main_window.is_some() && self.accepts_resize {
            self.main_window = Some(size);
            true
        } else {
            false
        }
    }
}

/// Passes through the setup hook as the program does, and returns the action
/// at which the pass stopped.
fn pass_through_hook(target: BuildTarget, shell: &mut FakeShell) -> Action {
    let mut event = Event::HookEntered;
    for _ in 0..3 {
        let action = next_action(target, event);
        event = match action {
            Action::FindWindow { label } => Event::WindowLookedUp { found: shell.find(label) },
            Action::Resize { size } => Event::WindowResized { applied: shell.resize(size) },
            Action::EnterLoop | Action::Exit | Action::Abort { .. } => return action,
        };
    }
    panic!("the hook made more than two outside calls");
}

const DEFAULT_SIZE: WindowSize = WindowSize { width: 800, height: 600 };

const DESKTOPS: [TargetOs; 3] = [TargetOs::Windows, TargetOs::MacOs, TargetOs::Linux];

const ALL_OS: [TargetOs; 6] = [
    TargetOs::Windows,
    TargetOs::MacOs,
    TargetOs::Linux,
    TargetOs::Android,
    TargetOs::Ios,
    TargetOs::Other,
];

#[test]
fn dev_desktop_pass_leaves_window_at_300_by_500() {
    for os in DESKTOPS {
        let target = BuildTarget { profile: BuildProfile::Debug, os };
        let mut shell = FakeShell::new(Some(DEFAULT_SIZE), true);
        assert_eq!(pass_through_hook(target, &mut shell), Action::EnterLoop);
        assert_eq!(shell.main_window, Some(WindowSize { width: 300, height: 500 }));
        assert_eq!(shell.lookups, vec!["main".to_string()]);
        assert_eq!(shell.resizes, vec![WindowSize { width: 300, height: 500 }]);
    }
}

#[test]
fn release_pass_keeps_the_default_size() {
    for os in ALL_OS {
        let target = BuildTarget { profile: BuildProfile::Release, os };
        let mut shell = FakeShell::new(Some(DEFAULT_SIZE), true);
        assert_eq!(pass_through_hook(target, &mut shell), Action::EnterLoop);
        assert_eq!(shell.main_window, Some(DEFAULT_SIZE));
        assert!(shell.lookups.is_empty());
        assert!(shell.resizes.is_empty());
    }
}

#[test]
fn release_pass_completes_without_a_main_window() {
    let target = BuildTarget { profile: BuildProfile::Release, os: TargetOs::Linux };
    let mut shell = FakeShell::new(None, true);
    assert_eq!(pass_through_hook(target, &mut shell), Action::EnterLoop);
    assert!(shell.lookups.is_empty());
}

#[test]
fn mobile_pass_keeps_the_default_size_in_both_profiles() {
    for os in [TargetOs::Android, TargetOs::Ios] {
        for profile in [BuildProfile::Debug, BuildProfile::Release] {
            let target = BuildTarget { profile, os };
            let mut shell = FakeShell::new(Some(DEFAULT_SIZE), true);
            assert_eq!(pass_through_hook(target, &mut shell), Action::EnterLoop);
            assert_eq!(shell.main_window, Some(DEFAULT_SIZE));
            assert!(shell.lookups.is_empty());
            assert!(shell.resizes.is_empty());
        }
    }
}

#[test]
fn dev_desktop_pass_aborts_without_a_main_window() {
    for os in DESKTOPS {
        let target = BuildTarget { profile: BuildProfile::Debug, os };
        let mut shell = FakeShell::new(None, true);
        assert_eq!(
            pass_through_hook(target, &mut shell),
            Action::Abort { failure: StartupFailure::WindowMissing }
        );
        assert_eq!(shell.main_window, None);
        assert_eq!(shell.lookups, vec!["main".to_string()]);
        assert!(shell.resizes.is_empty());
    }
}

#[test]
fn dev_desktop_pass_aborts_when_the_resize_is_refused() {
    for os in DESKTOPS {
        let target = BuildTarget { profile: BuildProfile::Debug, os };
        let mut shell = FakeShell::new(Some(DEFAULT_SIZE), false);
        assert_eq!(
            pass_through_hook(target, &mut shell),
            Action::Abort { failure: StartupFailure::ResizeFailed }
        );
        assert_eq!(shell.main_window, Some(DEFAULT_SIZE));
        assert_eq!(shell.resizes, vec![WindowSize { width: 300, height: 500 }]);
    }
}

#[test]
fn every_pass_stops_within_two_outside_calls() {
    for os in ALL_OS {
        for profile in [BuildProfile::Debug, BuildProfile::Release] {
            for window in [None, Some(DEFAULT_SIZE)] {
                for accepts_resize in [false, true] {
                    let target = BuildTarget { profile, os };
                    let mut shell = FakeShell::new(window, accepts_resize);
                    let last = pass_through_hook(target, &mut shell);
                    assert!(last.ends_setup());
                    assert_ne!(last, Action::Exit);
                    assert!(shell.lookups.len() + shell.resizes.len() <= 2);
                }
            }
        }
    }
}
