//! The build a shell was compiled as: its profile and its operating system.

use vstd::prelude::*;

verus! {

/// Whether the build carries debug assertions.
#[derive(Clone, Copy, Debug, PartialEq, Eq, Structural)]
pub enum BuildProfile {
    /// A development build.
    Debug,
    /// An optimised build for distribution.
    Release,
}

/// The operating system a build targets.
#[derive(Clone, Copy, Debug, PartialEq, Eq, Structural)]
pub enum TargetOs {
    Windows,
    MacOs,
    Linux,
    Android,
    Ios,
    /// Any other system, such as a BSD.
    Other,
}

impl TargetOs {
    /// The systems on which the development window adjustment applies.
    pub open spec fn spec_is_desktop(self) -> bool {
        self is Windows || self is MacOs || self is Linux
    }

    /// The systems that start the shell through the mobile entry point.
    pub open spec fn spec_is_mobile(self) -> bool {
        self is Android || self is Ios
    }

    #[verifier::when_used_as_spec(spec_is_desktop)]
    pub fn is_desktop(self) -> (desktop: bool)
        ensures
            desktop == self.spec_is_desktop(),
    {
        match self {
            TargetOs::Windows | TargetOs::MacOs | TargetOs::Linux => true,
            TargetOs::Android | TargetOs::Ios | TargetOs::Other => false,
        }
    }

    #[verifier::when_used_as_spec(spec_is_mobile)]
    pub fn is_mobile(self) -> (mobile: bool)
        ensures
            mobile == self.spec_is_mobile(),
    {
        match self {
            TargetOs::Android | TargetOs::Ios => true,
            TargetOs::Windows | TargetOs::MacOs | TargetOs::Linux | TargetOs::Other => false,
        }
    }
}

/// A build configuration: profile and operating system together.
#[derive(Clone, Copy, Debug, PartialEq, Eq, Structural)]
pub struct BuildTarget {
    pub profile: BuildProfile,
    pub os: TargetOs,
}

impl BuildTarget {
    /// The setup hook touches the main window only in a development build for
    /// a desktop system.
    pub open spec fn spec_adjusts_main_window(self) -> bool {
        self.profile is Debug && self.os.spec_is_desktop()
    }

    #[verifier::when_used_as_spec(spec_adjusts_main_window)]
    pub fn adjusts_main_window(self) -> (adjusts: bool)
        ensures
            adjusts == self.spec_adjusts_main_window(),
    {
        match self.profile {
            BuildProfile::Debug => self.os.is_desktop(),
            BuildProfile::Release => false,
        }
    }
}

} // verus!
