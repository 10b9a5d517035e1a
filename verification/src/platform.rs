//! The systems the shell runs on, and what each of them allows.

use vstd::prelude::*;

verus! {

/// An operating system that the shell runs on.
#[derive(Clone, Copy, Debug, PartialEq, Eq, Structural)]
pub enum Platform {
    Windows,
    MacOs,
    Linux,
    Android,
    Ios,
}

/// How the running binary was built.
#[derive(Clone, Copy, Debug, PartialEq, Eq, Structural)]
pub enum BuildMode {
    Debug,
    Release,
}

/// What the running binary may do, resolved once at startup and consulted by
/// the update operations and by the startup plan alike.
#[derive(Clone, Copy, Debug, PartialEq, Eq, Structural)]
pub struct Capabilities {
    /// Whether the update operations may reach the updater at all.
    pub updates_supported: bool,
    /// Whether a check for updates is scheduled at startup.
    pub startup_check: bool,
}

impl Platform {
    /// The mobile set: the systems on which the application is updated by
    /// its store and never by itself.
    pub open spec fn mobile(self) -> bool {
        self is Android || self is Ios
    }

    /// Whether this platform is in the mobile set.
    #[verifier::when_used_as_spec(mobile)]
    pub fn is_mobile(self) -> (r: bool)
        ensures
            r == self.mobile(),
    {
        match self {
            Platform::Android | Platform::Ios => true,
            Platform::Windows | Platform::MacOs | Platform::Linux => false,
        }
    }
}

impl Capabilities {
    /// The capabilities of a binary built in `build` mode for `platform`:
    /// updates everywhere but on mobile, and the startup check only where
    /// updates are supported and the build is a release.
    pub open spec fn of(platform: Platform, build: BuildMode) -> Capabilities {
        Capabilities {
            updates_supported: !platform.mobile(),
            startup_check: !platform.mobile() && build is Release,
        }
    }

    /// Resolves the capabilities of the running binary.
    pub fn resolve(platform: Platform, build: BuildMode) -> (c: Capabilities)
        ensures
            c == Capabilities::of(platform, build),
    {
        let desktop = !platform.is_mobile();
        let release = match build {
            BuildMode::Release => true,
            BuildMode::Debug => false,
        };
        Capabilities { updates_supported: desktop, startup_check: desktop && release }
    }
}

/// The startup check is never scheduled where updates are unsupported.
pub proof fn startup_check_needs_updates(platform: Platform, build: BuildMode)
    ensures
        Capabilities::of(platform, build).startup_check ==> Capabilities::of(
            platform,
            build,
        ).updates_supported,
{
}

} // verus!
