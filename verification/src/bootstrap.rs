//! What the shell sets up when the process starts.
//!
//! Startup runs once: the plugins are registered, the main window is
//! looked up, its chrome is enabled, and on some binaries a check for
//! updates is scheduled. The plan says what to do; doing it is left to the
//! program around the library.

use crate::platform::{BuildMode, Capabilities, Platform};
use vstd::prelude::*;

verus! {

/// A capability plugin that the front end relies on.
#[derive(Clone, Copy, Debug, PartialEq, Eq, Structural)]
pub enum Plugin {
    /// File dialogs.
    Dialog,
    /// Access to the filesystem.
    Filesystem,
    /// Running shell commands.
    Shell,
    /// Opening files and addresses with the system's own programs.
    Opener,
    /// The updater.
    Updater,
}

/// The controls of a window's frame.
#[derive(Clone, Copy, Debug, PartialEq, Eq, Structural)]
pub struct WindowChrome {
    pub minimizable: bool,
    pub maximizable: bool,
    pub closable: bool,
    pub resizable: bool,
}

/// What to do at startup.
#[derive(Debug, PartialEq, Eq)]
pub struct StartupPlan {
    /// The plugins to register, in this order.
    pub plugins: Vec<Plugin>,
    /// The label of the main window.
    pub main_window: String,
    /// The chrome to give the main window.
    pub chrome: WindowChrome,
    /// After how many seconds to check for updates in the background, if at
    /// all.
    pub startup_check_delay_secs: Option<u64>,
}

/// A [`StartupPlan`] as plain sequences.
pub struct StartupPlanView {
    pub plugins: Seq<Plugin>,
    pub main_window: Seq<char>,
    pub chrome: WindowChrome,
    pub startup_check_delay_secs: Option<u64>,
}

impl View for StartupPlan {
    type V = StartupPlanView;

    open spec fn view(&self) -> StartupPlanView {
        StartupPlanView {
            plugins: self.plugins@,
            main_window: self.main_window@,
            chrome: self.chrome,
            startup_check_delay_secs: self.startup_check_delay_secs,
        }
    }
}

/// The plugins that every binary registers.
pub open spec fn common_plugins() -> Seq<Plugin> {
    seq![Plugin::Dialog, Plugin::Filesystem, Plugin::Shell, Plugin::Opener]
}

/// The chrome with every control enabled.
pub open spec fn full_chrome() -> WindowChrome {
    WindowChrome { minimizable: true, maximizable: true, closable: true, resizable: true }
}

/// The seconds that the startup check waits, so as not to compete with the
/// work of starting up.
pub open spec fn startup_check_delay() -> u64 {
    3
}

/// The plan of a binary with the given capabilities: the common plugins,
/// then the updater where updates are supported; the window labelled
/// `main`, with every control enabled; and the startup check, after its
/// delay, where the binary is to run one.
pub open spec fn plan_for(capabilities: Capabilities) -> StartupPlanView {
    StartupPlanView {
        plugins: if capabilities.updates_supported {
            common_plugins().push(Plugin::Updater)
        } else {
            common_plugins()
        },
        main_window: "main"@,
        chrome: full_chrome(),
        startup_check_delay_secs: if capabilities.startup_check {
            Some(startup_check_delay())
        } else {
            None
        },
    }
}

/// Plans the startup of a binary with the given capabilities.
pub fn startup_plan(capabilities: Capabilities) -> (plan: StartupPlan)
    ensures
        plan@ == plan_for(capabilities),
{
    let mut plugins: Vec<Plugin> = Vec::new();
    plugins.push(Plugin::Dialog);
    plugins.push(Plugin::Filesystem);
    plugins.push(Plugin::Shell);
    plugins.push(Plugin::Opener);
    assert(plugins@ =~= common_plugins());
    if capabilities.updates_supported {
        plugins.push(Plugin::Updater);
    }
    let delay: Option<u64> = if capabilities.startup_check {
        Some(3)
    } else {
        None
    };
    StartupPlan {
        plugins,
        main_window: String::from_str("main"),
        chrome: WindowChrome {
            minimizable: true,
            maximizable: true,
            closable: true,
            resizable: true,
        },
        startup_check_delay_secs: delay,
    }
}

/// Something that went wrong while the plan was carried out.
#[derive(Clone, Copy, Debug, PartialEq, Eq, Structural)]
pub enum StartupFault {
    /// No window carries the main window's label.
    MainWindowMissing,
    /// The window refused one of the chrome settings.
    ChromeRefused,
}

/// What to do about a [`StartupFault`].
#[derive(Clone, Copy, Debug, PartialEq, Eq, Structural)]
pub enum FaultResponse {
    /// Give up: the process ends with a diagnostic.
    Abort,
    /// Go on as if nothing had happened.
    Ignore,
}

/// Without its main window the shell cannot go on; a refused chrome setting
/// is passed over.
pub open spec fn response_to(fault: StartupFault) -> FaultResponse {
    match fault {
        StartupFault::MainWindowMissing => FaultResponse::Abort,
        StartupFault::ChromeRefused => FaultResponse::Ignore,
    }
}

/// Decides what to do about `fault`.
pub fn respond_to(fault: StartupFault) -> (response: FaultResponse)
    ensures
        response == response_to(fault),
{
    match fault {
        StartupFault::MainWindowMissing => FaultResponse::Abort,
        StartupFault::ChromeRefused => FaultResponse::Ignore,
    }
}

/// On every platform and in either build mode the plan enables all four
/// controls of the main window.
pub proof fn chrome_is_enabled_everywhere(platform: Platform, build: BuildMode)
    ensures
        plan_for(Capabilities::of(platform, build)).chrome.minimizable,
        plan_for(Capabilities::of(platform, build)).chrome.maximizable,
        plan_for(Capabilities::of(platform, build)).chrome.closable,
        plan_for(Capabilities::of(platform, build)).chrome.resizable,
{
}

/// The updater is registered on the desktop platforms and on no other, and
/// always after the four common plugins.
pub proof fn updater_is_registered_on_desktop_only(platform: Platform, build: BuildMode)
    ensures
        plan_for(Capabilities::of(platform, build)).plugins.contains(Plugin::Updater)
            <==> !platform.mobile(),
        plan_for(Capabilities::of(platform, build)).plugins.take(4) == common_plugins(),
{
    let plugins = plan_for(Capabilities::of(platform, build)).plugins;
    assert(plugins.take(4) =~= common_plugins());
    if platform.mobile() {
        assert forall|i: int| 0 <= i < plugins.len() implies plugins[i] != Plugin::Updater by {}
    } else {
        assert(plugins[4] == Plugin::Updater);
    }
}

/// The startup check is scheduled exactly on release builds for desktop
/// platforms, and then after three seconds.
pub proof fn startup_check_is_for_desktop_releases(platform: Platform, build: BuildMode)
    ensures
        plan_for(Capabilities::of(platform, build)).startup_check_delay_secs == if !platform.mobile()
            && build is Release {
            Some(3u64)
        } else {
            None
        },
{
}

} // verus!
