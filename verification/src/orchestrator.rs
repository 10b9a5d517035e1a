//! The two update operations, each as a machine that is driven from outside.
//!
//! An operation is a sequence of turns. A turn takes the phase the operation
//! is in and the event that just happened, and gives the phase it moves to
//! and what is to be done next: ask the updater something, or return to the
//! caller. The program around the library does what is asked and comes back
//! with the outcome as the next event. Nothing is kept between operations:
//! each starts in [`Phase::Idle`].
//!
//! ```text
//! Idle -> Checking -> NoUpdate
//!                  -> CheckFailed
//!                  -> UpdateFound -> Downloading -> Installed
//!                                                -> InstallFailed
//! ```
//!
//! A check ends in `UpdateFound`; an installation passes through it and
//! goes on to `Downloading` in the same turn. An installation always runs
//! its own check first and never reuses what an earlier check found, so
//! that it installs what the server offers at that moment.

use crate::messages::{
    check_failed_message, check_failed_text, install_check_failed_message,
    install_check_failed_text, install_failed_message, install_failed_text, manifest_missing,
    no_release_channel_text, nothing_to_install_message, nothing_to_install_text,
    quiet_text_is_distinct, unsupported_message, unsupported_text, updater_unavailable_message,
    updater_unavailable_text,
};
use crate::platform::{BuildMode, Capabilities, Platform};
use crate::release::{RemoteRelease, RemoteReleaseView, UpdateInfo, UpdateInfoView};
use vstd::prelude::*;

verus! {

/// Where an operation stands.
#[derive(Clone, Copy, Debug, PartialEq, Eq, Structural)]
pub enum Phase {
    /// Not begun.
    Idle,
    /// The updater has been asked whether a newer release exists.
    Checking,
    /// The updater found nothing newer.
    NoUpdate,
    /// The updater found a newer release.
    UpdateFound,
    /// The updater could not be set up, or its check failed.
    CheckFailed,
    /// The updater has been asked to download and install the release.
    Downloading,
    /// The release is installed.
    Installed,
    /// The download or the installation failed.
    InstallFailed,
}

/// What happened since the last turn.
#[derive(Debug, PartialEq, Eq)]
pub enum Event {
    /// The operation was invoked.
    Invoked,
    /// The updater could not be set up; the text says why.
    UpdaterUnavailable(String),
    /// The updater's check failed; the text says why.
    CheckFailed(String),
    /// The updater's check found nothing newer.
    UpToDate,
    /// The updater's check found this release.
    ReleaseAvailable(RemoteRelease),
    /// The updater downloaded and installed the release.
    InstallFinished,
    /// The download or the installation failed; the text says why.
    InstallFailed(String),
}

/// An [`Event`] as plain sequences of characters.
pub enum EventView {
    Invoked,
    UpdaterUnavailable(Seq<char>),
    CheckFailed(Seq<char>),
    UpToDate,
    ReleaseAvailable(RemoteReleaseView),
    InstallFinished,
    InstallFailed(Seq<char>),
}

impl View for Event {
    type V = EventView;

    open spec fn view(&self) -> EventView {
        match *self {
            Event::Invoked => EventView::Invoked,
            Event::UpdaterUnavailable(why) => EventView::UpdaterUnavailable(why@),
            Event::CheckFailed(why) => EventView::CheckFailed(why@),
            Event::UpToDate => EventView::UpToDate,
            Event::ReleaseAvailable(release) => EventView::ReleaseAvailable(release@),
            Event::InstallFinished => EventView::InstallFinished,
            Event::InstallFailed(why) => EventView::InstallFailed(why@),
        }
    }
}

/// What a check returns to its caller: the newer release, or that there is
/// none, or the text of a failure.
pub type CheckOutcome = Result<Option<UpdateInfo>, String>;

/// A [`CheckOutcome`] as plain sequences of characters.
pub type CheckOutcomeView = Result<Option<UpdateInfoView>, Seq<char>>;

/// What an installation returns to its caller: that the release is
/// installed, or the text of a failure.
pub type InstallOutcome = Result<(), String>;

/// An [`InstallOutcome`] as plain sequences of characters.
pub type InstallOutcomeView = Result<(), Seq<char>>;

/// The characters of a check's outcome.
pub open spec fn check_outcome_view(outcome: CheckOutcome) -> CheckOutcomeView {
    match outcome {
        Ok(Some(info)) => Ok(Some(info@)),
        Ok(None) => Ok(None),
        Err(message) => Err(message@),
    }
}

/// The characters of an installation's outcome.
pub open spec fn install_outcome_view(outcome: InstallOutcome) -> InstallOutcomeView {
    match outcome {
        Ok(()) => Ok(()),
        Err(message) => Err(message@),
    }
}

/// What a check asks for at the end of a turn.
#[derive(Debug, PartialEq, Eq)]
pub enum CheckAction {
    /// Ask the updater whether a newer release exists.
    QueryUpdater,
    /// Return this to the caller; the operation is over.
    Return(CheckOutcome),
}

/// A [`CheckAction`] as plain sequences of characters.
pub enum CheckActionView {
    QueryUpdater,
    Return(CheckOutcomeView),
}

impl View for CheckAction {
    type V = CheckActionView;

    open spec fn view(&self) -> CheckActionView {
        match *self {
            CheckAction::QueryUpdater => CheckActionView::QueryUpdater,
            CheckAction::Return(outcome) => CheckActionView::Return(check_outcome_view(outcome)),
        }
    }
}

/// What an installation asks for at the end of a turn.
#[derive(Debug, PartialEq, Eq)]
pub enum InstallAction {
    /// Ask the updater whether a newer release exists.
    QueryUpdater,
    /// Ask the updater to download and install the release it just found.
    DownloadAndInstall,
    /// Return this to the caller; the operation is over.
    Return(InstallOutcome),
}

/// An [`InstallAction`] as plain sequences of characters.
pub enum InstallActionView {
    QueryUpdater,
    DownloadAndInstall,
    Return(InstallOutcomeView),
}

impl View for InstallAction {
    type V = InstallActionView;

    open spec fn view(&self) -> InstallActionView {
        match *self {
            InstallAction::QueryUpdater => InstallActionView::QueryUpdater,
            InstallAction::DownloadAndInstall => InstallActionView::DownloadAndInstall,
            InstallAction::Return(outcome) => InstallActionView::Return(
                install_outcome_view(outcome),
            ),
        }
    }
}

/// One turn of a check for a binary of version `current_version`.
///
/// Where updates are unsupported the invocation is answered at once with
/// the text that says so, and nothing else is accepted. Elsewhere the
/// invocation asks for the query, and the query's outcome ends the check:
/// nothing newer is `Ok(None)`, a release is reported beside the binary's
/// version, a failure is reported as text. An event that the phase does not
/// wait for is no turn.
pub open spec fn check_turn(
    supported: bool,
    current_version: Seq<char>,
    phase: Phase,
    event: EventView,
) -> Option<(Phase, CheckActionView)> {
    if !supported {
        match (phase, event) {
            (Phase::Idle, EventView::Invoked) => Some(
                (Phase::Idle, CheckActionView::Return(Err(unsupported_text()))),
            ),
            _ => None,
        }
    } else {
        match (phase, event) {
            (Phase::Idle, EventView::Invoked) => Some(
                (Phase::Checking, CheckActionView::QueryUpdater),
            ),
            (Phase::Checking, EventView::UpdaterUnavailable(why)) => Some(
                (Phase::CheckFailed, CheckActionView::Return(Err(updater_unavailable_text(why)))),
            ),
            (Phase::Checking, EventView::CheckFailed(why)) => Some(
                (Phase::CheckFailed, CheckActionView::Return(Err(check_failed_text(why)))),
            ),
            (Phase::Checking, EventView::UpToDate) => Some(
                (Phase::NoUpdate, CheckActionView::Return(Ok(None))),
            ),
            (Phase::Checking, EventView::ReleaseAvailable(release)) => Some(
                (
                    Phase::UpdateFound,
                    CheckActionView::Return(Ok(Some(UpdateInfoView::of(release, current_version)))),
                ),
            ),
            _ => None,
        }
    }
}

/// One turn of an installation.
///
/// Where updates are unsupported the invocation is answered at once with
/// the text that says so, and nothing else is accepted. Elsewhere the
/// invocation asks for a query of its own. A release found there is
/// downloaded and installed; nothing newer and every failure end the
/// installation with a text. An event that the phase does not wait for is
/// no turn.
pub open spec fn install_turn(supported: bool, phase: Phase, event: EventView) -> Option<
    (Phase, InstallActionView),
> {
    if !supported {
        match (phase, event) {
            (Phase::Idle, EventView::Invoked) => Some(
                (Phase::Idle, InstallActionView::Return(Err(unsupported_text()))),
            ),
            _ => None,
        }
    } else {
        match (phase, event) {
            (Phase::Idle, EventView::Invoked) => Some(
                (Phase::Checking, InstallActionView::QueryUpdater),
            ),
            (Phase::Checking, EventView::UpdaterUnavailable(why)) => Some(
                (Phase::CheckFailed, InstallActionView::Return(Err(updater_unavailable_text(why)))),
            ),
            (Phase::Checking, EventView::CheckFailed(why)) => Some(
                (
                    Phase::CheckFailed,
                    InstallActionView::Return(Err(install_check_failed_text(why))),
                ),
            ),
            (Phase::Checking, EventView::UpToDate) => Some(
                (Phase::NoUpdate, InstallActionView::Return(Err(nothing_to_install_text()))),
            ),
            (Phase::Checking, EventView::ReleaseAvailable(_)) => Some(
                (Phase::Downloading, InstallActionView::DownloadAndInstall),
            ),
            (Phase::Downloading, EventView::InstallFinished) => Some(
                (Phase::Installed, InstallActionView::Return(Ok(()))),
            ),
            (Phase::Downloading, EventView::InstallFailed(why)) => Some(
                (Phase::InstallFailed, InstallActionView::Return(Err(install_failed_text(why)))),
            ),
            _ => None,
        }
    }
}

/// Takes one turn of a check for updates: see [`check_turn`].
///
/// `None` says that `phase` does not wait for `event`.
pub fn check_for_updates(
    capabilities: Capabilities,
    current_version: &str,
    phase: Phase,
    event: Event,
) -> (turn: Option<(Phase, CheckAction)>)
    ensures
        match turn {
            Some((next, action)) => check_turn(
                capabilities.updates_supported,
                current_version@,
                phase,
                event@,
            ) == Some((next, action@)),
            None => check_turn(capabilities.updates_supported, current_version@, phase, event@)
                is None,
        },
{
    if !capabilities.updates_supported {
        return match (phase, event) {
            (Phase::Idle, Event::Invoked) => Some(
                (Phase::Idle, CheckAction::Return(Err(unsupported_message()))),
            ),
            _ => None,
        };
    }
    match (phase, event) {
        (Phase::Idle, Event::Invoked) => Some((Phase::Checking, CheckAction::QueryUpdater)),
        (Phase::Checking, Event::UpdaterUnavailable(why)) => Some(
            (Phase::CheckFailed, CheckAction::Return(Err(updater_unavailable_message(why.as_str())))),
        ),
        (Phase::Checking, Event::CheckFailed(why)) => Some(
            (Phase::CheckFailed, CheckAction::Return(Err(check_failed_message(why.as_str())))),
        ),
        (Phase::Checking, Event::UpToDate) => Some((Phase::NoUpdate, CheckAction::Return(Ok(None)))),
        (Phase::Checking, Event::ReleaseAvailable(release)) => {
            let info = UpdateInfo::from_release(release, String::from_str(current_version));
            Some((Phase::UpdateFound, CheckAction::Return(Ok(Some(info)))))
        },
        _ => None,
    }
}

/// Takes one turn of the download and installation of an update: see
/// [`install_turn`].
///
/// `None` says that `phase` does not wait for `event`.
pub fn download_and_install_update(capabilities: Capabilities, phase: Phase, event: Event) -> (turn:
    Option<(Phase, InstallAction)>)
    ensures
        match turn {
            Some((next, action)) => install_turn(capabilities.updates_supported, phase, event@)
                == Some((next, action@)),
            None => install_turn(capabilities.updates_supported, phase, event@) is None,
        },
{
    if !capabilities.updates_supported {
        return match (phase, event) {
            (Phase::Idle, Event::Invoked) => Some(
                (Phase::Idle, InstallAction::Return(Err(unsupported_message()))),
            ),
            _ => None,
        };
    }
    match (phase, event) {
        (Phase::Idle, Event::Invoked) => Some((Phase::Checking, InstallAction::QueryUpdater)),
        (Phase::Checking, Event::UpdaterUnavailable(why)) => Some(
            (
                Phase::CheckFailed,
                InstallAction::Return(Err(updater_unavailable_message(why.as_str()))),
            ),
        ),
        (Phase::Checking, Event::CheckFailed(why)) => Some(
            (
                Phase::CheckFailed,
                InstallAction::Return(Err(install_check_failed_message(why.as_str()))),
            ),
        ),
        (Phase::Checking, Event::UpToDate) => Some(
            (Phase::NoUpdate, InstallAction::Return(Err(nothing_to_install_message()))),
        ),
        (Phase::Checking, Event::ReleaseAvailable(_)) => Some(
            (Phase::Downloading, InstallAction::DownloadAndInstall),
        ),
        (Phase::Downloading, Event::InstallFinished) => Some(
            (Phase::Installed, InstallAction::Return(Ok(()))),
        ),
        (Phase::Downloading, Event::InstallFailed(why)) => Some(
            (Phase::InstallFailed, InstallAction::Return(Err(install_failed_message(why.as_str())))),
        ),
        _ => None,
    }
}

impl EventView {
    /// Whether the event is an answer to the query.
    pub open spec fn answers_query(self) -> bool {
        self is UpdaterUnavailable || self is CheckFailed || self is UpToDate
            || self is ReleaseAvailable
    }

    /// Whether the event is the outcome of a download.
    pub open spec fn answers_download(self) -> bool {
        self is InstallFinished || self is InstallFailed
    }
}

impl Phase {
    /// Whether the operation waits for the updater in this phase.
    pub open spec fn waiting(self) -> bool {
        self is Checking || self is Downloading
    }

    /// Whether an arrow of the diagram leads from `self` to `next`.
    pub open spec fn leads_to(self, next: Phase) -> bool {
        match self {
            Phase::Idle => next is Checking,
            Phase::Checking => next is NoUpdate || next is UpdateFound || next is CheckFailed,
            Phase::UpdateFound => next is Downloading,
            Phase::Downloading => next is Installed || next is InstallFailed,
            _ => false,
        }
    }

    /// Whether the operation waits for the updater in this phase.
    #[verifier::when_used_as_spec(waiting)]
    pub fn is_waiting(self) -> (r: bool)
        ensures
            r == self.waiting(),
    {
        match self {
            Phase::Checking | Phase::Downloading => true,
            _ => false,
        }
    }
}

/// On every platform of the mobile set, in either build mode, both
/// operations answer their invocation at once with the text that says that
/// updates are unsupported, and no turn of either asks anything of the
/// updater, whatever the phase and the event.
pub proof fn mobile_platforms_never_reach_the_updater(
    platform: Platform,
    build: BuildMode,
    current_version: Seq<char>,
    phase: Phase,
    event: EventView,
)
    requires
        platform.mobile(),
    ensures
        check_turn(
            Capabilities::of(platform, build).updates_supported,
            current_version,
            Phase::Idle,
            EventView::Invoked,
        ) == Some((Phase::Idle, CheckActionView::Return(Err(unsupported_text())))),
        install_turn(
            Capabilities::of(platform, build).updates_supported,
            Phase::Idle,
            EventView::Invoked,
        ) == Some((Phase::Idle, InstallActionView::Return(Err(unsupported_text())))),
        check_turn(
            Capabilities::of(platform, build).updates_supported,
            current_version,
            phase,
            event,
        ) matches Some((_, action)) ==> action matches CheckActionView::Return(Err(_)),
        install_turn(Capabilities::of(platform, build).updates_supported, phase, event) matches Some(
            (_, action),
        ) ==> action matches InstallActionView::Return(Err(_)),
{
}

/// A check that hears that nothing newer exists returns `Ok(None)`; in no
/// phase does a check answer that event with an error.
pub proof fn nothing_newer_is_no_error(supported: bool, current_version: Seq<char>, phase: Phase)
    ensures
        check_turn(true, current_version, Phase::Checking, EventView::UpToDate) == Some(
            (Phase::NoUpdate, CheckActionView::Return(Ok(None))),
        ),
        check_turn(supported, current_version, phase, EventView::UpToDate) matches Some(
            (_, action),
        ) ==> action == CheckActionView::Return(Ok(None)),
{
}

/// A check that fails for want of a release manifest returns the quiet
/// text, and a check that fails for another reason never does.
pub proof fn missing_manifest_is_reported_quietly(current_version: Seq<char>, why: Seq<char>)
    ensures
        check_turn(true, current_version, Phase::Checking, EventView::CheckFailed(why)) == Some(
            (Phase::CheckFailed, CheckActionView::Return(Err(check_failed_text(why)))),
        ),
        manifest_missing(why) <==> check_failed_text(why) == no_release_channel_text(),
{
    quiet_text_is_distinct(why);
}

/// Whatever a check reports as found, the current version in the report is
/// the binary's own, not one that the release carries.
pub proof fn reported_current_version_is_the_binarys(
    supported: bool,
    current_version: Seq<char>,
    phase: Phase,
    event: EventView,
)
    ensures
        check_turn(supported, current_version, phase, event) matches Some(
            (_, CheckActionView::Return(Ok(Some(info)))),
        ) ==> info.current_version == current_version,
{
}

/// Where updates are supported, every turn of a check follows an arrow of
/// the diagram, and the check returns exactly when it no longer waits for
/// the updater.
pub proof fn check_follows_the_arrows(current_version: Seq<char>, phase: Phase, event: EventView)
    ensures
        check_turn(true, current_version, phase, event) matches Some((next, action)) ==> {
            &&& phase.leads_to(next)
            &&& !(next is Downloading)
            &&& action is Return <==> !next.waiting()
            &&& action is QueryUpdater <==> next is Checking
        },
{
}

/// Where updates are supported, every turn of an installation follows an
/// arrow of the diagram, or the two arrows through `UpdateFound` at once;
/// it returns exactly when it no longer waits for the updater, and it asks
/// for the download exactly when its own check has just found a release.
pub proof fn install_follows_the_arrows(phase: Phase, event: EventView)
    ensures
        install_turn(true, phase, event) matches Some((next, action)) ==> {
            &&& phase.leads_to(next) || (phase.leads_to(Phase::UpdateFound)
                && Phase::UpdateFound.leads_to(next))
            &&& action is Return <==> !next.waiting()
            &&& action is QueryUpdater <==> next is Checking
            &&& action is DownloadAndInstall <==> next is Downloading
            &&& action is DownloadAndInstall <==> phase is Checking && event is ReleaseAvailable
        },
{
}

/// A turn is taken exactly when the phase waits for the event: the
/// invocation in `Idle`, an answer to the query in `Checking`, the outcome
/// of the download in `Downloading`, which a check never enters. Where
/// updates are unsupported the invocation is all that is taken. Once an
/// operation has returned it takes no further turn.
pub proof fn turns_are_taken_in_order(current_version: Seq<char>, phase: Phase, event: EventView)
    ensures
        check_turn(true, current_version, phase, event) is Some <==> (phase is Idle
            && event is Invoked) || (phase is Checking && event.answers_query()),
        install_turn(true, phase, event) is Some <==> (phase is Idle && event is Invoked) || (
        phase is Checking && event.answers_query()) || (phase is Downloading
            && event.answers_download()),
        check_turn(false, current_version, phase, event) is Some <==> phase is Idle
            && event is Invoked,
        install_turn(false, phase, event) is Some <==> phase is Idle && event is Invoked,
{
}

/// The turn was taken and returns to the caller.
pub open spec fn check_returns(turn: Option<(Phase, CheckActionView)>) -> bool {
    turn matches Some((_, action)) && action is Return
}

/// The turn was taken and returns to the caller.
pub open spec fn install_returns(turn: Option<(Phase, InstallActionView)>) -> bool {
    turn matches Some((_, action)) && action is Return
}

/// Whatever the updater answers, a check returns on the turn after its one
/// query.
pub proof fn check_returns_after_one_query(current_version: Seq<char>, answer: EventView)
    requires
        answer.answers_query(),
    ensures
        check_turn(true, current_version, Phase::Idle, EventView::Invoked) == Some(
            (Phase::Checking, CheckActionView::QueryUpdater),
        ),
        check_returns(check_turn(true, current_version, Phase::Checking, answer)),
{
}

/// Whatever the updater answers, an installation returns after its one
/// query, or after the one download that follows it.
pub proof fn install_returns_after_one_download(answer: EventView, outcome: EventView)
    requires
        answer.answers_query(),
        outcome.answers_download(),
    ensures
        install_turn(true, Phase::Idle, EventView::Invoked) == Some(
            (Phase::Checking, InstallActionView::QueryUpdater),
        ),
        install_turn(true, Phase::Checking, answer) matches Some((next, action)) && if action
            is DownloadAndInstall {
            install_returns(install_turn(true, next, outcome))
        } else {
            action is Return
        },
{
}

} // verus!
