//! What a check for updates found, and what the caller is told of it.

use vstd::prelude::*;

verus! {

/// The characters of a text that may be absent.
pub open spec fn text_of(text: Option<String>) -> Option<Seq<char>> {
    match text {
        Some(t) => Some(t@),
        None => None,
    }
}

/// A newer release as the update server announced it.
#[derive(Debug, PartialEq, Eq)]
pub struct RemoteRelease {
    /// The version announced.
    pub version: String,
    /// The day of publication in its canonical written form, where the
    /// server gave one.
    pub date: Option<String>,
    /// The release notes, where the server gave any.
    pub notes: Option<String>,
}

/// A [`RemoteRelease`] as plain sequences of characters.
pub struct RemoteReleaseView {
    pub version: Seq<char>,
    pub date: Option<Seq<char>>,
    pub notes: Option<Seq<char>>,
}

impl View for RemoteRelease {
    type V = RemoteReleaseView;

    open spec fn view(&self) -> RemoteReleaseView {
        RemoteReleaseView {
            version: self.version@,
            date: text_of(self.date),
            notes: text_of(self.notes),
        }
    }
}

/// What a successful check tells its caller: the release that the server
/// reported just now, beside the version that the running binary states of
/// itself.
#[derive(Debug, PartialEq, Eq)]
pub struct UpdateInfo {
    /// The version of the newer release.
    pub version: String,
    /// When it was published, where known.
    pub release_date: Option<String>,
    /// Its release notes, where there are any.
    pub release_notes: Option<String>,
    /// The version of the running binary.
    pub current_version: String,
}

/// An [`UpdateInfo`] as plain sequences of characters.
pub struct UpdateInfoView {
    pub version: Seq<char>,
    pub release_date: Option<Seq<char>>,
    pub release_notes: Option<Seq<char>>,
    pub current_version: Seq<char>,
}

impl View for UpdateInfo {
    type V = UpdateInfoView;

    open spec fn view(&self) -> UpdateInfoView {
        UpdateInfoView {
            version: self.version@,
            release_date: text_of(self.release_date),
            release_notes: text_of(self.release_notes),
            current_version: self.current_version@,
        }
    }
}

impl UpdateInfoView {
    /// The report on `release` for a binary of version `current_version`:
    /// version, date and notes are the release's, the current version is
    /// the binary's.
    pub open spec fn of(release: RemoteReleaseView, current_version: Seq<char>) -> UpdateInfoView {
        UpdateInfoView {
            version: release.version,
            release_date: release.date,
            release_notes: release.notes,
            current_version,
        }
    }
}

impl UpdateInfo {
    /// Reports `release` to a binary of version `current_version`.
    ///
    /// The current version of the result is always the one given here,
    /// whatever the release says.
    pub fn from_release(release: RemoteRelease, current_version: String) -> (info: UpdateInfo)
        ensures
            info@ == UpdateInfoView::of(release@, current_version@),
            info.current_version@ == current_version@,
    {
        UpdateInfo {
            version: release.version,
            release_date: release.date,
            release_notes: release.notes,
            current_version,
        }
    }
}

} // verus!
