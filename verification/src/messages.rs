//! The texts in which a failed operation is reported to its caller.
//!
//! Every failure reaches the caller as plain text. A failure that the
//! updater described is reported under a heading that says which step
//! failed, followed by the updater's own description.

use crate::text::{contains_text, occurs_in};
use vstd::prelude::*;

verus! {

/// The words by which the updater says that the server holds no release
/// manifest.
pub open spec fn manifest_marker() -> Seq<char> {
    "Could not fetch a valid release JSON"@
}

/// Whether `why` describes a missing release manifest.
pub open spec fn manifest_missing(why: Seq<char>) -> bool {
    occurs_in(manifest_marker(), why)
}

/// The report of an update operation invoked where updates are unsupported.
pub open spec fn unsupported_text() -> Seq<char> {
    "移动平台不支持自动更新"@
}

/// The report of an updater that could not be set up.
pub open spec fn updater_unavailable_text(why: Seq<char>) -> Seq<char> {
    "更新器初始化失败: "@ + why
}

/// The report of a check against a server that has no release manifest yet:
/// no release channel is set up, which is nothing to alarm a user with.
pub open spec fn no_release_channel_text() -> Seq<char> {
    "no update currently available"@
}

/// The report of a check that failed: the quiet text where the manifest is
/// missing, else the heading and the description.
pub open spec fn check_failed_text(why: Seq<char>) -> Seq<char> {
    if manifest_missing(why) {
        no_release_channel_text()
    } else {
        "检查更新失败: "@ + why
    }
}

/// The report of an installation that found nothing to install.
pub open spec fn nothing_to_install_text() -> Seq<char> {
    "no update available"@
}

/// The report of an installation whose own check failed.
pub open spec fn install_check_failed_text(why: Seq<char>) -> Seq<char> {
    "下载失败: "@ + why
}

/// The report of a download or installation that failed.
pub open spec fn install_failed_text(why: Seq<char>) -> Seq<char> {
    "更新安装失败: "@ + why
}

/// Whether the failure that `why` describes is a missing release manifest.
pub fn is_manifest_missing(why: &str) -> (r: bool)
    ensures
        r == manifest_missing(why@),
{
    contains_text(why, "Could not fetch a valid release JSON")
}

/// The text of [`unsupported_text`].
pub fn unsupported_message() -> (message: String)
    ensures
        message@ == unsupported_text(),
{
    String::from_str("移动平台不支持自动更新")
}

/// The text of [`updater_unavailable_text`] for the description `why`.
pub fn updater_unavailable_message(why: &str) -> (message: String)
    ensures
        message@ == updater_unavailable_text(why@),
{
    String::from_str("更新器初始化失败: ").concat(why)
}

/// The text of [`check_failed_text`] for the description `why`.
pub fn check_failed_message(why: &str) -> (message: String)
    ensures
        message@ == check_failed_text(why@),
{
    if is_manifest_missing(why) {
        String::from_str("no update currently available")
    } else {
        String::from_str("检查更新失败: ").concat(why)
    }
}

/// The text of [`nothing_to_install_text`].
pub fn nothing_to_install_message() -> (message: String)
    ensures
        message@ == nothing_to_install_text(),
{
    String::from_str("no update available")
}

/// The text of [`install_check_failed_text`] for the description `why`.
pub fn install_check_failed_message(why: &str) -> (message: String)
    ensures
        message@ == install_check_failed_text(why@),
{
    String::from_str("下载失败: ").concat(why)
}

/// The text of [`install_failed_text`] for the description `why`.
pub fn install_failed_message(why: &str) -> (message: String)
    ensures
        message@ == install_failed_text(why@),
{
    String::from_str("更新安装失败: ").concat(why)
}

/// The quiet text for a missing manifest is none of the texts that report a
/// failure under a heading, whatever the description after the heading: a
/// failed check is reported by the quiet text exactly where the manifest is
/// missing.
pub proof fn quiet_text_is_distinct(why: Seq<char>)
    ensures
        check_failed_text(why) == no_release_channel_text() <==> manifest_missing(why),
        no_release_channel_text() != updater_unavailable_text(why),
        no_release_channel_text() != install_check_failed_text(why),
        no_release_channel_text() != install_failed_text(why),
        no_release_channel_text() != unsupported_text(),
{
    reveal_strlit("no update currently available");
    reveal_strlit("检查更新失败: ");
    reveal_strlit("更新器初始化失败: ");
    reveal_strlit("下载失败: ");
    reveal_strlit("更新安装失败: ");
    reveal_strlit("移动平台不支持自动更新");
    assert(no_release_channel_text()[0] == 'n');
    assert(("检查更新失败: "@ + why)[0] == '检');
    assert(updater_unavailable_text(why)[0] == '更');
    assert(install_check_failed_text(why)[0] == '下');
    assert(install_failed_text(why)[0] == '更');
    assert(unsupported_text()[0] == '移');
}

} // verus!
