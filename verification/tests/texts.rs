use app_shell::messages::{
    check_failed_message, install_check_failed_message, install_failed_message,
    is_manifest_missing, nothing_to_install_message, unsupported_message,
    updater_unavailable_message,
};
use app_shell::release::{RemoteRelease, UpdateInfo};
use app_shell::text::contains_text;

#[test]
fn needle_is_found_wherever_it_stands() {
    assert!(contains_text("abcdef", "abc"));
    assert!(contains_text("abcdef", "cd"));
    assert!(contains_text("abcdef", "def"));
    assert!(contains_text("abcdef", "abcdef"));
    assert!(contains_text("abcdef", "f"));
}

#[test]
fn needle_that_is_absent_is_not_found() {
    assert!(!contains_text("abcdef", "abd"));
    assert!(!contains_text("abcdef", "abcdefg"));
    assert!(!contains_text("abcdef", "fa"));
    assert!(!contains_text("", "a"));
    assert!(!contains_text("abc", "ABC"));
}

#[test]
fn empty_needle_is_found_in_every_text() {
    assert!(contains_text("", ""));
    assert!(contains_text("abc", ""));
}

#[test]
fn search_resumes_after_a_partial_match() {
    assert!(contains_text("aaab", "aab"));
    assert!(contains_text("abababc", "ababc"));
    assert!(!contains_text("ababab", "ababc"));
}

#[test]
fn search_goes_by_characters() {
    assert!(contains_text("检查更新失败: 超时", "更新"));
    assert!(contains_text("检查更新失败: 超时", "超时"));
    assert!(!contains_text("检查更新失败: 超时", "更失"));
    assert!(contains_text("naïve café", "é"));
}

#[test]
fn search_agrees_with_the_standard_library() {
    let texts = ["", "a", "ab", "ba", "aab", "abab", "更新", "新更新", "a更b"];
    for text in texts {
        for needle in texts {
            assert_eq!(contains_text(text, needle), text.contains(needle));
        }
    }
}

#[test]
fn manifest_marker_is_recognised_anywhere_in_the_description() {
    assert!(is_manifest_missing("Could not fetch a valid release JSON from the remote"));
    assert!(is_manifest_missing("Could not fetch a valid release JSON"));
    assert!(is_manifest_missing("error: Could not fetch a valid release JSON (404)"));
    assert!(!is_manifest_missing("Could not fetch a valid release"));
    assert!(!is_manifest_missing("could not fetch a valid release json"));
    assert!(!is_manifest_missing(""));
}

#[test]
fn texts_of_the_failures() {
    assert_eq!(unsupported_message(), "移动平台不支持自动更新");
    assert_eq!(updater_unavailable_message("x"), "更新器初始化失败: x");
    assert_eq!(check_failed_message("x"), "检查更新失败: x");
    assert_eq!(
        check_failed_message("Could not fetch a valid release JSON from the remote"),
        "no update currently available"
    );
    assert_eq!(nothing_to_install_message(), "no update available");
    assert_eq!(install_check_failed_message("x"), "下载失败: x");
    assert_eq!(install_failed_message("x"), "更新安装失败: x");
}

#[test]
fn quiet_text_differs_from_every_headed_text() {
    let quiet = check_failed_message("Could not fetch a valid release JSON");
    for why in ["", "x", "no update currently available"] {
        assert_ne!(quiet, check_failed_message(why));
        assert_ne!(quiet, updater_unavailable_message(why));
        assert_ne!(quiet, install_check_failed_message(why));
        assert_ne!(quiet, install_failed_message(why));
    }
    assert_ne!(quiet, unsupported_message());
    assert_ne!(quiet, nothing_to_install_message());
}

#[test]
fn report_takes_everything_but_the_current_version_from_the_release() {
    let release = RemoteRelease {
        version: "2.0.0".to_string(),
        date: Some("2025-01-02".to_string()),
        notes: None,
    };
    let info = UpdateInfo::from_release(release, "1.5.0".to_string());
    assert_eq!(
        info,
        UpdateInfo {
            version: "2.0.0".to_string(),
            release_date: Some("2025-01-02".to_string()),
            release_notes: None,
            current_version: "1.5.0".to_string(),
        }
    );
}
