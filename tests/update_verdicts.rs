use docker_monitor::updates::{
    fallback_verdict, normalize_desktop_version, page_mentions_version, starts_with_text,
    verdict_from_latest,
};

#[test]
fn verdict_from_found_version() {
    assert_eq!(verdict_from_latest("4.42.0", Some("4.42.1")), Some(true));
    assert_eq!(verdict_from_latest("4.42.1", Some("4.42.1")), Some(false));
    assert_eq!(verdict_from_latest("4.42.1", Some("stable")), Some(false));
}

#[test]
fn verdict_without_found_version() {
    assert_eq!(verdict_from_latest("4.42.0", None), None);
}

#[test]
fn fallback_prefers_installer_header() {
    assert_eq!(fallback_verdict("4.42.0", Some(false), true), Some(false));
    assert_eq!(fallback_verdict("1.0.0", Some(true), false), Some(true));
}

#[test]
fn fallback_with_version_page_is_undetermined() {
    assert_eq!(fallback_verdict("4.42.0", None, true), None);
}

#[test]
fn fallback_known_outdated_line() {
    assert_eq!(fallback_verdict("4.42.0", None, false), Some(true));
    assert_eq!(fallback_verdict("4.42.0.1", None, false), Some(true));
    assert_eq!(fallback_verdict("4.42.1", None, false), None);
    assert_eq!(fallback_verdict("4.4", None, false), None);
}

#[test]
fn prefix_test() {
    assert!(starts_with_text("abc", "ab"));
    assert!(starts_with_text("abc", ""));
    assert!(!starts_with_text("ab", "abc"));
    assert!(!starts_with_text("abc", "b"));
}

#[test]
fn desktop_version_keeps_three_components() {
    assert_eq!(normalize_desktop_version("4.42.1.0"), "4.42.1");
    assert_eq!(normalize_desktop_version("4.42.1.12345"), "4.42.1");
    assert_eq!(normalize_desktop_version("4.42.1"), "4.42.1");
    assert_eq!(normalize_desktop_version("4.42"), "4.42");
    assert_eq!(normalize_desktop_version(""), "");
    assert_eq!(normalize_desktop_version("1..2.3"), "1..2");
}

#[test]
fn page_mentions() {
    assert!(page_mentions_version("<a>Latest version 4.43</a>"));
    assert!(page_mentions_version("<a href=x>download</a>"));
    assert!(!page_mentions_version("<html>Docker Desktop</html>"));
    assert!(!page_mentions_version(""));
    assert!(!page_mentions_version("Version"));
}
