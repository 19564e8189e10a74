use docker_monitor::version::compare_versions;

#[test]
fn patch_release_is_newer() {
    assert!(compare_versions("4.42.0", "4.42.1"));
}

#[test]
fn trailing_zero_component_is_not_newer() {
    assert!(!compare_versions("4.42.1.0", "4.42.1"));
    assert!(!compare_versions("4.42.1", "4.42.1.0"));
}

#[test]
fn leading_v_and_missing_component_are_equal() {
    assert!(!compare_versions("v1.2", "1.2.0"));
    assert!(!compare_versions("1.2.0", "v1.2"));
}

#[test]
fn older_latest_is_not_newer() {
    assert!(!compare_versions("4.42.1", "4.41.9"));
    assert!(!compare_versions("2.0", "1.99.99"));
}

#[test]
fn components_compare_as_numbers() {
    assert!(compare_versions("1.9", "1.10"));
    assert!(!compare_versions("1.10", "1.9"));
}

#[test]
fn extra_nonzero_component_is_newer() {
    assert!(compare_versions("1.2", "1.2.0.1"));
}

#[test]
fn equal_versions_are_not_newer() {
    assert!(!compare_versions("28.3.2", "28.3.2"));
}

#[test]
fn surrounding_blanks_are_ignored() {
    assert!(compare_versions("  1.0 ", "\t1.1\n"));
}

#[test]
fn non_numeric_component_gives_false() {
    assert!(!compare_versions("1.0", "1.1-beta"));
    assert!(!compare_versions("1.x", "2.0"));
    assert!(!compare_versions("1..0", "2.0"));
    assert!(!compare_versions("", "1.0"));
    assert!(!compare_versions("1.0", ""));
}

#[test]
fn component_beyond_32_bits_gives_false() {
    assert!(!compare_versions("1.0", "4294967296.0"));
    assert!(compare_versions("1.0", "4294967295.0"));
}

#[test]
fn only_one_leading_v_is_dropped() {
    assert!(!compare_versions("vv1", "vv2"));
    assert!(compare_versions("v1", "v2"));
    assert!(compare_versions("1", "v2"));
}

#[test]
fn leading_v_never_changes_the_answer() {
    assert_eq!(compare_versions("v 1.0", "2"), compare_versions(" 1.0", "2"));
    assert!(compare_versions("v 1.0", "2"));
}

#[test]
fn plus_sign_component() {
    assert!(compare_versions("1.+4", "1.5"));
    assert!(!compare_versions("1.+", "1.5"));
    assert!(!compare_versions("1.-4", "1.5"));
}

#[test]
fn unicode_blanks_are_trimmed() {
    assert!(compare_versions("\u{a0}1.0\u{3000}", "1.1"));
}

#[test]
fn appended_zero_component_keeps_answer() {
    assert_eq!(compare_versions("1.2.3.0", "1.2.4"), compare_versions("1.2.3", "1.2.4"));
    assert_eq!(compare_versions("1.2.4", "1.2.3.0"), compare_versions("1.2.4", "1.2.3"));
    assert_eq!(compare_versions("7", "7.0"), compare_versions("7", "7"));
}
