use docker_monitor::desktop::{metadata_version, registry_version};

#[test]
fn registry_output_with_padded_version() {
    let out = "\r\nHKEY_LOCAL_MACHINE\\SOFTWARE\\Docker Inc.\\Docker Desktop\r\n    CurrentVersion    REG_SZ    4.42.1.0\r\n\r\n";
    assert_eq!(registry_version(out), Some("4.42.1".to_string()));
}

#[test]
fn registry_output_with_quoted_version() {
    let out = "    CurrentVersion    REG_SZ    \"4.41.2\"  \n";
    assert_eq!(registry_version(out), Some("4.41.2".to_string()));
}

#[test]
fn registry_output_without_version_line() {
    assert_eq!(registry_version("ERROR: The system was unable to find the key\r\n"), None);
    assert_eq!(registry_version(""), None);
}

#[test]
fn registry_output_with_only_quotes() {
    assert_eq!(registry_version("CurrentVersion REG_SZ \"\"\n"), None);
}

#[test]
fn metadata_output_with_padded_version() {
    assert_eq!(metadata_version("\r\n\r\nVersion=4.42.1.0\r\n\r\n\r\n"), Some("4.42.1".to_string()));
}

#[test]
fn metadata_output_stops_at_next_equals() {
    assert_eq!(metadata_version("Version= 1.2=3\n"), Some("1.2".to_string()));
}

#[test]
fn metadata_output_empty_or_missing() {
    assert_eq!(metadata_version("Version=\r\n"), None);
    assert_eq!(metadata_version("No Instance(s) Available.\r\n"), None);
}
