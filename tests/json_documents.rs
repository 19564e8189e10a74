use docker_monitor::documents::{first_tag_name, update_document_version};

#[test]
fn tag_listing_first_name() {
    let body = r#"{"count": 2, "results": [{"name": "28.3.2"}, {"name": "28.3.1"}]}"#;
    assert_eq!(first_tag_name(body), Some("28.3.2".to_string()));
}

#[test]
fn tag_listing_without_usable_name() {
    assert_eq!(first_tag_name(r#"{"results": []}"#), None);
    assert_eq!(first_tag_name(r#"{"results": {"name": "x"}}"#), None);
    assert_eq!(first_tag_name(r#"{"results": [{"name": 5}]}"#), None);
    assert_eq!(first_tag_name(r#"{"other": 1}"#), None);
    assert_eq!(first_tag_name("not json"), None);
}

#[test]
fn update_document_version_field() {
    assert_eq!(update_document_version(r#"{"version": "4.43.0"}"#), Some("4.43.0".to_string()));
    assert_eq!(update_document_version(r#"{"version": 4}"#), None);
    assert_eq!(update_document_version(r#"["version"]"#), None);
    assert_eq!(update_document_version(""), None);
}

#[test]
fn tag_listing_first_element_not_object() {
    assert_eq!(first_tag_name(r#"{"results": ["28.3.2"]}"#), None);
    assert_eq!(first_tag_name(r#"[{"name": "x"}]"#), None);
}
