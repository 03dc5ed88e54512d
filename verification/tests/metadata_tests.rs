use language_revamp::error::ToolchainError;
use language_revamp::metadata::{
    latest_go_version_from_json, latest_java_version_from_json, latest_node_version_from_json,
    max_release_number, select_release, ReleaseEntry,
};

#[test]
fn go_metadata_selects_the_first_stable_entry() {
    let body = r#"[
        {"version": "go1.22rc1", "stable": false},
        {"version": "go1.21.5", "stable": true},
        {"version": "go1.20.12", "stable": true}
    ]"#;
    assert_eq!(latest_go_version_from_json(body), Ok("go1.21.5".to_string()));
}

#[test]
fn go_metadata_without_stable_entry_reports_version_not_found() {
    let body = r#"[{"version": "go1.22rc1", "stable": false}]"#;
    assert_eq!(
        latest_go_version_from_json(body),
        Err(ToolchainError::VersionNotFound)
    );
    assert_eq!(
        latest_go_version_from_json("[]"),
        Err(ToolchainError::VersionNotFound)
    );
}

#[test]
fn go_metadata_that_does_not_parse_reports_network_error() {
    assert_eq!(
        latest_go_version_from_json("not json"),
        Err(ToolchainError::NetworkError)
    );
    assert_eq!(
        latest_go_version_from_json("{\"stable\": true}"),
        Err(ToolchainError::NetworkError)
    );
}

#[test]
fn go_metadata_with_flagged_entry_lacking_version_reports_network_error() {
    let body = r#"[{"stable": true}]"#;
    assert_eq!(
        latest_go_version_from_json(body),
        Err(ToolchainError::NetworkError)
    );
}

#[test]
fn node_metadata_selects_the_first_lts_entry_and_strips_the_tag() {
    let body = r#"[
        {"version": "v21.5.0", "lts": false},
        {"version": "v20.10.0", "lts": "Iron"},
        {"version": "v18.19.0", "lts": "Hydrogen"}
    ]"#;
    assert_eq!(latest_node_version_from_json(body), Ok("20.10.0".to_string()));
}

#[test]
fn node_metadata_accepts_a_boolean_lts_flag() {
    let body = r#"[
        {"version": "v21.5.0", "lts": ""},
        {"version": "v20.10.0", "lts": true}
    ]"#;
    assert_eq!(latest_node_version_from_json(body), Ok("20.10.0".to_string()));
}

#[test]
fn node_metadata_entry_without_lts_field_is_not_selected() {
    let body = r#"[
        {"version": "v21.5.0"},
        {"version": "v20.10.0", "lts": "Iron"}
    ]"#;
    assert_eq!(latest_node_version_from_json(body), Ok("20.10.0".to_string()));
}

#[test]
fn java_metadata_drops_non_integral_and_negative_entries() {
    let body = r#"{"available_lts_releases": [-3, "x", 17, 11.5, 11]}"#;
    assert_eq!(latest_java_version_from_json(body), Ok("17".to_string()));
    let body_all_bad = r#"{"available_lts_releases": [-3, "x"]}"#;
    assert_eq!(
        latest_java_version_from_json(body_all_bad),
        Err(ToolchainError::VersionNotFound)
    );
}

#[test]
fn node_metadata_without_lts_entry_reports_version_not_found() {
    let body = r#"[{"version": "v21.5.0", "lts": false}]"#;
    assert_eq!(
        latest_node_version_from_json(body),
        Err(ToolchainError::VersionNotFound)
    );
}

#[test]
fn java_metadata_yields_the_greatest_lts_major() {
    let body = r#"{"available_lts_releases": [8, 11, 17, 21], "available_releases": [22]}"#;
    assert_eq!(latest_java_version_from_json(body), Ok("21".to_string()));
}

#[test]
fn java_metadata_without_the_lts_list_reports_version_not_found() {
    assert_eq!(
        latest_java_version_from_json("{}"),
        Err(ToolchainError::VersionNotFound)
    );
    assert_eq!(
        latest_java_version_from_json(r#"{"available_lts_releases": 21}"#),
        Err(ToolchainError::VersionNotFound)
    );
    assert_eq!(
        latest_java_version_from_json(r#"{"available_lts_releases": []}"#),
        Err(ToolchainError::VersionNotFound)
    );
}

#[test]
fn java_metadata_that_does_not_parse_reports_network_error() {
    assert_eq!(
        latest_java_version_from_json("not json"),
        Err(ToolchainError::NetworkError)
    );
}

#[test]
fn release_selection_takes_the_first_flagged_entry() {
    let entries = vec![
        ReleaseEntry { flagged: false, version: Some("a".to_string()) },
        ReleaseEntry { flagged: true, version: Some("b".to_string()) },
        ReleaseEntry { flagged: true, version: Some("c".to_string()) },
    ];
    assert_eq!(select_release(&entries), Ok("b".to_string()));
}

#[test]
fn release_selection_reports_each_failure_kind() {
    let none_flagged = vec![ReleaseEntry { flagged: false, version: Some("a".to_string()) }];
    assert_eq!(
        select_release(&none_flagged),
        Err(ToolchainError::VersionNotFound)
    );
    let missing_version = vec![ReleaseEntry { flagged: true, version: None }];
    assert_eq!(
        select_release(&missing_version),
        Err(ToolchainError::NetworkError)
    );
}

#[test]
fn max_release_number_is_the_greatest() {
    assert_eq!(max_release_number(&vec![8, 21, 17]), Some(21));
    assert_eq!(max_release_number(&vec![5]), Some(5));
    assert_eq!(max_release_number(&vec![]), None);
}
