use openfare_js_lib::error::QueryError;
use openfare_js_lib::registry::{get_latest_version, install_target, registry_url, HOST_NAME};

#[test]
fn latest_version_is_last_key_of_versions_mapping() {
    // The last key wins even though it is not the semver-greatest version
    // imaginable: the versions mapping is assumed to be in publish order.
    let body = r#"{"versions":{"1.0.0":{},"1.1.0":{}}}"#;
    assert_eq!(get_latest_version(body), Ok(Some("1.1.0".to_string())));
}

#[test]
fn latest_version_of_single_version_package() {
    let body = r#"{"name":"left-pad","versions":{"1.3.0":{"name":"left-pad"}}}"#;
    assert_eq!(get_latest_version(body), Ok(Some("1.3.0".to_string())));
}

#[test]
fn package_with_no_published_versions_has_no_latest_version() {
    let body = r#"{"versions":{}}"#;
    assert_eq!(get_latest_version(body), Ok(None));
}

#[test]
fn missing_versions_section_is_an_error() {
    assert_eq!(
        get_latest_version(r#"{"name":"left-pad"}"#),
        Err(QueryError::VersionsNotFound)
    );
    assert_eq!(
        get_latest_version("not json at all"),
        Err(QueryError::VersionsNotFound)
    );
    // A versions field that is not an object is as unusable as a missing one.
    assert_eq!(
        get_latest_version(r#"{"versions":[]}"#),
        Err(QueryError::VersionsNotFound)
    );
}

#[test]
fn registry_url_renders_package_name_into_template() {
    assert_eq!(
        registry_url("left-pad"),
        "https://registry.npmjs.com/left-pad"
    );
    assert_eq!(registry_url("is-even"), "https://registry.npmjs.com/is-even");
    // Scoped package names pass through the template's default escape.
    assert_eq!(
        registry_url("@scope/pkg"),
        "https://registry.npmjs.com/@scope/pkg"
    );
}

#[test]
fn install_target_joins_name_and_version() {
    assert_eq!(
        install_target("is-even", &Some("1.0.0".to_string())),
        "is-even@1.0.0"
    );
    assert_eq!(install_target("is-even", &None), "is-even");
}

#[test]
fn host_name_names_the_registry() {
    assert_eq!(HOST_NAME, "npmjs.com");
}

#[test]
fn error_messages_describe_the_failure() {
    assert_eq!(
        QueryError::VersionsNotFound.message(),
        "failed to find versions JSON section"
    );
    assert_eq!(
        QueryError::ManifestParse.message(),
        "failed to parse package name and version from manifest"
    );
}
