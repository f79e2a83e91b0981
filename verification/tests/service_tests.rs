use version_checker::extract::Source;
use version_checker::service::{source_version, CheckError, Service};
use version_checker::version::Version;

fn record() -> Service {
    Service::new(
        "peach-oled".to_string(),
        "http://docs.example.org/microservices/peach-oled.html".to_string(),
        "https://raw.example.org/peach-oled/main/Cargo.toml".to_string(),
        "https://raw.example.org/peach-oled/main/README.md".to_string(),
    )
}

fn docs_body(version: &str) -> String {
    format!("<img src=\"badge/version-{}-%3C%2F%3E.svg\">", version)
}

fn manifest_body(version: &str) -> String {
    format!("[package]\nversion = \"{}\"\n", version)
}

fn readme_body(version: &str) -> String {
    format!("![version](badge/version-{}-green)", version)
}

#[test]
fn new_record_is_unchecked() {
    let s = record();
    assert_eq!(s.name, "peach-oled");
    assert_eq!(s.docs_url, "http://docs.example.org/microservices/peach-oled.html");
    assert_eq!(s.manifest_url, "https://raw.example.org/peach-oled/main/Cargo.toml");
    assert_eq!(s.readme_url, "https://raw.example.org/peach-oled/main/README.md");
    assert!(s.docs_version.is_none());
    assert!(s.manifest_version.is_none());
    assert!(s.readme_version.is_none());
    assert!(!s.consistent);
}

#[test]
fn all_three_equal_pass() {
    let checked = record()
        .check(Ok(docs_body("1.4.0")), Ok(manifest_body("1.4.0")), Ok(readme_body("1.4.0")))
        .unwrap();
    let expected = Version::parse("1.4.0").unwrap();
    assert!(checked.docs_version.as_ref().unwrap().eq_semantic(&expected));
    assert!(checked.manifest_version.as_ref().unwrap().eq_semantic(&expected));
    assert!(checked.readme_version.as_ref().unwrap().eq_semantic(&expected));
    assert!(checked.consistent);
}

#[test]
fn one_diverging_source_fails() {
    let checked = record()
        .check(Ok(docs_body("1.4.0")), Ok(manifest_body("1.4.1")), Ok(readme_body("1.4.0")))
        .unwrap();
    assert!(!checked.consistent);
    assert_eq!(checked.docs_version.unwrap(), Version::parse("1.4.0").unwrap());
    assert_eq!(checked.manifest_version.unwrap(), Version::parse("1.4.1").unwrap());
    assert_eq!(checked.readme_version.unwrap(), Version::parse("1.4.0").unwrap());
}

#[test]
fn missing_readme_marker_reports_none_and_fails() {
    let checked = record()
        .check(
            Ok(docs_body("1.4.0")),
            Ok(manifest_body("1.4.0")),
            Ok("# a readme without any badge".to_string()),
        )
        .unwrap();
    assert!(checked.readme_version.is_none());
    assert!(!checked.consistent);
    assert_eq!(checked.docs_version.unwrap(), Version::parse("1.4.0").unwrap());
    assert_eq!(checked.manifest_version.unwrap(), Version::parse("1.4.0").unwrap());
}

#[test]
fn transport_error_aborts_the_check() {
    let err = record()
        .check(
            Ok(docs_body("1.4.0")),
            Err("404 Not Found".to_string()),
            Ok(readme_body("1.4.0")),
        )
        .unwrap_err();
    assert_eq!(err, CheckError::Transport(Source::Manifest, "404 Not Found".to_string()));
}

#[test]
fn one_component_failing_leaves_another_untouched() {
    let failing = record().check(
        Ok(docs_body("1.4.0")),
        Err("connection refused".to_string()),
        Ok(readme_body("1.4.0")),
    );
    assert!(failing.is_err());
    let passing = record()
        .check(Ok(docs_body("0.3.7")), Ok(manifest_body("0.3.7")), Ok(readme_body("0.3.7")))
        .unwrap();
    assert!(passing.consistent);
}

#[test]
fn malformed_token_is_distinct_from_missing() {
    let err = record()
        .check(Ok(docs_body("1.4.0")), Ok(manifest_body("v1.4")), Ok(readme_body("1.4.0")))
        .unwrap_err();
    assert_eq!(err, CheckError::Malformed(Source::Manifest, "v1.4".to_string()));
    let outcome = source_version(Source::Manifest, Ok("name = \"x\"\n".to_string()));
    assert_eq!(outcome, Ok(None));
}

#[test]
fn build_metadata_does_not_break_consistency() {
    let checked = record()
        .check(
            Ok(docs_body("1.4.0")),
            Ok(manifest_body("1.4.0+build7")),
            Ok(readme_body("1.4.0")),
        )
        .unwrap();
    assert!(checked.consistent);
}

#[test]
fn prerelease_differences_break_consistency() {
    let checked = record()
        .check(
            Ok(docs_body("1.4.0-rc1")),
            Ok(manifest_body("1.4.0")),
            Ok(readme_body("1.4.0")),
        )
        .unwrap();
    assert!(!checked.consistent);
}

#[test]
fn judge_requires_all_three_present() {
    let v = Version::parse("2.0.1").unwrap();
    assert!(Service::judge(&Some(v.clone()), &Some(v.clone()), &Some(v.clone())));
    assert!(!Service::judge(&None, &Some(v.clone()), &Some(v.clone())));
    assert!(!Service::judge(&Some(v.clone()), &None, &Some(v.clone())));
    assert!(!Service::judge(&Some(v.clone()), &Some(v.clone()), &None));
    assert!(!Service::judge(&None, &None, &None));
}

#[test]
fn judge_rejects_any_pairwise_difference() {
    let a = Version::parse("2.0.1").unwrap();
    let b = Version::parse("2.0.2").unwrap();
    assert!(!Service::judge(&Some(a.clone()), &Some(a.clone()), &Some(b.clone())));
    assert!(!Service::judge(&Some(a.clone()), &Some(b.clone()), &Some(a.clone())));
    assert!(!Service::judge(&Some(b.clone()), &Some(a.clone()), &Some(a.clone())));
}
