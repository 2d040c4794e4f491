//! Environment resolution and suffixes.

use pinnothera::env::EnvName;

#[test]
fn resolves_every_alias_case_insensitively() {
    assert_eq!(EnvName::from(Some("qe")), EnvName::QE);
    assert_eq!(EnvName::from(Some("QE")), EnvName::QE);
    assert_eq!(EnvName::from(Some("q")), EnvName::QA);
    assert_eq!(EnvName::from(Some("Qa")), EnvName::QA);
    assert_eq!(EnvName::from(Some("l")), EnvName::Local);
    assert_eq!(EnvName::from(Some("LOCAL")), EnvName::Local);
    assert_eq!(EnvName::from(Some("preview")), EnvName::Preview);
    assert_eq!(EnvName::from(Some("t")), EnvName::Test);
    assert_eq!(EnvName::from(Some("Test")), EnvName::Test);
    assert_eq!(EnvName::from(Some("TESTING")), EnvName::Test);
    assert_eq!(EnvName::from(Some("d")), EnvName::Dev);
    assert_eq!(EnvName::from(Some("dev")), EnvName::Dev);
    assert_eq!(EnvName::from(Some("Development")), EnvName::Dev);
    assert_eq!(EnvName::from(Some("p")), EnvName::Prod);
    assert_eq!(EnvName::from(Some("PROD")), EnvName::Prod);
    assert_eq!(EnvName::from(Some("pRoDuCtIoN")), EnvName::Prod);
}

#[test]
fn absent_or_unrecognized_input_is_unknown() {
    assert_eq!(EnvName::from(None), EnvName::Unknown);
    assert_eq!(EnvName::from(Some("")), EnvName::Unknown);
    assert_eq!(EnvName::from(Some("staging")), EnvName::Unknown);
    assert_eq!(EnvName::from(Some("producti0n")), EnvName::Unknown);
    assert_eq!(EnvName::from(Some("qa ")), EnvName::Unknown);
}

#[test]
fn suffix_of_each_environment() {
    assert_eq!(EnvName::QA.as_suffix(), "qa");
    assert_eq!(EnvName::QE.as_suffix(), "qe");
    assert_eq!(EnvName::Dev.as_suffix(), "dev");
    assert_eq!(EnvName::Prod.as_suffix(), "prod");
    assert_eq!(EnvName::Test.as_suffix(), "test");
    assert_eq!(EnvName::Local.as_suffix(), "local");
    assert_eq!(EnvName::Preview.as_suffix(), "preview");
    assert_eq!(EnvName::Unknown.as_suffix(), "unknown");
}

#[test]
fn locality_predicates() {
    assert!(EnvName::Local.is_local());
    assert!(!EnvName::Prod.is_local());
    assert!(EnvName::Unknown.is_unknown());
    assert!(!EnvName::Local.is_unknown());
}

#[test]
fn default_environment_is_unknown() {
    assert_eq!(EnvName::default(), EnvName::Unknown);
}

#[test]
fn non_ascii_input_is_unknown() {
    assert_eq!(EnvName::from(Some("ｑａ")), EnvName::Unknown);
    assert_eq!(EnvName::from(Some("pröduction")), EnvName::Unknown);
}
