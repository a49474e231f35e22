use depchk::npm::{from_raw, NpmDependency, PackageJsonRaw};
use depchk::{CheckError, CheckOutcome, Dependency};

#[test]
fn package_dependency_creates_successfully_with_raw_version() {
    let dependency = NpmDependency::new("axios", "0.12.0");

    assert_eq!(dependency.get_name(), "axios");
    assert!(dependency.is_satisfied_by("0.12.0"));
    assert!(!dependency.is_satisfied_by("0.12.1"));
}

#[test]
fn package_dependency_creates_successfully_with_simple_requirements() {
    let dependency = NpmDependency::new("axios", "^0.12");

    assert_eq!(dependency.get_name(), "axios");
    assert!(dependency.is_satisfied_by("0.12.0"));
    assert!(dependency.is_satisfied_by("0.12.1"));
    assert!(!dependency.is_satisfied_by("0.13.0"));
}

#[test]
fn package_dependency_creates_successfully_with_complex_requirements() {
    let dependency = NpmDependency::new("axios", "0.9 || >=0.11 <0.13");

    assert_eq!(dependency.get_name(), "axios");
    assert!(dependency.is_satisfied_by("0.9.0"));
    assert!(dependency.is_satisfied_by("0.11.0"));
    assert!(dependency.is_satisfied_by("0.12.0"));
    assert!(!dependency.is_satisfied_by("0.10.0"));
    assert!(!dependency.is_satisfied_by("0.13.0"));
}

#[test]
fn try_new_rejects_unreadable_constraint() {
    assert!(NpmDependency::try_new("axios", "^0.12").is_some());
    assert!(NpmDependency::try_new("axios", ">=0.10,!=0.11,<0.13").is_none());
}

#[test]
fn api_url_follows_registry_template() {
    let dependency = NpmDependency::new("axios", "^0.12");
    assert_eq!(dependency.api_url(), "https://registry.npmjs.org/axios/latest");
}

#[test]
fn latest_within_caret_is_no_mismatch() {
    let dependency = NpmDependency::new("axios", "^0.12");
    let outcome = dependency.check_version(Ok("0.12.5".to_string()));
    assert!(matches!(outcome, CheckOutcome::NoMismatch));
}

#[test]
fn latest_beyond_caret_is_mismatch() {
    let dependency = NpmDependency::new("axios", "^0.12");
    match dependency.check_version(Ok("0.13.0".to_string())) {
        CheckOutcome::Mismatch(m) => {
            assert_eq!(m.destruct(), ("axios", "^0.12", "0.13.0"));
            assert_eq!(m.name(), "axios");
        }
        _ => panic!("expected a mismatch"),
    }
}

#[test]
fn unreadable_latest_version_is_version_error() {
    let dependency = NpmDependency::new("axios", "^0.12");
    match dependency.check_version(Ok("latest-ish".to_string())) {
        CheckOutcome::Error(e) => {
            assert!(matches!(e, CheckError::VersionParse { .. }));
            assert_eq!(e.message(), "invalid version: latest-ish");
        }
        _ => panic!("expected an error"),
    }
}

#[test]
fn lookup_error_is_passed_on() {
    let dependency = NpmDependency::new("axios", "^0.12");
    let outcome = dependency.check_version(Err(CheckError::Decode {
        message: "missing field `version`".to_string(),
    }));
    match outcome {
        CheckOutcome::Error(e) => assert_eq!(e.message(), "missing field `version`"),
        _ => panic!("expected an error"),
    }
}

#[test]
fn from_map_keeps_readable_entries_in_order() {
    let map = vec![
        ("axios".to_string(), "0.12".to_string()),
        ("broken".to_string(), ">=0.10,!=0.11,<0.13".to_string()),
        ("lodash".to_string(), "~4.17.0".to_string()),
    ];
    let deps = NpmDependency::from_map(map);
    assert_eq!(deps.len(), 2);
    assert_eq!(deps[0].get_name(), "axios");
    assert_eq!(deps[1].get_name(), "lodash");
    assert!(deps[1].is_satisfied_by("4.17.21"));
    assert!(!deps[1].is_satisfied_by("4.18.0"));
}

#[test]
fn from_raw_splits_regular_and_dev() {
    let raw = PackageJsonRaw {
        dependencies: vec![("axios".to_string(), "^0.12".to_string())],
        dev_dependencies: vec![
            ("jest".to_string(), "^29".to_string()),
            ("mocha".to_string(), "10.x".to_string()),
        ],
    };
    let project = from_raw(raw);
    assert_eq!(project.dependencies().len(), 1);
    assert_eq!(project.dev_dependencies().len(), 2);
    assert_eq!(project.dev_dependencies()[1].get_name(), "mocha");
}

#[test]
fn manifest_entry_with_hazard_is_left_out() {
    let map = vec![
        ("any".to_string(), "=*".to_string()),
        ("axios".to_string(), "^0.12".to_string()),
    ];
    let deps = NpmDependency::from_map(map);
    assert_eq!(deps.len(), 1);
    assert_eq!(deps[0].get_name(), "axios");
    assert!(NpmDependency::try_new("any", "~1.x.3").is_none());
}
