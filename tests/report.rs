use depchk::npm::NpmDependency;
use depchk::{
    check_dependencies, handle_dependency_result, to_mismatches, CheckError, CheckOutcome,
    DependencyCheckErrors, Mismatches, ProjectDependencies, VersionMismatch,
};

fn deps() -> Vec<NpmDependency> {
    vec![
        NpmDependency::new("axios", "^0.12"),
        NpmDependency::new("lodash", "~4.17.0"),
        NpmDependency::new("react", "^18"),
    ]
}

#[test]
fn outcomes_follow_input_order() {
    let latest = vec![
        Ok("0.13.0".to_string()),
        Ok("4.17.21".to_string()),
        Ok("19.0.0".to_string()),
    ];
    let outcomes = check_dependencies(&deps(), latest);
    assert_eq!(outcomes.len(), 3);
    match &outcomes[0] {
        CheckOutcome::Mismatch(m) => assert_eq!(m.destruct(), ("axios", "^0.12", "0.13.0")),
        _ => panic!("expected a mismatch"),
    }
    assert!(matches!(outcomes[1], CheckOutcome::NoMismatch));
    match &outcomes[2] {
        CheckOutcome::Mismatch(m) => assert_eq!(m.destruct(), ("react", "^18", "19.0.0")),
        _ => panic!("expected a mismatch"),
    }
}

#[test]
fn one_failure_leaves_the_others() {
    let latest = vec![
        Ok("0.12.5".to_string()),
        Err(CheckError::Transport { message: "connection refused".to_string() }),
        Ok("19.0.0".to_string()),
    ];
    let outcomes = check_dependencies(&deps(), latest);
    assert!(matches!(outcomes[0], CheckOutcome::NoMismatch));
    assert!(matches!(outcomes[1], CheckOutcome::Error(CheckError::Transport { .. })));
    assert!(matches!(outcomes[2], CheckOutcome::Mismatch(_)));
}

#[test]
fn partition_drops_no_mismatch_and_keeps_order() {
    let outcomes = vec![
        CheckOutcome::Error(CheckError::Transport { message: "timeout".to_string() }),
        CheckOutcome::Mismatch(VersionMismatch::new("a", "^1", "2.0.0")),
        CheckOutcome::NoMismatch,
        CheckOutcome::Mismatch(VersionMismatch::new("b", "~1.2", "1.3.0")),
        CheckOutcome::Error(CheckError::Decode { message: "bad body".to_string() }),
    ];
    let (mismatches, errors) = handle_dependency_result(outcomes);
    assert_eq!(mismatches.len(), 2);
    assert_eq!(mismatches[0].name(), "a");
    assert_eq!(mismatches[1].name(), "b");
    assert_eq!(errors.errors().len(), 2);
    assert_eq!(errors.message(), "timeout\nbad body");
    assert!(!errors.is_empty());
}

#[test]
fn run_with_only_a_mismatch_succeeds() {
    let outcomes = vec![
        CheckOutcome::NoMismatch,
        CheckOutcome::Mismatch(VersionMismatch::new("axios", "^0.12", "0.13.0")),
    ];
    let (report, errors) = to_mismatches(outcomes, None);
    assert!(errors.is_empty());
    assert_eq!(errors.message(), "");
    assert_eq!(report.dependencies.len(), 1);
    assert!(report.dev_dependencies.is_none());
}

#[test]
fn run_with_only_an_error_fails() {
    let outcomes = vec![CheckOutcome::Error(CheckError::Transport {
        message: "connection refused".to_string(),
    })];
    let (report, errors) = to_mismatches(outcomes, Some(vec![CheckOutcome::NoMismatch]));
    assert!(!errors.is_empty());
    assert_eq!(report.dependencies.len(), 0);
    assert_eq!(report.dev_dependencies.as_ref().unwrap().len(), 0);
    assert_eq!(report.concat().len(), 0);
}

#[test]
fn dev_errors_follow_regular_errors() {
    let regular = vec![CheckOutcome::Error(CheckError::Decode { message: "first".to_string() })];
    let dev = vec![
        CheckOutcome::Mismatch(VersionMismatch::new("jest", "^28", "29.0.0")),
        CheckOutcome::Error(CheckError::Transport { message: "second".to_string() }),
    ];
    let (report, errors) = to_mismatches(regular, Some(dev));
    assert_eq!(errors.message(), "first\nsecond");
    assert_eq!(report.dev_dependencies.as_ref().unwrap()[0].name(), "jest");
}

#[test]
fn join_appends_errors_and_messages() {
    let mut a = DependencyCheckErrors::new(vec![CheckError::Transport { message: "one".to_string() }]);
    let b = DependencyCheckErrors::new(vec![
        CheckError::ConstraintParse { constraint: "1,2".to_string() },
        CheckError::Decode { message: "three".to_string() },
    ]);
    a.join(b);
    assert_eq!(a.errors().len(), 3);
    assert_eq!(a.message(), "one\ninvalid version constraint: 1,2\nthree");
    let empty = DependencyCheckErrors::default();
    assert!(empty.is_empty());
}

#[test]
fn concat_puts_dev_after_regular() {
    let m = Mismatches {
        dependencies: vec![VersionMismatch::new("a", "^1", "2.0.0")],
        dev_dependencies: Some(vec![VersionMismatch::new("b", "^1", "3.0.0")]),
    };
    let all = m.concat();
    assert_eq!(all.len(), 2);
    assert_eq!(all[0].name(), "a");
    assert_eq!(all[1].name(), "b");
    let only = Mismatches { dependencies: vec![VersionMismatch::new("c", "^1", "2.0.0")], dev_dependencies: None };
    assert_eq!(only.concat().len(), 1);
}

#[test]
fn project_checks_regular_and_dev_apart() {
    let project = ProjectDependencies::new(deps(), vec![NpmDependency::new("jest", "^29")]);
    let regular = project.check_dependencies(vec![
        Ok("0.12.1".to_string()),
        Ok("4.17.1".to_string()),
        Ok("18.2.0".to_string()),
    ]);
    let dev = project.check_dev_dependencies(vec![Ok("30.0.0".to_string())]);
    let (report, errors) = to_mismatches(regular, Some(dev));
    assert!(errors.is_empty());
    assert!(report.dependencies.is_empty());
    assert_eq!(report.dev_dependencies.unwrap()[0].destruct(), ("jest", "^29", "30.0.0"));
}

#[test]
fn csv_rows_list_regular_then_dev() {
    let m = Mismatches {
        dependencies: vec![VersionMismatch::new("axios", "^0.12", "0.13.0")],
        dev_dependencies: Some(vec![VersionMismatch::new("jest", "~29.1", "30.0.0")]),
    };
    let rows = depchk::report::csv_rows(&m);
    assert_eq!(rows, vec!["axios,^0.12,0.13.0".to_string(), "jest,~29.1,30.0.0".to_string()]);
    assert_eq!(depchk::report::to_csv_row(&m.dependencies[0]), "axios,^0.12,0.13.0");
}
