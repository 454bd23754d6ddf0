use linter::engine::{run_lints, LintCallResult, LintExecution};
use linter::lint::{Lint, LintResult, PluginErrors};
use linter::lint_data::LintData;
use linter::rows::Row;
use linter::sandbox::{lint_all, requested_files, PluginHandle};
use linter::value::Value;

fn row(fields: Vec<(&str, Value)>) -> Row {
    Row {
        fields: fields
            .into_iter()
            .map(|(k, v)| (String::from(k), v))
            .collect(),
    }
}

fn error_lint(name: &str) -> LintData {
    LintData {
        name: String::from(name),
        lint: String::from("query { violation }"),
        args: Vec::new(),
        warning: None,
        error: Some(String::from("violations found")),
        compared_lint: None,
        compared_args: None,
    }
}

fn warning_lint(name: &str) -> LintData {
    let mut lint = error_lint(name);
    lint.error = None;
    lint.warning = Some(String::from("worth a look"));
    lint
}

fn compared_lint(name: &str) -> LintData {
    let mut lint = error_lint(name);
    lint.compared_lint = Some(String::from("query { twin }"));
    lint
}

#[test]
fn test_single_error_lint_with_no_rows_passes() {
    // Scenario: an error-severity lint whose query selects nothing.
    let executions = vec![LintExecution {
        lint: error_lint("clean"),
        main: LintCallResult::Rows(Vec::new()),
        compared: None,
    }];
    let report = run_lints(&executions).unwrap();
    assert!(report.passes);
    assert!(report.findings.is_empty());
    assert!(report.failed_calls.is_empty());
}

#[test]
fn test_single_error_lint_with_a_row_fails_but_warning_passes() {
    // Scenario: the same query returning one row; as an error it fails the
    // run, as a warning the row is only reported.
    let as_error = vec![LintExecution {
        lint: error_lint("strict"),
        main: LintCallResult::Rows(vec![row(vec![("a", Value::Int64(1))])]),
        compared: None,
    }];
    let report = run_lints(&as_error).unwrap();
    assert!(!report.passes);
    assert_eq!(report.findings.len(), 1);
    assert!(matches!(&report.findings[0].output, LintResult::Error(m) if m == "violations found"));

    let as_warning = vec![LintExecution {
        lint: warning_lint("lenient"),
        main: LintCallResult::Rows(vec![row(vec![("a", Value::Int64(1))])]),
        compared: None,
    }];
    let report = run_lints(&as_warning).unwrap();
    assert!(report.passes);
    assert_eq!(report.findings.len(), 1);
    assert!(matches!(&report.findings[0].output, LintResult::Warning(m) if m == "worth a look"));
}

#[test]
fn test_comparison_with_equal_sides_passes() {
    // Scenario: both sides return the same one row; no inconsistency.
    let executions = vec![LintExecution {
        lint: compared_lint("drift"),
        main: LintCallResult::Rows(vec![row(vec![("a", Value::Int64(1))])]),
        compared: Some(LintCallResult::Rows(vec![row(vec![("a", Value::Int64(1))])])),
    }];
    let report = run_lints(&executions).unwrap();
    assert!(report.passes);
    assert!(report.findings.is_empty());
}

#[test]
fn test_comparison_reports_row_present_on_one_side() {
    // Scenario: the secondary side has one extra row; exactly that row is
    // the inconsistency, and the error severity fails the run.
    let executions = vec![LintExecution {
        lint: compared_lint("drift"),
        main: LintCallResult::Rows(vec![row(vec![("a", Value::Int64(1))])]),
        compared: Some(LintCallResult::Rows(vec![
            row(vec![("a", Value::Int64(1))]),
            row(vec![("a", Value::Int64(2))]),
        ])),
    }];
    let report = run_lints(&executions).unwrap();
    assert!(!report.passes);
    assert_eq!(report.findings.len(), 1);
    let finding = &report.findings[0];
    assert_eq!(finding.rows.len(), 1);
    assert!(linter::rows::row_eq(
        &finding.rows[0],
        &row(vec![("a", Value::Int64(2))])
    ));
}

#[test]
fn test_comparison_call_failure_aborts_the_run() {
    let executions = vec![LintExecution {
        lint: compared_lint("drift"),
        main: LintCallResult::Failed(String::from("query text rejected")),
        compared: Some(LintCallResult::Rows(Vec::new())),
    }];
    assert!(matches!(run_lints(&executions), Err(m) if m == "query text rejected"));
}

#[test]
fn test_single_call_failure_fails_without_aborting() {
    let executions = vec![
        LintExecution {
            lint: error_lint("broken"),
            main: LintCallResult::Failed(String::from("plugin crashed")),
            compared: None,
        },
        LintExecution {
            lint: error_lint("fine"),
            main: LintCallResult::Rows(Vec::new()),
            compared: None,
        },
    ];
    let report = run_lints(&executions).unwrap();
    assert!(!report.passes);
    assert_eq!(report.failed_calls, vec![String::from("broken")]);
}

fn plugin_lint(severity: LintResult) -> Lint {
    Lint {
        name: String::from("batched"),
        lint: String::from("query { violation }"),
        output: severity,
        args: Vec::new(),
    }
}

#[test]
fn test_lint_all_fails_only_for_error_severity_rows() {
    let lints = vec![
        plugin_lint(LintResult::Warning(String::from("meh"))),
        plugin_lint(LintResult::Error(String::from("bad"))),
    ];
    let clean = vec![
        LintCallResult::Rows(vec![row(vec![("a", Value::Int64(1))])]),
        LintCallResult::Rows(Vec::new()),
    ];
    assert!(lint_all(&lints, &clean, "OpenAPI").is_ok());

    let dirty = vec![
        LintCallResult::Rows(Vec::new()),
        LintCallResult::Rows(vec![row(vec![("a", Value::Int64(1))])]),
    ];
    assert!(matches!(
        lint_all(&lints, &dirty, "OpenAPI"),
        Err(PluginErrors::PluginLintsFailed(p)) if p == "OpenAPI"
    ));
}

#[test]
fn test_lint_all_propagates_a_failed_invocation() {
    let lints = vec![plugin_lint(LintResult::Error(String::from("bad")))];
    let outcomes = vec![LintCallResult::Failed(String::from("not a legal query"))];
    assert!(matches!(
        lint_all(&lints, &outcomes, "Terraform"),
        Err(PluginErrors::PluginError(m)) if m == "not a legal query"
    ));
}

#[test]
fn test_initialize_twice_observes_the_same_state() {
    // Initialization is idempotent: a second call must not re-run setup.
    let mut once = PluginHandle::load();
    once.initialize();

    let mut twice = PluginHandle::load();
    assert!(twice.initialize());
    assert!(!twice.initialize());

    assert_eq!(once.initialized, twice.initialized);
    assert_eq!(once.setups_run, twice.setups_run);
    assert_eq!(twice.setups_run, 1);
    assert!(twice.can_invoke());
}

#[test]
fn test_requested_files_asks_for_yaml_documents() {
    let files = requested_files();
    assert_eq!(files.extensions, vec![String::from("yml"), String::from("yaml")]);
    assert!(files.ignored_dirs.is_empty());
}
