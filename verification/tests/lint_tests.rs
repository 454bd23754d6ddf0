use linter::lint::{LintResult, PluginErrors};
use linter::lint_data::{merge_lints, ConfigError, LintData};

fn lint_named(name: &str) -> LintData {
    LintData {
        name: String::from(name),
        lint: String::from("query { violation }"),
        args: Vec::new(),
        warning: None,
        error: Some(String::from("found a violation")),
        compared_lint: None,
        compared_args: None,
    }
}

#[test]
fn test_validate_accepts_exactly_one_severity() {
    let with_error = lint_named("one");
    assert!(with_error.validate().is_ok());

    let mut with_warning = lint_named("two");
    with_warning.error = None;
    with_warning.warning = Some(String::from("take a look"));
    assert!(with_warning.validate().is_ok());
}

#[test]
fn test_validate_rejects_no_severity() {
    let mut neither = lint_named("three");
    neither.error = None;
    assert!(matches!(neither.validate(), Err(ConfigError::NoSeverity(n)) if n == "three"));
}

#[test]
fn test_validate_rejects_both_severities() {
    let mut both = lint_named("four");
    both.warning = Some(String::from("warned"));
    assert!(matches!(both.validate(), Err(ConfigError::BothSeverities(n)) if n == "four"));
}

#[test]
fn test_validate_rejects_empty_name_and_query() {
    let mut unnamed = lint_named("");
    unnamed.name = String::new();
    assert!(matches!(unnamed.validate(), Err(ConfigError::EmptyName)));

    let mut queryless = lint_named("five");
    queryless.lint = String::new();
    assert!(matches!(queryless.validate(), Err(ConfigError::EmptyQuery)));
}

#[test]
fn test_validate_compared_lints_needs_secondary_query() {
    let plain = lint_named("six");
    assert!(matches!(
        plain.validate_compared_lints(),
        Err(ConfigError::MissingComparedLint(n)) if n == "six"
    ));

    let mut compared = lint_named("seven");
    compared.compared_lint = Some(String::from("query { other }"));
    assert!(compared.validate_compared_lints().is_ok());
}

#[test]
fn test_merge_lints_concatenates_in_source_order() {
    let batches = vec![
        vec![lint_named("first"), lint_named("second")],
        vec![lint_named("third")],
    ];
    let merged = merge_lints(&batches).expect("all definitions are valid");
    let names: Vec<&str> = merged.iter().map(|l| l.name.as_str()).collect();
    assert_eq!(names, vec!["first", "second", "third"]);
}

#[test]
fn test_merge_rejects_batch_with_malformed_entry() {
    // One definition with both severities set rejects the whole merged
    // batch, even though its neighbors are valid.
    let mut malformed = lint_named("broken");
    malformed.warning = Some(String::from("also warned"));
    let batches = vec![vec![lint_named("fine")], vec![malformed, lint_named("also-fine")]];
    assert!(matches!(merge_lints(&batches), Err(ConfigError::InvalidConfig)));
}

#[test]
fn test_convert_to_plugin_lint_carries_severity() {
    let lint = lint_named("eight").convert_to_plugin_lint().unwrap();
    assert_eq!(lint.name, "eight");
    assert_eq!(lint.lint, "query { violation }");
    assert!(matches!(lint.output, LintResult::Error(m) if m == "found a violation"));
}

#[test]
fn test_convert_to_plugin_lint_with_compared_builds_both_sides() {
    let mut compared = lint_named("nine");
    compared.compared_lint = Some(String::from("query { twin }"));
    let (main, secondary) = compared.convert_to_plugin_lint_with_compared().unwrap();
    assert_eq!(main.name, "nine");
    assert_eq!(secondary.name, "nine");
    assert_eq!(main.lint, "query { violation }");
    assert_eq!(secondary.lint, "query { twin }");
    assert!(secondary.args.is_empty());
    assert!(matches!(secondary.output, LintResult::Error(m) if m == "found a violation"));

    let plain = lint_named("ten");
    assert!(plain.convert_to_plugin_lint_with_compared().is_none());
}

#[test]
fn test_plugin_error_messages() {
    assert_eq!(
        PluginErrors::PluginLintsFailed(String::from("OpenAPI")).message(),
        "Lint for the OpenAPI plugin failed"
    );
    assert_eq!(
        PluginErrors::FilesNotFound(String::from("*.yaml")).message(),
        "Source file(s) not found with structure: *.yaml"
    );
    assert_eq!(
        PluginErrors::PluginError(String::from("bad query")).message(),
        "Error in the plugin: bad query"
    );
}

#[test]
fn test_default_lint_result_is_an_error() {
    assert!(matches!(LintResult::default(), LintResult::Error(m) if m == "No output"));
}
