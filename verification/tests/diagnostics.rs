//! The result type and the three ways of adding to a list of diagnostics.

use trait_lowering::error::{
    err, ok, warn_unless, CompileError, CompileResult, CompileWarning, ErrorKind, Warning,
};
use trait_lowering::ident::Ident;
use trait_lowering::span::{config_path, BuildConfig, Span};

fn span(start: usize, end: usize) -> Span {
    Span { start, end, path: None }
}

fn warning(name: &str, at: usize) -> CompileWarning {
    let span = span(at, at + name.len());
    CompileWarning {
        span: span.clone(),
        warning_content: Warning::NonSnakeCaseFunctionName {
            name: Ident { name: name.to_string(), span },
        },
    }
}

fn error(subject: &str, at: usize) -> CompileError {
    CompileError {
        span: span(at, at + subject.len()),
        kind: ErrorKind::UnknownType,
        subject: subject.to_string(),
    }
}

#[test]
fn ok_carries_value_and_diagnostics() {
    let result = ok(7u32, vec![warning("A", 1)], vec![error("B", 2)]);
    assert_eq!(result.value, Some(7));
    assert_eq!(result.warnings, vec![warning("A", 1)]);
    assert_eq!(result.errors, vec![error("B", 2)]);
}

#[test]
fn err_carries_diagnostics_and_no_value() {
    let result: CompileResult<u32> = err(vec![warning("A", 1)], vec![error("B", 2)]);
    assert_eq!(result.value, None);
    assert_eq!(result.warnings, vec![warning("A", 1)]);
    assert_eq!(result.errors, vec![error("B", 2)]);
}

#[test]
fn attempt_appends_after_what_the_caller_holds() {
    let mut warnings = vec![warning("W1", 1), warning("W2", 2)];
    let mut errors = vec![error("E1", 1)];
    let sub = ok(
        'x',
        vec![warning("W3", 3), warning("W4", 4)],
        vec![error("E2", 2), error("E3", 3)],
    );
    assert_eq!(sub.attempt(&mut warnings, &mut errors), Some('x'));
    assert_eq!(
        warnings,
        vec![warning("W1", 1), warning("W2", 2), warning("W3", 3), warning("W4", 4)]
    );
    assert_eq!(errors, vec![error("E1", 1), error("E2", 2), error("E3", 3)]);
}

#[test]
fn attempt_keeps_the_diagnostics_of_a_failure() {
    let mut warnings = vec![warning("W1", 1)];
    let mut errors = Vec::new();
    let sub: CompileResult<char> = err(vec![warning("W2", 2)], vec![error("E1", 1)]);
    assert_eq!(sub.attempt(&mut warnings, &mut errors), None);
    assert_eq!(warnings, vec![warning("W1", 1), warning("W2", 2)]);
    assert_eq!(errors, vec![error("E1", 1)]);
}

#[test]
fn nested_attempts_keep_each_source_in_order() {
    // an inner lowering merges two results of its own, then is merged itself
    let mut inner_warnings = Vec::new();
    let mut inner_errors = vec![error("inner-own", 10)];
    let first: CompileResult<u8> = err(vec![warning("a", 1)], vec![error("a", 1)]);
    let second = ok(2u8, vec![warning("b", 2)], vec![error("b", 2)]);
    assert_eq!(first.attempt(&mut inner_warnings, &mut inner_errors), None);
    assert_eq!(second.attempt(&mut inner_warnings, &mut inner_errors), Some(2));
    let inner = ok(0u8, inner_warnings, inner_errors);

    let mut warnings = vec![warning("outer", 0)];
    let mut errors = vec![error("outer", 0)];
    assert_eq!(inner.attempt(&mut warnings, &mut errors), Some(0));
    assert_eq!(warnings, vec![warning("outer", 0), warning("a", 1), warning("b", 2)]);
    assert_eq!(
        errors,
        vec![error("outer", 0), error("inner-own", 10), error("a", 1), error("b", 2)]
    );
}

#[test]
fn unwrap_or_else_returns_the_value_if_there_is_one() {
    let mut warnings = vec![warning("W1", 1)];
    let mut errors = Vec::new();
    let sub = ok(vec![1, 2, 3], vec![warning("W2", 2)], vec![error("E1", 1)]);
    assert_eq!(sub.unwrap_or_else(&mut warnings, &mut errors, Vec::new), vec![1, 2, 3]);
    assert_eq!(warnings, vec![warning("W1", 1), warning("W2", 2)]);
    assert_eq!(errors, vec![error("E1", 1)]);
}

#[test]
fn unwrap_or_else_calls_the_fallback_if_there_is_none() {
    let mut warnings = Vec::new();
    let mut errors = vec![error("E1", 1)];
    let sub: CompileResult<u32> = err(vec![warning("W1", 1)], vec![error("E2", 2)]);
    assert_eq!(sub.unwrap_or_else(&mut warnings, &mut errors, || 42), 42);
    assert_eq!(warnings, vec![warning("W1", 1)]);
    assert_eq!(errors, vec![error("E1", 1), error("E2", 2)]);
}

#[test]
fn warn_unless_adds_one_warning_at_the_end() {
    let mut warnings = vec![warning("W1", 1)];
    let name = Ident { name: "BadName".to_string(), span: span(5, 12) };
    warn_unless(
        false,
        &mut warnings,
        span(5, 12),
        Warning::NonSnakeCaseFunctionName { name: name.clone() },
    );
    assert_eq!(
        warnings,
        vec![
            warning("W1", 1),
            CompileWarning {
                span: span(5, 12),
                warning_content: Warning::NonSnakeCaseFunctionName { name },
            },
        ]
    );
}

#[test]
fn warn_unless_adds_nothing_if_the_check_holds() {
    let mut warnings = vec![warning("W1", 1)];
    let name = Ident { name: "good_name".to_string(), span: span(5, 14) };
    warn_unless(true, &mut warnings, span(5, 14), Warning::NonClassCaseTraitName { name });
    assert_eq!(warnings, vec![warning("W1", 1)]);
}

#[test]
fn clones_are_equal_to_what_they_were_made_from() {
    let config = BuildConfig { file_name: "lib.sw".to_string() };
    assert_eq!(config.clone(), config);
    assert_eq!(config.path(), "lib.sw");
    let span = Span { start: 3, end: 9, path: Some("lib.sw".to_string()) };
    assert_eq!(span.clone(), span);
    let name = Ident { name: "thing".to_string(), span };
    assert_eq!(name.clone(), name);
    assert_eq!(name.as_str(), "thing");
    assert_eq!(name.span(), &name.span);
}

#[test]
fn path_comes_from_the_configuration() {
    let config = BuildConfig { file_name: "a/b.sw".to_string() };
    assert_eq!(config_path(Some(&config)), Some("a/b.sw".to_string()));
    assert_eq!(config_path(None), None);
}
