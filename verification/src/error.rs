//! Diagnostics, and the result type that carries them alongside a value.
//!
//! A lowering step never stops at the first problem. It returns a
//! [`CompileResult`]: the value if one could be produced, and every warning and
//! error met on the way. The caller merges those into its own lists with
//! [`CompileResult::attempt`] and decides itself what to do when the value is
//! missing.

use vstd::prelude::*;
use crate::ident::Ident;
use crate::span::Span;

verus! {

/// What a warning is about.
#[derive(Debug, Clone, PartialEq, Eq)]
pub enum Warning {
    /// The name of a trait is not written in upper camel case.
    NonClassCaseTraitName { name: Ident },
    /// The name of a function is not written in snake case.
    NonSnakeCaseFunctionName { name: Ident },
}

/// A style problem: it never keeps a value from being produced.
#[derive(Debug, Clone, PartialEq, Eq)]
pub struct CompileWarning {
    pub span: Span,
    pub warning_content: Warning,
}

/// What an error is about.
#[derive(Debug, Clone, PartialEq, Eq)]
pub enum ErrorKind {
    /// The text is not a usable name.
    InvalidName,
    /// The text does not name a type.
    UnknownType,
    /// The node does not have the parts that its production promises.
    Malformed,
    /// A construct that lowering does not handle.
    Unsupported,
}

/// A problem that invalidates the value it is attached to.
#[derive(Debug, Clone, PartialEq, Eq)]
pub struct CompileError {
    pub span: Span,
    pub kind: ErrorKind,
    pub subject: String,
}

/// The outcome of lowering one node: the value, unless none could be produced,
/// with the warnings and the errors of the node and of everything below it.
/// A value may come with errors: it is then the best that could be made.
#[derive(Debug, Clone, PartialEq, Eq)]
pub struct CompileResult<T> {
    pub value: Option<T>,
    pub warnings: Vec<CompileWarning>,
    pub errors: Vec<CompileError>,
}

/// A value, with the diagnostics collected while it was produced.
pub fn ok<T>(value: T, warnings: Vec<CompileWarning>, errors: Vec<CompileError>) -> (result:
    CompileResult<T>)
    ensures
        result.value == Some(value),
        result.warnings == warnings,
        result.errors == errors,
{
    CompileResult { value: Some(value), warnings, errors }
}

/// No value, with the diagnostics that say why.
pub fn err<T>(warnings: Vec<CompileWarning>, errors: Vec<CompileError>) -> (result: CompileResult<
    T,
>)
    ensures
        result.value is None,
        result.warnings == warnings,
        result.errors == errors,
{
    CompileResult { value: None, warnings, errors }
}

/// The warning list after `holds` was checked: unchanged if it held, else with
/// one warning about `warning` at `span` added at the end.
pub open spec fn warned(
    before: Seq<CompileWarning>,
    holds: bool,
    span: Span,
    warning: Warning,
) -> Seq<CompileWarning> {
    if holds {
        before
    } else {
        before.push(CompileWarning { span, warning_content: warning })
    }
}

/// Appends a warning unless `holds`. Nothing else changes: a style check
/// never turns a success into a failure.
pub fn warn_unless(holds: bool, warnings: &mut Vec<CompileWarning>, span: Span, warning: Warning)
    ensures
        final(warnings)@ == warned(old(warnings)@, holds, span, warning),
{
    if !holds {
        warnings.push(CompileWarning { span, warning_content: warning });
    }
}

impl<T> CompileResult<T> {
    /// Hands this result's diagnostics over to the caller's lists, after what
    /// they already hold and in the order they were reported, and returns the
    /// value. Where there is none the caller chooses: a default, skipping the
    /// item, or giving up.
    pub fn attempt(
        self,
        warnings: &mut Vec<CompileWarning>,
        errors: &mut Vec<CompileError>,
    ) -> (value: Option<T>)
        ensures
            value == self.value,
            final(warnings)@ == old(warnings)@ + self.warnings@,
            final(errors)@ == old(errors)@ + self.errors@,
    {
        let CompileResult { value, warnings: mut sub_warnings, errors: mut sub_errors } = self;
        warnings.append(&mut sub_warnings);
        errors.append(&mut sub_errors);
        value
    }

    /// Like [`CompileResult::attempt`], with `or_else` called for the value
    /// where this result has none.
    pub fn unwrap_or_else<F: FnOnce() -> T>(
        self,
        warnings: &mut Vec<CompileWarning>,
        errors: &mut Vec<CompileError>,
        or_else: F,
    ) -> (value: T)
        requires
            self.value is None ==> call_requires(or_else, ()),
        ensures
            self.value is Some ==> value == self.value.unwrap(),
            self.value is None ==> call_ensures(or_else, (), value),
            final(warnings)@ == old(warnings)@ + self.warnings@,
            final(errors)@ == old(errors)@ + self.errors@,
    {
        match self.attempt(warnings, errors) {
            Some(value) => value,
            None => or_else(),
        }
    }
}

} // verus!
