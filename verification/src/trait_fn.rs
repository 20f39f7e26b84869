//! Method signatures without a body, as a trait declares them.

use vstd::prelude::*;
use crate::error::{err, ok, warn_unless, warned, CompileError, CompileResult, CompileWarning, Warning};
use crate::ident::Ident;
use crate::lowerers::Lowerers;
use crate::span::{config_path, path_of, BuildConfig, Span};
use crate::syntax::{InvariantViolation, SyntaxNode};
use crate::types::{FunctionParameter, TypeInfo};

verus! {

/// A method that a trait asks of its implementors: a name, parameters and a
/// return type. `return_type_span` is where the return type was written, or
/// the whole signature if it was left out.
#[derive(Debug, Clone, PartialEq, Eq)]
pub struct TraitFn {
    pub name: Ident,
    pub parameters: Vec<FunctionParameter>,
    pub return_type: TypeInfo,
    pub return_type_span: Span,
}

/// What the collaborators returned while one signature was lowered. Only
/// `name` matters if it has no value, and `return_type` only if the signature
/// names a return type.
pub struct SignatureParts {
    pub name: CompileResult<Ident>,
    pub snake_case: bool,
    pub parameters: CompileResult<Vec<FunctionParameter>>,
    pub return_type: CompileResult<TypeInfo>,
}

impl SignatureParts {
    /// These parts, but with a name that is in snake case.
    pub open spec fn conforming(self) -> SignatureParts {
        SignatureParts { snake_case: true, ..self }
    }
}

impl TraitFn {
    /// The children of a signature node are the keyword, the name and the
    /// parameter list, and then either nothing or the return marker, the
    /// return type and whatever the grammar puts after them.
    pub open spec fn well_formed(pair: &SyntaxNode) -> bool {
        pair.children@.len() == 3 || pair.children@.len() >= 5
    }

    /// Whether the signature names a return type.
    pub open spec fn has_return_type(pair: &SyntaxNode) -> bool {
        pair.children@.len() > 3
    }

    /// Decides [`TraitFn::well_formed`].
    pub fn check_grammar(pair: &SyntaxNode) -> (checked: Result<(), InvariantViolation>)
        ensures
            checked is Ok <==> TraitFn::well_formed(pair),
            checked matches Err(violation) ==> violation == InvariantViolation::MissingChild,
    {
        let n = pair.children.len();
        if n == 3 || n >= 5 {
            Ok(())
        } else {
            Err(InvariantViolation::MissingChild)
        }
    }

    /// The warning for a name that is not in snake case: at the name node.
    pub open spec fn style_warning(
        pair: &SyntaxNode,
        path: Option<String>,
        name: Ident,
    ) -> CompileWarning {
        CompileWarning {
            span: pair.children@[1].span_in(path),
            warning_content: Warning::NonSnakeCaseFunctionName { name },
        }
    }

    /// The warnings of a lowered signature: those of the name; then, if the
    /// name is not in snake case, one warning at the name; then those of the
    /// parameters and those of the return type. If the name has no value,
    /// those of the name alone.
    pub open spec fn warnings_of(
        pair: &SyntaxNode,
        path: Option<String>,
        parts: SignatureParts,
    ) -> Seq<CompileWarning> {
        match parts.name.value {
            None => parts.name.warnings@,
            Some(name) => warned(
                parts.name.warnings@,
                parts.snake_case,
                pair.children@[1].span_in(path),
                Warning::NonSnakeCaseFunctionName { name },
            ) + parts.parameters.warnings@ + if TraitFn::has_return_type(pair) {
                parts.return_type.warnings@
            } else {
                Seq::empty()
            },
        }
    }

    /// The errors of a lowered signature: those of the name, of the
    /// parameters and of the return type, in that order. If the name has no
    /// value, those of the name alone.
    pub open spec fn errors_of(pair: &SyntaxNode, parts: SignatureParts) -> Seq<CompileError> {
        match parts.name.value {
            None => parts.name.errors@,
            Some(_) => parts.name.errors@ + parts.parameters.errors@ + if TraitFn::has_return_type(
                pair,
            ) {
                parts.return_type.errors@
            } else {
                Seq::empty()
            },
        }
    }

    /// Whether `lowered` is the signature that `pair` stands for, given its
    /// name and what the collaborators returned: parameters that could not
    /// be lowered count as none, a return type that could not be lowered as
    /// [`TypeInfo::ErrorRecovery`] at the place of the type, and a return type
    /// that was left out as the empty tuple at the place of the whole
    /// signature.
    pub open spec fn is_lowered(
        pair: &SyntaxNode,
        path: Option<String>,
        parts: SignatureParts,
        name: Ident,
        lowered: TraitFn,
    ) -> bool {
        &&& lowered.name == name
        &&& lowered.parameters@ == match parts.parameters.value {
            Some(parameters) => parameters@,
            None => Seq::empty(),
        }
        &&& if TraitFn::has_return_type(pair) {
            &&& lowered.return_type == match parts.return_type.value {
                Some(return_type) => return_type,
                None => TypeInfo::ErrorRecovery,
            }
            &&& lowered.return_type_span == pair.children@[4].span_in(path)
        } else {
            &&& lowered.return_type.is_empty_tuple()
            &&& lowered.return_type_span == pair.span_in(path)
        }
    }

    /// Whether `result` is what lowering `pair` gives when the collaborators
    /// return `parts`: no value if the name has none, else the signature of
    /// [`TraitFn::is_lowered`]; with the diagnostics of
    /// [`TraitFn::warnings_of`] and [`TraitFn::errors_of`] either way.
    pub open spec fn lowering(
        pair: &SyntaxNode,
        path: Option<String>,
        parts: SignatureParts,
        result: CompileResult<TraitFn>,
    ) -> bool {
        &&& result.warnings@ == TraitFn::warnings_of(pair, path, parts)
        &&& result.errors@ == TraitFn::errors_of(pair, parts)
        &&& match parts.name.value {
            None => result.value is None,
            Some(name) => result.value is Some && TraitFn::is_lowered(
                pair,
                path,
                parts,
                name,
                result.value.unwrap(),
            ),
        }
    }
}

impl TraitFn {
    /// The return type of a lowered signature points at the type that was
    /// written, if one was; if none was, the return type is the empty tuple
    /// and points at the whole signature.
    pub proof fn lemma_return_type_attribution(
        pair: &SyntaxNode,
        path: Option<String>,
        parts: SignatureParts,
        result: CompileResult<TraitFn>,
    )
        requires
            TraitFn::lowering(pair, path, parts, result),
            result.value is Some,
        ensures
            TraitFn::has_return_type(pair) ==> result.value.unwrap().return_type_span
                == pair.children@[4].span_in(path),
            !TraitFn::has_return_type(pair) ==> result.value.unwrap().return_type.is_empty_tuple()
                && result.value.unwrap().return_type_span == pair.span_in(path),
    {
    }

    /// A name that is not in snake case is lowered all the same. Against the
    /// lowering of the same signature with a name that is, there is one
    /// warning more, right behind the warnings of the name, and the errors
    /// and the signature are as they would be.
    pub proof fn lemma_snake_case_independence(
        pair: &SyntaxNode,
        path: Option<String>,
        parts: SignatureParts,
        result: CompileResult<TraitFn>,
    )
        requires
            TraitFn::lowering(pair, path, parts, result),
            parts.name.value is Some,
            !parts.snake_case,
        ensures
            result.value is Some,
            result.value.unwrap().name == parts.name.value.unwrap(),
            TraitFn::is_lowered(
                pair,
                path,
                parts.conforming(),
                parts.name.value.unwrap(),
                result.value.unwrap(),
            ),
            result.errors@ == TraitFn::errors_of(pair, parts.conforming()),
            result.warnings@ == TraitFn::warnings_of(pair, path, parts.conforming()).insert(
                parts.name.warnings@.len() as int,
                TraitFn::style_warning(pair, path, parts.name.value.unwrap()),
            ),
            result.warnings@.len() == TraitFn::warnings_of(pair, path, parts.conforming()).len()
                + 1,
    {
        assert(result.warnings@ =~= TraitFn::warnings_of(pair, path, parts.conforming()).insert(
            parts.name.warnings@.len() as int,
            TraitFn::style_warning(pair, path, parts.name.value.unwrap()),
        ));
    }
}

impl<LI, UC, SC, LG, LP, LT, LF> Lowerers<LI, UC, SC, LG, LP, LT, LF> where
    LI: Fn(&SyntaxNode, Option<&BuildConfig>) -> CompileResult<Ident>,
    SC: Fn(&str) -> bool,
    LP: Fn(&Vec<SyntaxNode>, Option<&BuildConfig>) -> CompileResult<Vec<FunctionParameter>>,
    LT: Fn(&SyntaxNode, Option<&BuildConfig>) -> CompileResult<TypeInfo>,
 {
    /// The collaborators can be called on what lowering the signature `pair`
    /// hands them.
    pub open spec fn accepts_signature(
        &self,
        pair: &SyntaxNode,
        config: Option<&BuildConfig>,
    ) -> bool {
        &&& call_requires(self.ident, (&pair.children@[1], config))
        &&& forall|text: &str| call_requires(self.is_snake_case, (text,))
        &&& call_requires(self.parameters, (&pair.children@[2].children, config))
        &&& TraitFn::has_return_type(pair) ==> call_requires(
            self.type_info,
            (&pair.children@[4], config),
        )
    }

    /// `parts` is something that the collaborators may return while the
    /// signature `pair` is lowered: the name from the second child; and, if
    /// the name has a value, the verdict on its text, the parameters from the
    /// children of the third child, and the return type from the fifth child
    /// if there is one.
    pub open spec fn signature_parts(
        &self,
        pair: &SyntaxNode,
        config: Option<&BuildConfig>,
        parts: SignatureParts,
    ) -> bool {
        &&& call_ensures(self.ident, (&pair.children@[1], config), parts.name)
        &&& parts.name.value matches Some(name) ==> {
            &&& exists|text: &str|
                text@ == name.name@ && #[trigger] call_ensures(
                    self.is_snake_case,
                    (text,),
                    parts.snake_case,
                )
            &&& call_ensures(
                self.parameters,
                (&pair.children@[2].children, config),
                parts.parameters,
            )
            &&& TraitFn::has_return_type(pair) ==> call_ensures(
                self.type_info,
                (&pair.children@[4], config),
                parts.return_type,
            )
        }
    }

    /// `result` is a lowering of the signature `pair` with these collaborators.
    pub open spec fn signature_result(
        &self,
        pair: &SyntaxNode,
        config: Option<&BuildConfig>,
        result: CompileResult<TraitFn>,
    ) -> bool {
        exists|parts: SignatureParts| #[trigger]
            self.signature_parts(pair, config, parts) && TraitFn::lowering(
                pair,
                path_of(config),
                parts,
                result,
            )
    }
}

impl TraitFn {
    /// Lowers one signature: the name, the parameters and the return type,
    /// each by its collaborator.
    ///
    /// Without a name there is no signature. Everything else has a fallback,
    /// so that one bad part costs an error and not the whole signature. A name
    /// that is not in snake case costs a warning and nothing more.
    ///
    /// The collaborators are called in source order, and no further than the
    /// name if that has no value. The result is the one that
    /// [`TraitFn::lowering`] relates to what they returned.
    pub fn parse_from_pair<LI, UC, SC, LG, LP, LT, LF>(
        pair: &SyntaxNode,
        config: Option<&BuildConfig>,
        lowerers: &Lowerers<LI, UC, SC, LG, LP, LT, LF>,
    ) -> (result: CompileResult<TraitFn>) where
        LI: Fn(&SyntaxNode, Option<&BuildConfig>) -> CompileResult<Ident>,
        SC: Fn(&str) -> bool,
        LP: Fn(&Vec<SyntaxNode>, Option<&BuildConfig>) -> CompileResult<Vec<FunctionParameter>>,
        LT: Fn(&SyntaxNode, Option<&BuildConfig>) -> CompileResult<TypeInfo>,

        requires
            TraitFn::well_formed(pair),
            lowerers.accepts_signature(pair, config),
        ensures
            lowerers.signature_result(pair, config, result),
    {
        let mut warnings: Vec<CompileWarning> = Vec::new();
        let mut errors: Vec<CompileError> = Vec::new();
        let whole_fn_sig_span = pair.as_span(config_path(config));
        let name_pair = &pair.children[1];
        let name_span = name_pair.as_span(config_path(config));
        let name_result = (lowerers.ident)(name_pair, config);
        let ghost name_part = name_result;
        let name = match name_result.attempt(&mut warnings, &mut errors) {
            Some(name) => name,
            None => {
                let result = err(warnings, errors);
                let ghost parts = SignatureParts {
                    name: name_part,
                    snake_case: true,
                    parameters: arbitrary(),
                    return_type: arbitrary(),
                };
                assert(lowerers.signature_parts(pair, config, parts));
                assert(TraitFn::lowering(pair, path_of(config), parts, result));
                return result;
            },
        };
        let snake_case = (lowerers.is_snake_case)(name.as_str());
        warn_unless(
            snake_case,
            &mut warnings,
            name_span,
            Warning::NonSnakeCaseFunctionName { name: name.clone() },
        );
        let parameters_result = (lowerers.parameters)(&pair.children[2].children, config);
        let ghost parameters_part = parameters_result;
        let parameters = match parameters_result.attempt(&mut warnings, &mut errors) {
            Some(parameters) => parameters,
            None => Vec::new(),
        };
        let ghost mut return_type_part: CompileResult<TypeInfo> = arbitrary();
        let (return_type, return_type_span) = if pair.children.len() > 3 {
            let type_pair = &pair.children[4];
            let span = type_pair.as_span(config_path(config));
            let type_result = (lowerers.type_info)(type_pair, config);
            proof {
                return_type_part = type_result;
            }
            let return_type = match type_result.attempt(&mut warnings, &mut errors) {
                Some(return_type) => return_type,
                None => TypeInfo::ErrorRecovery,
            };
            (return_type, span)
        } else {
            (TypeInfo::empty_tuple(), whole_fn_sig_span)
        };
        let ghost parts = SignatureParts {
            name: name_part,
            snake_case,
            parameters: parameters_part,
            return_type: return_type_part,
        };
        assert(parts.name.value == Some(name) && parts.snake_case == snake_case);
        let result = ok(TraitFn { name, parameters, return_type, return_type_span }, warnings, errors);
        assert(lowerers.signature_parts(pair, config, parts));
        assert(TraitFn::lowering(pair, path_of(config), parts, result));
        result
    }

    /// Lowers a signature node that may or may not have the shape that the
    /// grammar promises: checks it with [`TraitFn::check_grammar`] and lowers
    /// it with [`TraitFn::parse_from_pair`] if nothing is wrong with it.
    pub fn lower<LI, UC, SC, LG, LP, LT, LF>(
        pair: &SyntaxNode,
        config: Option<&BuildConfig>,
        lowerers: &Lowerers<LI, UC, SC, LG, LP, LT, LF>,
    ) -> (lowered: Result<CompileResult<TraitFn>, InvariantViolation>) where
        LI: Fn(&SyntaxNode, Option<&BuildConfig>) -> CompileResult<Ident>,
        SC: Fn(&str) -> bool,
        LP: Fn(&Vec<SyntaxNode>, Option<&BuildConfig>) -> CompileResult<Vec<FunctionParameter>>,
        LT: Fn(&SyntaxNode, Option<&BuildConfig>) -> CompileResult<TypeInfo>,

        requires
            TraitFn::well_formed(pair) ==> lowerers.accepts_signature(pair, config),
        ensures
            lowered is Ok <==> TraitFn::well_formed(pair),
            lowered matches Ok(result) ==> lowerers.signature_result(pair, config, result),
            lowered matches Err(violation) ==> violation == InvariantViolation::MissingChild,
    {
        match TraitFn::check_grammar(pair) {
            Ok(()) => Ok(TraitFn::parse_from_pair(pair, config, lowerers)),
            Err(violation) => Err(violation),
        }
    }
}

} // verus!
