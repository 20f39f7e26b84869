//! Trait declarations: a name, generic parameters, the signatures that the
//! trait asks for and the methods that it provides.

use vstd::prelude::*;
use crate::error::{err, ok, warn_unless, warned, CompileError, CompileResult, CompileWarning, Warning};
use crate::ident::Ident;
use crate::lowerers::Lowerers;
use crate::span::BuildConfig;
use crate::syntax::{InvariantViolation, Rule, SyntaxNode};
use crate::text::{trim_of, trimmed};
use crate::trait_body::{
    items_errors, items_warnings, kept_count, kept_methods, kept_signatures, lemma_items_single,
    lemma_items_split, lemma_kept_lengths, BodyItem,
};
use crate::trait_fn::TraitFn;
use crate::trait_header::TraitHeader;
use crate::types::{FunctionParameter, TypeInfo, TypeParameter, Visibility};

verus! {

/// A trait declaration. `interface_surface` holds the signatures without a
/// body and `methods` the methods with one, each list in source order; `F` is
/// whatever the function lowering in use makes of a method.
#[derive(Debug, Clone, PartialEq, Eq)]
pub struct TraitDeclaration<F> {
    pub name: Ident,
    pub interface_surface: Vec<TraitFn>,
    pub methods: Vec<F>,
    pub type_parameters: Vec<TypeParameter>,
    pub visibility: Visibility,
}

/// What the collaborators returned while one declaration was lowered, with
/// one item for each child of the body. Only `name` matters if it has no value.
pub struct DeclarationParts<F> {
    pub name: CompileResult<Ident>,
    pub upper_camel_case: bool,
    pub items: Seq<BodyItem<F>>,
    pub type_parameters: CompileResult<Vec<TypeParameter>>,
}

impl<F> DeclarationParts<F> {
    /// These parts, but with a name that is in upper camel case.
    pub open spec fn conforming(self) -> DeclarationParts<F> {
        DeclarationParts { upper_camel_case: true, ..self }
    }

    /// There is one item for each child of the body of `pair`, and it is of
    /// the kind that the child asks for.
    pub open spec fn fits(self, pair: &SyntaxNode) -> bool {
        &&& self.items.len() == TraitHeader::body_items(pair).len()
        &&& forall|k: int|
            0 <= k < self.items.len() ==> (#[trigger] self.items[k]).is_from(
                &TraitHeader::body_items(pair)[k],
            )
    }
}

impl<F> TraitDeclaration<F> {
    /// The warning for a name that is not in upper camel case: at the
    /// identifier.
    pub open spec fn style_warning(name: Ident) -> CompileWarning {
        CompileWarning { span: name.span, warning_content: Warning::NonClassCaseTraitName { name } }
    }

    /// The warnings of a lowered declaration: those of the name; then, if the
    /// name is not in upper camel case, one warning at the identifier; then
    /// those of the items of the body, item by item; then those of the generic
    /// parameters. If the name has no value, those of the name alone.
    pub open spec fn warnings_of(parts: DeclarationParts<F>) -> Seq<CompileWarning> {
        match parts.name.value {
            None => parts.name.warnings@,
            Some(name) => Self::name_warnings(parts, name) + items_warnings(parts.items)
                + parts.type_parameters.warnings@,
        }
    }

    /// The warnings of the name `name`: those that came with it and then,
    /// if it is not in upper camel case, the warning that says so.
    pub open spec fn name_warnings(parts: DeclarationParts<F>, name: Ident) -> Seq<CompileWarning> {
        warned(
            parts.name.warnings@,
            parts.upper_camel_case,
            name.span,
            Warning::NonClassCaseTraitName { name },
        )
    }

    /// The errors of a lowered declaration: those of the name, of the items
    /// of the body, item by item, and of the generic parameters, in that
    /// order. If the name has no value, those of the name alone.
    pub open spec fn errors_of(parts: DeclarationParts<F>) -> Seq<CompileError> {
        match parts.name.value {
            None => parts.name.errors@,
            Some(_) => parts.name.errors@ + items_errors(parts.items)
                + parts.type_parameters.errors@,
        }
    }

    /// Whether `lowered` is the declaration that `pair` stands for, given its
    /// name and what the collaborators returned: the items that have a value,
    /// signatures and methods apart; and generic parameters that could not be
    /// lowered count as none.
    pub open spec fn is_lowered(
        pair: &SyntaxNode,
        parts: DeclarationParts<F>,
        name: Ident,
        lowered: TraitDeclaration<F>,
    ) -> bool {
        &&& lowered.name == name
        &&& lowered.visibility == TraitHeader::declared_visibility(pair)
        &&& lowered.interface_surface@ == kept_signatures(parts.items)
        &&& lowered.methods@ == kept_methods(parts.items)
        &&& lowered.type_parameters@ == match parts.type_parameters.value {
            Some(type_parameters) => type_parameters@,
            None => Seq::empty(),
        }
    }

    /// Whether `result` is what lowering `pair` gives when the collaborators
    /// return `parts`: no value if the name has none, else the declaration of
    /// [`TraitDeclaration::is_lowered`]; with the diagnostics of
    /// [`TraitDeclaration::warnings_of`] and [`TraitDeclaration::errors_of`]
    /// either way.
    pub open spec fn lowering(
        pair: &SyntaxNode,
        parts: DeclarationParts<F>,
        result: CompileResult<TraitDeclaration<F>>,
    ) -> bool {
        &&& result.warnings@ == Self::warnings_of(parts)
        &&& result.errors@ == Self::errors_of(parts)
        &&& match parts.name.value {
            None => result.value is None,
            Some(name) => result.value is Some && Self::is_lowered(
                pair,
                parts,
                name,
                result.value.unwrap(),
            ),
        }
    }
}

impl<F, LI, UC, SC, LG, LP, LT, LF> Lowerers<LI, UC, SC, LG, LP, LT, LF> where
    LI: Fn(&SyntaxNode, Option<&BuildConfig>) -> CompileResult<Ident>,
    UC: Fn(&str) -> bool,
    SC: Fn(&str) -> bool,
    LG: Fn(Option<&SyntaxNode>, Option<&SyntaxNode>, Option<&BuildConfig>) -> CompileResult<
        Vec<TypeParameter>,
    >,
    LP: Fn(&Vec<SyntaxNode>, Option<&BuildConfig>) -> CompileResult<Vec<FunctionParameter>>,
    LT: Fn(&SyntaxNode, Option<&BuildConfig>) -> CompileResult<TypeInfo>,
    LF: Fn(&SyntaxNode, Option<&BuildConfig>) -> CompileResult<F>,
 {
    /// The collaborators can be called on what lowering the child `item` of
    /// a body hands them.
    pub open spec fn accepts_item(&self, item: &SyntaxNode, config: Option<&BuildConfig>) -> bool {
        &&& item.rule == Rule::FnSignature ==> self.accepts_signature(item, config)
        &&& item.rule == Rule::FnDecl ==> call_requires(self.function, (item, config))
    }

    /// The collaborators can be called on what lowering the declaration
    /// `pair` hands them.
    pub open spec fn accepts_declaration(
        &self,
        pair: &SyntaxNode,
        config: Option<&BuildConfig>,
    ) -> bool {
        &&& call_requires(self.ident, (&pair.children@[TraitHeader::name_index(pair) as int], config))
        &&& forall|text: &str| call_requires(self.is_upper_camel_case, (text,))
        &&& forall|k: int|
            0 <= k < TraitHeader::body_items(pair).len() ==> self.accepts_item(
                #[trigger] &TraitHeader::body_items(pair)[k],
                config,
            )
        &&& call_requires(
            self.type_parameters,
            (TraitHeader::type_params_pair(pair), TraitHeader::where_clause_pair(pair), config),
        )
    }

    /// `outcome` is something that lowering the child `item` of a body may
    /// give: a lowering of the signature if it is one, and else what the
    /// function lowering returns.
    pub open spec fn body_item(
        &self,
        item: &SyntaxNode,
        config: Option<&BuildConfig>,
        outcome: BodyItem<F>,
    ) -> bool {
        &&& outcome.is_from(item)
        &&& match outcome {
            BodyItem::Signature(result) => self.signature_result(item, config, result),
            BodyItem::Method(result) => call_ensures(self.function, (item, config), result),
        }
    }

    /// `parts` is something that the collaborators may return while the
    /// declaration `pair` is lowered: the name from the name node; and, if the
    /// name has a value, the verdict on the text of the name node without the
    /// whitespace around it, one outcome for each child of the body, and the
    /// generic parameters from the parameter list and the where clause.
    pub open spec fn declaration_parts(
        &self,
        pair: &SyntaxNode,
        config: Option<&BuildConfig>,
        parts: DeclarationParts<F>,
    ) -> bool {
        let name_pair = pair.children@[TraitHeader::name_index(pair) as int];
        &&& call_ensures(self.ident, (&name_pair, config), parts.name)
        &&& parts.name.value is Some ==> {
            &&& exists|text: &str|
                text@ == trim_of(name_pair.text@) && #[trigger] call_ensures(
                    self.is_upper_camel_case,
                    (text,),
                    parts.upper_camel_case,
                )
            &&& parts.items.len() == TraitHeader::body_items(pair).len()
            &&& forall|k: int|
                0 <= k < parts.items.len() ==> self.body_item(
                    &TraitHeader::body_items(pair)[k],
                    config,
                    #[trigger] parts.items[k],
                )
            &&& call_ensures(
                self.type_parameters,
                (TraitHeader::type_params_pair(pair), TraitHeader::where_clause_pair(pair), config),
                parts.type_parameters,
            )
        }
    }

    /// `result` is a lowering of the declaration `pair` with these collaborators.
    pub open spec fn declaration_result(
        &self,
        pair: &SyntaxNode,
        config: Option<&BuildConfig>,
        result: CompileResult<TraitDeclaration<F>>,
    ) -> bool {
        exists|parts: DeclarationParts<F>| #[trigger]
            self.declaration_parts(pair, config, parts) && TraitDeclaration::lowering(
                pair,
                parts,
                result,
            )
    }
}

impl<F> TraitDeclaration<F> {
    /// Lowers one trait declaration.
    ///
    /// Without a name there is no declaration. With one there always is:
    /// a signature or a method that cannot be lowered is left out, its
    /// diagnostics are kept, and lowering goes on with the next one. A name
    /// that is not in upper camel case costs a warning and nothing more.
    ///
    /// The name is lowered first, then the children of the body in source
    /// order, then the generic parameters; nothing but the name if that has
    /// no value. The result is the one that [`TraitDeclaration::lowering`]
    /// relates to what the collaborators returned.
    pub fn parse_from_pair<LI, UC, SC, LG, LP, LT, LF>(
        pair: &SyntaxNode,
        config: Option<&BuildConfig>,
        lowerers: &Lowerers<LI, UC, SC, LG, LP, LT, LF>,
    ) -> (result: CompileResult<Self>) where
        LI: Fn(&SyntaxNode, Option<&BuildConfig>) -> CompileResult<Ident>,
        UC: Fn(&str) -> bool,
        SC: Fn(&str) -> bool,
        LG: Fn(Option<&SyntaxNode>, Option<&SyntaxNode>, Option<&BuildConfig>) -> CompileResult<
            Vec<TypeParameter>,
        >,
        LP: Fn(&Vec<SyntaxNode>, Option<&BuildConfig>) -> CompileResult<Vec<FunctionParameter>>,
        LT: Fn(&SyntaxNode, Option<&BuildConfig>) -> CompileResult<TypeInfo>,
        LF: Fn(&SyntaxNode, Option<&BuildConfig>) -> CompileResult<F>,

        requires
            TraitHeader::well_formed(pair),
            lowerers.accepts_declaration(pair, config),
        ensures
            lowerers.declaration_result(pair, config, result),
    {
        let mut warnings: Vec<CompileWarning> = Vec::new();
        let mut errors: Vec<CompileError> = Vec::new();
        let header = TraitHeader::parse(pair);
        let visibility = match header.visibility {
            Some(at) => Visibility::parse_from_pair(&pair.children[at]),
            None => Visibility::Private,
        };
        let name_pair = &pair.children[header.name];
        let name_result = (lowerers.ident)(name_pair, config);
        let ghost name_part = name_result;
        let name = match name_result.attempt(&mut warnings, &mut errors) {
            Some(name) => name,
            None => {
                let result = err(warnings, errors);
                let ghost parts = DeclarationParts::<F> {
                    name: name_part,
                    upper_camel_case: true,
                    items: Seq::empty(),
                    type_parameters: arbitrary(),
                };
                assert(lowerers.declaration_parts(pair, config, parts));
                assert(TraitDeclaration::lowering(pair, parts, result));
                return result;
            },
        };
        let span = name.span().clone();
        let upper_camel_case = (lowerers.is_upper_camel_case)(trimmed(name_pair.as_str()));
        warn_unless(
            upper_camel_case,
            &mut warnings,
            span,
            Warning::NonClassCaseTraitName { name: name.clone() },
        );
        let type_params_pair = match header.type_params {
            Some(at) => Some(&pair.children[at]),
            None => None,
        };
        let where_clause_pair = match header.where_clause {
            Some(at) => Some(&pair.children[at]),
            None => None,
        };
        let mut methods: Vec<F> = Vec::new();
        let mut interface: Vec<TraitFn> = Vec::new();
        let ghost mut items: Seq<BodyItem<F>> = Seq::empty();
        let ghost warnings_before = warnings@;
        let ghost errors_before = errors@;
        if let Some(body) = header.body {
            let methods_and_interface = &pair.children[body].children;
            let mut at: usize = 0;
            while at < methods_and_interface.len()
                invariant
                    at <= methods_and_interface.len(),
                    methods_and_interface@ == TraitHeader::body_items(pair),
                    TraitHeader::well_formed(pair),
                    lowerers.accepts_declaration(pair, config),
                    items.len() == at,
                    forall|k: int|
                        0 <= k < at ==> lowerers.body_item(
                            &methods_and_interface@[k],
                            config,
                            #[trigger] items[k],
                        ),
                    interface@ == kept_signatures(items),
                    methods@ == kept_methods(items),
                    warnings@ == warnings_before + items_warnings(items),
                    errors@ == errors_before + items_errors(items),
                decreases methods_and_interface.len() - at,
            {
                let fn_sig_or_decl = &methods_and_interface[at];
                assert(TraitHeader::item_violation(
                    &TraitHeader::body_items(pair)[at as int],
                ) is None);
                assert(lowerers.accepts_item(&TraitHeader::body_items(pair)[at as int], config));
                let ghost items_before = items;
                match fn_sig_or_decl.rule {
                    Rule::FnSignature => {
                        let lowered = TraitFn::parse_from_pair(fn_sig_or_decl, config, lowerers);
                        proof {
                            items = items.push(BodyItem::Signature(lowered));
                        }
                        match lowered.attempt(&mut warnings, &mut errors) {
                            Some(signature) => interface.push(signature),
                            None => {},
                        }
                    },
                    Rule::FnDecl => {
                        let lowered = (lowerers.function)(fn_sig_or_decl, config);
                        proof {
                            items = items.push(BodyItem::Method(lowered));
                        }
                        match lowered.attempt(&mut warnings, &mut errors) {
                            Some(method) => methods.push(method),
                            None => {},
                        }
                    },
                    _ => unreached(),
                }
                proof {
                    assert(items.drop_last() =~= items_before);
                }
                at += 1;
            }
        }
        let type_parameters_result = (lowerers.type_parameters)(
            type_params_pair,
            where_clause_pair,
            config,
        );
        let ghost type_parameters_part = type_parameters_result;
        let type_parameters = type_parameters_result.unwrap_or_else(
            &mut warnings,
            &mut errors,
            Vec::new,
        );
        let ghost parts = DeclarationParts {
            name: name_part,
            upper_camel_case,
            items,
            type_parameters: type_parameters_part,
        };
        assert(parts.name.value == Some(name) && parts.upper_camel_case == upper_camel_case);
        let result = ok(
            TraitDeclaration {
                type_parameters,
                name,
                interface_surface: interface,
                methods,
                visibility,
            },
            warnings,
            errors,
        );
        assert(lowerers.declaration_parts(pair, config, parts));
        assert(TraitDeclaration::lowering(pair, parts, result));
        result
    }

    /// Lowers a declaration node that may or may not have the shape that the
    /// grammar promises: checks it with [`TraitHeader::check_grammar`] and
    /// lowers it with [`TraitDeclaration::parse_from_pair`] if nothing is
    /// wrong with it.
    pub fn lower<LI, UC, SC, LG, LP, LT, LF>(
        pair: &SyntaxNode,
        config: Option<&BuildConfig>,
        lowerers: &Lowerers<LI, UC, SC, LG, LP, LT, LF>,
    ) -> (lowered: Result<CompileResult<Self>, InvariantViolation>) where
        LI: Fn(&SyntaxNode, Option<&BuildConfig>) -> CompileResult<Ident>,
        UC: Fn(&str) -> bool,
        SC: Fn(&str) -> bool,
        LG: Fn(Option<&SyntaxNode>, Option<&SyntaxNode>, Option<&BuildConfig>) -> CompileResult<
            Vec<TypeParameter>,
        >,
        LP: Fn(&Vec<SyntaxNode>, Option<&BuildConfig>) -> CompileResult<Vec<FunctionParameter>>,
        LT: Fn(&SyntaxNode, Option<&BuildConfig>) -> CompileResult<TypeInfo>,
        LF: Fn(&SyntaxNode, Option<&BuildConfig>) -> CompileResult<F>,

        requires
            TraitHeader::well_formed(pair) ==> lowerers.accepts_declaration(pair, config),
        ensures
            lowered is Ok <==> TraitHeader::well_formed(pair),
            lowered matches Ok(result) ==> lowerers.declaration_result(pair, config, result),
            lowered matches Err(violation) ==> TraitHeader::violation(pair) == Some(violation),
    {
        match TraitHeader::check_grammar(pair) {
            Ok(()) => Ok(TraitDeclaration::parse_from_pair(pair, config, lowerers)),
            Err(violation) => Err(violation),
        }
    }
}

impl<F> TraitDeclaration<F> {
    /// A declaration without a visibility modifier is private.
    pub proof fn lemma_private_by_default(
        pair: &SyntaxNode,
        parts: DeclarationParts<F>,
        result: CompileResult<TraitDeclaration<F>>,
    )
        requires
            Self::lowering(pair, parts, result),
            result.value is Some,
            !TraitHeader::has_visibility(pair),
        ensures
            result.value.unwrap().visibility == Visibility::Private,
    {
    }

    /// A declaration is lowered whenever its name is, whatever becomes of
    /// the children of its body.
    pub proof fn lemma_value_iff_name(
        pair: &SyntaxNode,
        parts: DeclarationParts<F>,
        result: CompileResult<TraitDeclaration<F>>,
    )
        requires
            Self::lowering(pair, parts, result),
        ensures
            result.value is Some <==> parts.name.value is Some,
    {
    }

    /// A name that is not in upper camel case is lowered all the same.
    /// Against the lowering of the same declaration with a name that is,
    /// there is one warning more, right behind the warnings of the name, and
    /// the errors and the declaration are as they would be.
    pub proof fn lemma_upper_camel_case_independence(
        pair: &SyntaxNode,
        parts: DeclarationParts<F>,
        result: CompileResult<TraitDeclaration<F>>,
    )
        requires
            Self::lowering(pair, parts, result),
            parts.name.value is Some,
            !parts.upper_camel_case,
        ensures
            result.value is Some,
            result.value.unwrap().name == parts.name.value.unwrap(),
            Self::is_lowered(
                pair,
                parts.conforming(),
                parts.name.value.unwrap(),
                result.value.unwrap(),
            ),
            result.errors@ == Self::errors_of(parts.conforming()),
            result.warnings@ == Self::warnings_of(parts.conforming()).insert(
                parts.name.warnings@.len() as int,
                Self::style_warning(parts.name.value.unwrap()),
            ),
            result.warnings@.len() == Self::warnings_of(parts.conforming()).len() + 1,
    {
        assert(result.warnings@ =~= Self::warnings_of(parts.conforming()).insert(
            parts.name.warnings@.len() as int,
            Self::style_warning(parts.name.value.unwrap()),
        ));
    }

    /// In a lowered declaration, every child of the body that was lowered to
    /// a value stands in exactly one of the two lists, the one that its rule
    /// names, and both lists are in source order. Taken apart at any child:
    /// the signatures are those of the children before it, then its own if it
    /// gave one, then those of the children after it; and so for the methods.
    pub proof fn lemma_partition(
        pair: &SyntaxNode,
        parts: DeclarationParts<F>,
        result: CompileResult<TraitDeclaration<F>>,
        at: int,
    )
        requires
            Self::lowering(pair, parts, result),
            parts.fits(pair),
            result.value is Some,
            0 <= at < TraitHeader::body_items(pair).len(),
        ensures
            result.value.unwrap().interface_surface@ == kept_signatures(parts.items.take(at))
                + parts.items[at].signatures() + kept_signatures(parts.items.skip(at + 1)),
            result.value.unwrap().methods@ == kept_methods(parts.items.take(at))
                + parts.items[at].methods() + kept_methods(parts.items.skip(at + 1)),
            parts.items[at].is_kept() ==> parts.items[at].signatures().len()
                + parts.items[at].methods().len() == 1,
            !parts.items[at].is_kept() ==> parts.items[at].signatures().len()
                + parts.items[at].methods().len() == 0,
            TraitHeader::body_items(pair)[at].rule == Rule::FnSignature
                ==> parts.items[at].methods().len() == 0,
            TraitHeader::body_items(pair)[at].rule == Rule::FnDecl
                ==> parts.items[at].signatures().len() == 0,
            result.value.unwrap().interface_surface@.len() + result.value.unwrap().methods@.len()
                == kept_count(parts.items),
    {
        crate::trait_body::lemma_partition(parts.items, at);
        lemma_kept_lengths(parts.items);
        assert(parts.items[at].is_from(&TraitHeader::body_items(pair)[at]));
    }

    /// If exactly one child of the body could not be lowered to a value, the
    /// two lists of the declaration together hold one entry less than the
    /// body has children; and if that child came with an error, so does the
    /// declaration.
    pub proof fn lemma_skip_on_failure(
        pair: &SyntaxNode,
        parts: DeclarationParts<F>,
        result: CompileResult<TraitDeclaration<F>>,
        failed: int,
    )
        requires
            Self::lowering(pair, parts, result),
            parts.fits(pair),
            result.value is Some,
            0 <= failed < TraitHeader::body_items(pair).len(),
            !parts.items[failed].is_kept(),
            forall|k: int|
                0 <= k < parts.items.len() && k != failed ==> (#[trigger] parts.items[k]).is_kept(),
        ensures
            result.value.unwrap().interface_surface@.len() + result.value.unwrap().methods@.len()
                == TraitHeader::body_items(pair).len() - 1,
            parts.items[failed].errors().len() > 0 ==> result.errors@.len() > 0,
    {
        crate::trait_body::lemma_skip_on_failure(parts.items, failed);
    }

    /// What each child of the body came with is in the diagnostics of the
    /// declaration once, as it was, between what came before it and what came
    /// after it: first the name and the check of its style, then the children
    /// in source order, then the generic parameters.
    pub proof fn lemma_diagnostics_in_order(
        pair: &SyntaxNode,
        parts: DeclarationParts<F>,
        result: CompileResult<TraitDeclaration<F>>,
        at: int,
    )
        requires
            Self::lowering(pair, parts, result),
            result.value is Some,
            0 <= at < parts.items.len(),
        ensures
            result.warnings@ == Self::name_warnings(parts, parts.name.value.unwrap())
                + items_warnings(parts.items.take(at)) + parts.items[at].warnings()
                + items_warnings(parts.items.skip(at + 1)) + parts.type_parameters.warnings@,
            result.errors@ == parts.name.errors@ + items_errors(parts.items.take(at))
                + parts.items[at].errors() + items_errors(parts.items.skip(at + 1))
                + parts.type_parameters.errors@,
    {
        lemma_items_split(parts.items, at);
        lemma_items_single(parts.items[at]);
    }
}

impl<F, LI, UC, SC, LG, LP, LT, LF> Lowerers<LI, UC, SC, LG, LP, LT, LF> where
    LI: Fn(&SyntaxNode, Option<&BuildConfig>) -> CompileResult<Ident>,
    UC: Fn(&str) -> bool,
    SC: Fn(&str) -> bool,
    LG: Fn(Option<&SyntaxNode>, Option<&SyntaxNode>, Option<&BuildConfig>) -> CompileResult<
        Vec<TypeParameter>,
    >,
    LP: Fn(&Vec<SyntaxNode>, Option<&BuildConfig>) -> CompileResult<Vec<FunctionParameter>>,
    LT: Fn(&SyntaxNode, Option<&BuildConfig>) -> CompileResult<TypeInfo>,
    LF: Fn(&SyntaxNode, Option<&BuildConfig>) -> CompileResult<F>,
 {
    /// What the collaborators return for a declaration whose name they lower
    /// fits the declaration: one item for each child of the body, of the kind
    /// of the child.
    pub proof fn lemma_parts_fit(
        &self,
        pair: &SyntaxNode,
        config: Option<&BuildConfig>,
        parts: DeclarationParts<F>,
    )
        requires
            self.declaration_parts(pair, config, parts),
            parts.name.value is Some,
        ensures
            parts.fits(pair),
    {
    }
}

} // verus!
