//! From the parse tree of `pest` to syntax nodes, and on to a declaration.
//! The grammar here is written by hand against the parser state of `pest`.

use pest::iterators::Pair;
use pest::{ParseResult, ParserState};
use trait_lowering::error::{err, ok, CompileError, CompileResult, CompileWarning, ErrorKind, Warning};
use trait_lowering::ident::Ident;
use trait_lowering::lowerers::Lowerers;
use trait_lowering::span::{BuildConfig, Span};
use trait_lowering::syntax::{Rule, SyntaxNode};
use trait_lowering::trait_declaration::TraitDeclaration;
use trait_lowering::trait_fn::TraitFn;
use trait_lowering::types::{FunctionParameter, IntegerBits, TypeInfo, TypeParameter, Visibility};

// ------------------------------------------------------------ the grammar

type State<'i> = Box<ParserState<'i, Rule>>;
type Parsed<'i> = ParseResult<State<'i>>;

fn blanks(state: State<'_>) -> Parsed<'_> {
    state.repeat(|s| s.match_char_by(|c| c == ' ' || c == '\n'))
}

fn word(state: State<'_>) -> Parsed<'_> {
    state
        .match_char_by(|c| c.is_alphabetic() || c == '_')
        .and_then(|s| s.repeat(|s| s.match_char_by(|c| c.is_alphanumeric() || c == '_')))
}

fn token<'i>(state: State<'i>, rule: Rule, text: &'static str) -> Parsed<'i> {
    state.rule(rule, |s| s.match_string(text)).and_then(blanks)
}

fn named<'i>(state: State<'i>, rule: Rule) -> Parsed<'i> {
    state.rule(rule, word).and_then(blanks)
}

fn punct<'i>(state: State<'i>, text: &'static str) -> Parsed<'i> {
    state.match_string(text).and_then(blanks)
}

/// `x: u64`
fn fn_decl_param(state: State<'_>) -> Parsed<'_> {
    state
        .rule(Rule::FnDeclParam, |s| {
            s.sequence(|s| {
                named(s, Rule::Ident)
                    .and_then(|s| punct(s, ":"))
                    .and_then(|s| s.rule(Rule::TypeName, word))
            })
        })
        .and_then(blanks)
}

/// `(x: u64, y: bool)`
fn fn_decl_params(state: State<'_>) -> Parsed<'_> {
    state
        .rule(Rule::FnDeclParams, |s| {
            s.sequence(|s| {
                punct(s, "(")
                    .and_then(|s| {
                        s.optional(|s| {
                            fn_decl_param(s).and_then(|s| {
                                s.repeat(|s| {
                                    s.sequence(|s| punct(s, ",").and_then(fn_decl_param))
                                })
                            })
                        })
                    })
                    .and_then(|s| s.match_string(")"))
            })
        })
        .and_then(blanks)
}

/// `fn name(..)`, then perhaps `-> ty`
fn fn_head(state: State<'_>) -> Parsed<'_> {
    token(state, Rule::FnDeclKeyword, "fn")
        .and_then(|s| named(s, Rule::FnDeclName))
        .and_then(fn_decl_params)
        .and_then(|s| {
            s.optional(|s| {
                s.sequence(|s| {
                    token(s, Rule::FnReturns, "->").and_then(|s| named(s, Rule::ReturnType))
                })
            })
        })
}

fn fn_signature(state: State<'_>) -> Parsed<'_> {
    state
        .rule(Rule::FnSignature, |s| {
            s.sequence(|s| fn_head(s).and_then(|s| s.match_string(";")))
        })
        .and_then(blanks)
}

fn fn_decl(state: State<'_>) -> Parsed<'_> {
    state
        .rule(Rule::FnDecl, |s| {
            s.sequence(|s| {
                fn_head(s).and_then(|s| {
                    s.rule(Rule::CodeBlock, |s| {
                        s.sequence(|s| punct(s, "{").and_then(|s| s.match_string("}")))
                    })
                })
            })
        })
        .and_then(blanks)
}

/// `<T, U>`
fn type_params(state: State<'_>) -> Parsed<'_> {
    state
        .rule(Rule::TypeParams, |s| {
            s.sequence(|s| {
                punct(s, "<")
                    .and_then(|s| named(s, Rule::Ident))
                    .and_then(|s| {
                        s.repeat(|s| {
                            s.sequence(|s| punct(s, ",").and_then(|s| named(s, Rule::Ident)))
                        })
                    })
                    .and_then(|s| s.match_string(">"))
            })
        })
        .and_then(blanks)
}

/// `where Eq`
fn trait_bounds(state: State<'_>) -> Parsed<'_> {
    state
        .rule(Rule::TraitBounds, |s| {
            s.sequence(|s| {
                s.match_string("where").and_then(blanks).and_then(|s| s.rule(Rule::Ident, word))
            })
        })
        .and_then(blanks)
}

fn trait_methods(state: State<'_>) -> Parsed<'_> {
    state.rule(Rule::TraitMethods, |s| {
        s.sequence(|s| {
            punct(s, "{")
                .and_then(|s| s.repeat(|s| fn_signature(s).or_else(fn_decl)))
                .and_then(|s| s.match_string("}"))
        })
    })
}

fn trait_decl(state: State<'_>) -> Parsed<'_> {
    state.rule(Rule::TraitDecl, |s| {
        s.sequence(|s| {
            s.optional(|s| token(s, Rule::Visibility, "pub"))
                .and_then(|s| token(s, Rule::TraitDeclKeyword, "trait"))
                .and_then(|s| named(s, Rule::TraitName))
                .and_then(|s| s.optional(|s| type_params(s).or_else(trait_bounds)))
                .and_then(|s| s.optional(|s| type_params(s).or_else(trait_bounds)))
                .and_then(trait_methods)
        })
    })
}

fn parse(input: &str) -> Pair<'_, Rule> {
    pest::state(input, trait_decl).unwrap().next().unwrap()
}

// ------------------------------------------------------ the collaborators

fn span_of(pair: &SyntaxNode, config: Option<&BuildConfig>) -> Span {
    Span { start: pair.start, end: pair.end, path: config.map(|c| c.path()) }
}

fn lower_ident(pair: &SyntaxNode, config: Option<&BuildConfig>) -> CompileResult<Ident> {
    ok(
        Ident { name: pair.text.trim().to_string(), span: span_of(pair, config) },
        Vec::new(),
        Vec::new(),
    )
}

fn is_upper_camel_case(text: &str) -> bool {
    text.chars().next().map_or(false, |c| c.is_uppercase()) && !text.contains('_')
}

fn is_snake_case(text: &str) -> bool {
    !text.chars().any(|c| c.is_uppercase())
}

fn lower_type(pair: &SyntaxNode, config: Option<&BuildConfig>) -> CompileResult<TypeInfo> {
    match pair.text.as_str() {
        "bool" => ok(TypeInfo::Boolean, Vec::new(), Vec::new()),
        "u64" => ok(TypeInfo::UnsignedInteger(IntegerBits::SixtyFour), Vec::new(), Vec::new()),
        other => err(
            Vec::new(),
            vec![CompileError {
                span: span_of(pair, config),
                kind: ErrorKind::UnknownType,
                subject: other.to_string(),
            }],
        ),
    }
}

fn lower_parameters(
    pairs: &Vec<SyntaxNode>,
    config: Option<&BuildConfig>,
) -> CompileResult<Vec<FunctionParameter>> {
    let mut warnings = Vec::new();
    let mut errors = Vec::new();
    let mut parameters = Vec::new();
    for pair in pairs {
        let name = lower_ident(&pair.children[0], config)
            .attempt(&mut warnings, &mut errors)
            .unwrap();
        let type_info = lower_type(&pair.children[1], config)
            .unwrap_or_else(&mut warnings, &mut errors, || TypeInfo::ErrorRecovery);
        let type_span = span_of(&pair.children[1], config);
        parameters.push(FunctionParameter { name, type_info, type_span });
    }
    ok(parameters, warnings, errors)
}

fn lower_type_parameters(
    type_params: Option<&SyntaxNode>,
    where_clause: Option<&SyntaxNode>,
    config: Option<&BuildConfig>,
) -> CompileResult<Vec<TypeParameter>> {
    let constraints: Vec<Ident> = where_clause
        .map(|clause| {
            clause.children.iter().map(|c| lower_ident(c, config).value.unwrap()).collect()
        })
        .unwrap_or_default();
    let parameters = type_params
        .map(|list| {
            list.children
                .iter()
                .map(|c| TypeParameter {
                    name: lower_ident(c, config).value.unwrap(),
                    trait_constraints: constraints.clone(),
                })
                .collect()
        })
        .unwrap_or_default();
    ok(parameters, Vec::new(), Vec::new())
}

fn lower_function(pair: &SyntaxNode, _config: Option<&BuildConfig>) -> CompileResult<String> {
    ok(pair.children[1].text.clone(), Vec::new(), Vec::new())
}

fn lower_trait(pair: &SyntaxNode) -> CompileResult<TraitDeclaration<String>> {
    let lowerers = Lowerers {
        ident: lower_ident,
        is_upper_camel_case,
        is_snake_case,
        type_parameters: lower_type_parameters,
        parameters: lower_parameters,
        type_info: lower_type,
        function: lower_function,
    };
    TraitDeclaration::lower(pair, None, &lowerers).unwrap()
}

// --------------------------------------------------------------- the tests

fn node(rule: Rule, src: &str, start: usize, end: usize, children: Vec<SyntaxNode>) -> SyntaxNode {
    SyntaxNode { rule, text: src[start..end].to_string(), start, end, children }
}

fn leaf(rule: Rule, src: &str, start: usize, end: usize) -> SyntaxNode {
    node(rule, src, start, end, Vec::new())
}

fn span(start: usize, end: usize) -> Span {
    Span { start, end, path: None }
}

fn ident(name: &str, start: usize, end: usize) -> Ident {
    Ident { name: name.to_string(), span: span(start, end) }
}

#[test]
fn leaf_pair_becomes_a_node_without_children() {
    let input = "  pub";
    let pair = pest::state(input, |s| {
        s.match_string("  ").and_then(|s| s.rule(Rule::Visibility, |s| s.match_string("pub")))
    })
    .unwrap()
    .next()
    .unwrap();
    assert_eq!(
        SyntaxNode::from_pair(&pair),
        SyntaxNode {
            rule: Rule::Visibility,
            text: "pub".to_string(),
            start: 2,
            end: 5,
            children: Vec::new(),
        }
    );
    // the pair is still whole
    assert_eq!(pair.as_str(), "pub");
}

#[test]
fn pair_becomes_a_node_with_its_inner_pairs_in_order() {
    let src = "trait Foo { fn bar(x: u64) -> bool; fn Baz(); }";
    let pair = parse(src);
    let bar = node(
        Rule::FnSignature,
        src,
        12,
        35,
        vec![
            leaf(Rule::FnDeclKeyword, src, 12, 14),
            leaf(Rule::FnDeclName, src, 15, 18),
            node(
                Rule::FnDeclParams,
                src,
                18,
                26,
                vec![node(
                    Rule::FnDeclParam,
                    src,
                    19,
                    25,
                    vec![leaf(Rule::Ident, src, 19, 20), leaf(Rule::TypeName, src, 22, 25)],
                )],
            ),
            leaf(Rule::FnReturns, src, 27, 29),
            leaf(Rule::ReturnType, src, 30, 34),
        ],
    );
    let baz = node(
        Rule::FnSignature,
        src,
        36,
        45,
        vec![
            leaf(Rule::FnDeclKeyword, src, 36, 38),
            leaf(Rule::FnDeclName, src, 39, 42),
            leaf(Rule::FnDeclParams, src, 42, 44),
        ],
    );
    let expected = node(
        Rule::TraitDecl,
        src,
        0,
        47,
        vec![
            leaf(Rule::TraitDeclKeyword, src, 0, 5),
            leaf(Rule::TraitName, src, 6, 9),
            node(Rule::TraitMethods, src, 10, 47, vec![bar, baz]),
        ],
    );
    assert_eq!(SyntaxNode::from_pair(&pair), expected);
}

#[test]
fn positions_are_counted_in_bytes() {
    let src = "trait Größe { fn maß(); }";
    let node = SyntaxNode::from_pair(&parse(src));
    let name = &node.children[1];
    assert_eq!(name.text, "Größe");
    assert_eq!((name.start, name.end), (6, 13));
    let signature = &node.children[2].children[0];
    assert_eq!(signature.text, "fn maß();");
    assert_eq!((signature.start, signature.end), (16, 26));
    assert_eq!(signature.children[1].text, "maß");
}

#[test]
fn declaration_from_source_text() {
    let pair = parse("trait Foo { fn bar(x: u64) -> bool; fn Baz(); }");
    let result = lower_trait(&SyntaxNode::from_pair(&pair));
    assert_eq!(
        result.value,
        Some(TraitDeclaration {
            name: ident("Foo", 6, 9),
            interface_surface: vec![
                TraitFn {
                    name: ident("bar", 15, 18),
                    parameters: vec![FunctionParameter {
                        name: ident("x", 19, 20),
                        type_info: TypeInfo::UnsignedInteger(IntegerBits::SixtyFour),
                        type_span: span(22, 25),
                    }],
                    return_type: TypeInfo::Boolean,
                    return_type_span: span(30, 34),
                },
                TraitFn {
                    name: ident("Baz", 39, 42),
                    parameters: Vec::new(),
                    return_type: TypeInfo::Tuple(Vec::new()),
                    return_type_span: span(36, 45),
                },
            ],
            methods: Vec::new(),
            type_parameters: Vec::new(),
            visibility: Visibility::Private,
        })
    );
    assert_eq!(
        result.warnings,
        vec![CompileWarning {
            span: span(39, 42),
            warning_content: Warning::NonSnakeCaseFunctionName { name: ident("Baz", 39, 42) },
        }]
    );
    assert_eq!(result.errors, Vec::new());
}

#[test]
fn public_generic_declaration_from_source_text() {
    let src = "pub trait Stack where Eq <T> { fn push(x: u64); fn pop() -> u64 {} fn peek() -> Wat; }";
    let pair = parse(src);
    let result = lower_trait(&SyntaxNode::from_pair(&pair));
    let lowered = result.value.unwrap();
    assert_eq!(lowered.visibility, Visibility::Public);
    assert_eq!(lowered.name.name, "Stack");
    assert_eq!(lowered.name.span, span(10, 15));
    let eq = src.find("Eq").unwrap();
    let t = src.find("T>").unwrap();
    assert_eq!(
        lowered.type_parameters,
        vec![TypeParameter {
            name: ident("T", t, t + 1),
            trait_constraints: vec![ident("Eq", eq, eq + 2)],
        }]
    );
    let names: Vec<&str> = lowered.interface_surface.iter().map(|s| s.name.name.as_str()).collect();
    assert_eq!(names, vec!["push", "peek"]);
    assert_eq!(lowered.methods, vec!["pop".to_string()]);
    assert_eq!(lowered.interface_surface[1].return_type, TypeInfo::ErrorRecovery);
    let wat = src.find("Wat").unwrap();
    assert_eq!(lowered.interface_surface[1].return_type_span, span(wat, wat + 3));
    assert_eq!(result.warnings, Vec::new());
    assert_eq!(result.errors.len(), 1);
    assert_eq!(result.errors[0].subject, "Wat");
}
