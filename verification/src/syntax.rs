//! The syntax tree that the grammar engine hands over.

use vstd::prelude::*;
use crate::span::Span;

verus! {

/// The grammar production that a syntax node was matched by.
#[derive(Debug, Clone, Copy, PartialEq, Eq, Structural, PartialOrd, Ord, Hash)]
pub enum Rule {
    TraitDecl,
    Visibility,
    TraitDeclKeyword,
    TraitName,
    TypeParams,
    TraitBounds,
    TraitMethods,
    FnSignature,
    FnDecl,
    FnDeclKeyword,
    FnDeclName,
    FnDeclParams,
    FnDeclParam,
    FnReturns,
    ReturnType,
    TypeName,
    Ident,
    CodeBlock,
}

/// A syntax tree that the grammar never produces. It is a defect of the grammar
/// or of whatever built the tree, not a fault of the program being compiled,
/// and is therefore kept apart from the errors reported to the user.
#[derive(Debug, Clone, Copy, PartialEq, Eq, Structural)]
pub enum InvariantViolation {
    /// A child that the production always has is missing.
    MissingChild,
    /// A child matched by a production that cannot stand at its place.
    UnexpectedRule(Rule),
}

/// One node of the syntax tree: its production, the source text it covers,
/// the byte range of that text, and its children in source order.
#[derive(Debug, PartialEq, Eq)]
pub struct SyntaxNode {
    pub rule: Rule,
    pub text: String,
    pub start: usize,
    pub end: usize,
    pub children: Vec<SyntaxNode>,
}

/// A syntax tree as a value: what a [`SyntaxNode`] holds, all the way down.
pub struct SyntaxTree {
    pub rule: Rule,
    pub text: Seq<char>,
    pub start: usize,
    pub end: usize,
    pub children: Seq<SyntaxTree>,
}

impl View for SyntaxNode {
    type V = SyntaxTree;

    open spec fn view(&self) -> SyntaxTree
        decreases self,
    {
        SyntaxTree {
            rule: self.rule,
            text: self.text@,
            start: self.start,
            end: self.end,
            children: Seq::new(
                self.children@.len(),
                |i: int|
                    if 0 <= i < self.children@.len() {
                        self.children@[i]@
                    } else {
                        arbitrary()
                    },
            ),
        }
    }
}

impl SyntaxNode {
    /// The span of this node in the file `path`.
    pub open spec fn span_in(&self, path: Option<String>) -> Span {
        Span { start: self.start, end: self.end, path }
    }

    /// Builds [`SyntaxNode::span_in`].
    pub fn as_span(&self, path: Option<String>) -> (span: Span)
        ensures
            span == self.span_in(path),
    {
        Span { start: self.start, end: self.end, path }
    }

    /// The production of this node.
    pub fn as_rule(&self) -> (rule: Rule)
        ensures
            rule == self.rule,
    {
        self.rule
    }

    /// The source text of this node.
    pub fn as_str(&self) -> (text: &str)
        ensures
            text@ == self.text@,
    {
        self.text.as_str()
    }
}

} // verus!
