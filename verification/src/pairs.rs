//! Reading the parse tree of the grammar engine.
//!
//! The grammar engine is `pest`. It hands over a [`Pair`]: a node of the
//! parse tree, which gives out its rule, its text, its place in the input and
//! the pairs inside it. [`SyntaxNode::from_pair`] copies all of that into a
//! tree that the lowerings can walk.

use pest::iterators::Pair;
use vstd::prelude::*;
use crate::syntax::{Rule, SyntaxNode, SyntaxTree};

verus! {

/// `pest::iterators::Pair`, a node of the parse tree. Nothing is known of
/// what is in one but what the functions below say.
#[verifier::external_type_specification]
#[verifier::external_body]
#[verifier::reject_recursive_types(R)]
pub struct ExPair<'i, R>(Pair<'i, R>);

/// The tree that a pair stands for: the rule that matched, the text that it
/// matched, the bytes of the input from which to which it matched, and the
/// trees of the pairs inside it, in the order of the input. The accessors of
/// `pest` below are trusted to read this tree, each one its part.
pub uninterp spec fn tree_of(pair: Pair<'_, Rule>) -> SyntaxTree;

/// Calls `Pair::as_rule`. Trusted: it returns the rule of the pair.
#[verifier::external_body]
fn pair_rule(pair: &Pair<'_, Rule>) -> (rule: Rule)
    ensures
        rule == tree_of(*pair).rule,
{
    pair.as_rule()
}

/// Calls `Pair::as_str`. Trusted: it returns the text of the pair.
#[verifier::external_body]
fn pair_text(pair: &Pair<'_, Rule>) -> (text: String)
    ensures
        text@ == tree_of(*pair).text,
{
    pair.as_str().to_string()
}

/// Calls `Pair::as_span`, and `Span::start` and `Span::end` on what it
/// returns. Trusted: they are the byte positions in the input at which the
/// pair starts and ends.
#[verifier::external_body]
fn pair_range(pair: &Pair<'_, Rule>) -> (range: (usize, usize))
    ensures
        range.0 == tree_of(*pair).start,
        range.1 == tree_of(*pair).end,
{
    let span = pair.as_span();
    (span.start(), span.end())
}

/// Calls `Pair::into_inner` on a clone of the pair and collects what it
/// yields. Trusted: these are the pairs directly inside the pair, as many as
/// its tree has children and in their order.
#[verifier::external_body]
fn pair_children<'i>(pair: &Pair<'i, Rule>) -> (children: Vec<Pair<'i, Rule>>)
    ensures
        children@.len() == tree_of(*pair).children.len(),
        forall|i: int|
            0 <= i < children@.len() ==> tree_of(#[trigger] children@[i]) == tree_of(
                *pair,
            ).children[i],
{
    pair.clone().into_inner().collect()
}

impl SyntaxNode {
    /// Copies a pair, with everything inside it, into a syntax node.
    pub fn from_pair(pair: &Pair<'_, Rule>) -> (node: SyntaxNode)
        ensures
            node@ == tree_of(*pair),
        decreases tree_of(*pair),
    {
        let ghost tree = tree_of(*pair);
        let inner = pair_children(pair);
        let mut children: Vec<SyntaxNode> = Vec::new();
        let mut at: usize = 0;
        while at < inner.len()
            invariant
                at <= inner.len(),
                tree == tree_of(*pair),
                inner@.len() == tree.children.len(),
                forall|i: int|
                    0 <= i < inner@.len() ==> tree_of(#[trigger] inner@[i]) == tree.children[i],
                children@.len() == at,
                forall|i: int| 0 <= i < at ==> (#[trigger] children@[i])@ == tree.children[i],
            decreases inner.len() - at,
        {
            let child = SyntaxNode::from_pair(&inner[at]);
            children.push(child);
            at += 1;
        }
        let (start, end) = pair_range(pair);
        let node = SyntaxNode { rule: pair_rule(pair), text: pair_text(pair), start, end, children };
        assert(node@.children =~= tree.children);
        node
    }
}

} // verus!
