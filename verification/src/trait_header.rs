//! The header of a trait declaration: which child of the node is what.

use vstd::prelude::*;
use crate::syntax::{InvariantViolation, Rule, SyntaxNode};
use crate::trait_fn::TraitFn;
use crate::types::Visibility;

verus! {

/// Where the parts of a declaration stand among the children of its node.
#[derive(Debug, Clone, Copy, PartialEq, Eq, Structural)]
pub struct TraitHeader {
    /// The visibility modifier, if one was written.
    pub visibility: Option<usize>,
    /// The name.
    pub name: usize,
    /// The generic parameter list, if there is one.
    pub type_params: Option<usize>,
    /// The where clause, if there is one.
    pub where_clause: Option<usize>,
    /// The body, if there is one.
    pub body: Option<usize>,
}

/// What has been found after the name, looking no further than a fixed
/// number of children: the generic parameter list, the where clause, and the
/// first child not yet looked past.
#[derive(Debug, Clone, Copy, PartialEq, Eq, Structural)]
pub struct Lookahead {
    pub type_params: Option<usize>,
    pub where_clause: Option<usize>,
    pub next: usize,
}

impl Lookahead {
    /// Looks at the child at `self.next`: a generic parameter list or a where
    /// clause is recorded and stepped over, in place of one recorded before;
    /// anything else, or no child, leaves everything as it is.
    pub open spec fn step(self, pair: &SyntaxNode) -> Lookahead {
        if self.next < pair.children@.len() {
            let rule = pair.children@[self.next as int].rule;
            if rule == Rule::TraitBounds {
                Lookahead { where_clause: Some(self.next), next: (self.next + 1) as usize, ..self }
            } else if rule == Rule::TypeParams {
                Lookahead { type_params: Some(self.next), next: (self.next + 1) as usize, ..self }
            } else {
                self
            }
        } else {
            self
        }
    }

    /// Computes [`Lookahead::step`].
    pub fn advance(self, pair: &SyntaxNode) -> (after: Lookahead)
        ensures
            after == self.step(pair),
    {
        if self.next < pair.children.len() {
            let rule = pair.children[self.next].rule;
            if rule == Rule::TraitBounds {
                Lookahead {
                    type_params: self.type_params,
                    where_clause: Some(self.next),
                    next: self.next + 1,
                }
            } else if rule == Rule::TypeParams {
                Lookahead {
                    type_params: Some(self.next),
                    where_clause: self.where_clause,
                    next: self.next + 1,
                }
            } else {
                self
            }
        } else {
            self
        }
    }
}

impl TraitHeader {
    /// Whether the declaration starts with a visibility modifier.
    pub open spec fn has_visibility(pair: &SyntaxNode) -> bool {
        pair.children@.len() > 0 && pair.children@[0].rule == Rule::Visibility
    }

    /// Where the name stands: behind the keyword, which is the first child
    /// or, after a visibility modifier, the second.
    pub open spec fn name_index(pair: &SyntaxNode) -> usize {
        if Self::has_visibility(pair) {
            2
        } else {
            1
        }
    }

    /// What is found after the name by looking at a child `slots` times.
    pub open spec fn peeked(pair: &SyntaxNode, slots: nat) -> Lookahead
        decreases slots,
    {
        if slots == 0 {
            Lookahead {
                type_params: None,
                where_clause: None,
                next: (Self::name_index(pair) + 1) as usize,
            }
        } else {
            Self::peeked(pair, (slots - 1) as nat).step(pair)
        }
    }

    /// Where the parts of the declaration stand. After the name, the generic
    /// parameter list and the where clause are looked for in two children, in
    /// either order; the child after them, if there is one, is the body.
    pub open spec fn of(pair: &SyntaxNode) -> TraitHeader {
        let found = Self::peeked(pair, 2);
        TraitHeader {
            visibility: if Self::has_visibility(pair) {
                Some(0usize)
            } else {
                None
            },
            name: Self::name_index(pair),
            type_params: found.type_params,
            where_clause: found.where_clause,
            body: if found.next < pair.children@.len() {
                Some(found.next)
            } else {
                None
            },
        }
    }

    /// The children of the body, or none if the declaration has no body.
    pub open spec fn body_items(pair: &SyntaxNode) -> Seq<SyntaxNode> {
        match Self::of(pair).body {
            Some(body) => pair.children@[body as int].children@,
            None => Seq::empty(),
        }
    }

    /// The generic parameter list, if the declaration has one.
    pub open spec fn type_params_pair(pair: &SyntaxNode) -> Option<&SyntaxNode> {
        match Self::of(pair).type_params {
            Some(at) => Some(&pair.children@[at as int]),
            None => None,
        }
    }

    /// The where clause, if the declaration has one.
    pub open spec fn where_clause_pair(pair: &SyntaxNode) -> Option<&SyntaxNode> {
        match Self::of(pair).where_clause {
            Some(at) => Some(&pair.children@[at as int]),
            None => None,
        }
    }

    /// The visibility that the declaration states: private unless it starts
    /// with a modifier that says otherwise.
    pub open spec fn declared_visibility(pair: &SyntaxNode) -> Visibility {
        if Self::has_visibility(pair) {
            Visibility::declared_by(pair.children@[0].text@)
        } else {
            Visibility::Private
        }
    }

    /// What is wrong with a child of the body, if anything: it must be a
    /// signature, and then a well-formed one, or a method with a body.
    pub open spec fn item_violation(item: &SyntaxNode) -> Option<InvariantViolation> {
        if item.rule == Rule::FnSignature {
            if TraitFn::well_formed(item) {
                None
            } else {
                Some(InvariantViolation::MissingChild)
            }
        } else if item.rule == Rule::FnDecl {
            None
        } else {
            Some(InvariantViolation::UnexpectedRule(item.rule))
        }
    }

    /// The node has a keyword and a name, and every child of its body is a
    /// well-formed signature or a method.
    pub open spec fn well_formed(pair: &SyntaxNode) -> bool {
        &&& pair.children@.len() > Self::name_index(pair)
        &&& forall|k: int|
            0 <= k < Self::body_items(pair).len() ==> Self::item_violation(
                #[trigger] &Self::body_items(pair)[k],
            ) is None
    }

    /// What is wrong with the first of `items` that anything is wrong with.
    pub open spec fn first_violation(items: Seq<SyntaxNode>) -> Option<InvariantViolation>
        decreases items.len(),
    {
        if items.len() == 0 {
            None
        } else {
            match Self::item_violation(&items.first()) {
                Some(violation) => Some(violation),
                None => Self::first_violation(items.drop_first()),
            }
        }
    }

    /// What is wrong with the declaration, if anything: the name is missing,
    /// or else what [`TraitHeader::first_violation`] finds in the body.
    pub open spec fn violation(pair: &SyntaxNode) -> Option<InvariantViolation> {
        if pair.children@.len() <= Self::name_index(pair) {
            Some(InvariantViolation::MissingChild)
        } else {
            Self::first_violation(Self::body_items(pair))
        }
    }

    /// Nothing is wrong with the first `upto` of `items`: the first violation
    /// among them all is then the first among the rest.
    pub proof fn lemma_first_violation_skips(items: Seq<SyntaxNode>, upto: int)
        requires
            0 <= upto <= items.len(),
            forall|k: int| 0 <= k < upto ==> Self::item_violation(#[trigger] &items[k]) is None,
        ensures
            Self::first_violation(items) == Self::first_violation(items.skip(upto)),
        decreases upto,
    {
        if upto == 0 {
            assert(items.skip(0) =~= items);
        } else {
            let rest = items.drop_first();
            assert forall|k: int| 0 <= k < upto - 1 implies Self::item_violation(
                #[trigger] &rest[k],
            ) is None by {
                assert(rest[k] == items[k + 1]);
            }
            Self::lemma_first_violation_skips(rest, upto - 1);
            assert(rest.skip(upto - 1) =~= items.skip(upto));
        }
    }

    /// Whether the places that the header names hold what it says: a
    /// generic parameter list, a where clause, and some child for the body.
    pub open spec fn points_into(self, pair: &SyntaxNode) -> bool {
        &&& self.type_params matches Some(at) ==> at < pair.children@.len()
            && pair.children@[at as int].rule == Rule::TypeParams
        &&& self.where_clause matches Some(at) ==> at < pair.children@.len()
            && pair.children@[at as int].rule == Rule::TraitBounds
        &&& self.body matches Some(at) ==> self.name < at < pair.children@.len()
    }

    /// The header of a node names places among the children of that node.
    pub proof fn lemma_header_points_into(pair: &SyntaxNode)
        ensures
            TraitHeader::of(pair).points_into(pair),
    {
        reveal_with_fuel(TraitHeader::peeked, 3);
    }

    /// Finds where the parts of a declaration stand.
    pub fn parse(pair: &SyntaxNode) -> (header: TraitHeader)
        ensures
            header == TraitHeader::of(pair),
            header.points_into(pair),
    {
        proof {
            Self::lemma_header_points_into(pair);
        }
        let has_visibility = pair.children.len() > 0 && pair.children[0].rule == Rule::Visibility;
        let name: usize = if has_visibility {
            2
        } else {
            1
        };
        let mut found = Lookahead { type_params: None, where_clause: None, next: name + 1 };
        let mut slot: usize = 0;
        while slot < 2
            invariant
                slot <= 2,
                found == Self::peeked(pair, slot as nat),
            decreases 2 - slot,
        {
            found = found.advance(pair);
            slot += 1;
        }
        TraitHeader {
            visibility: if has_visibility {
                Some(0)
            } else {
                None
            },
            name,
            type_params: found.type_params,
            where_clause: found.where_clause,
            body: if found.next < pair.children.len() {
                Some(found.next)
            } else {
                None
            },
        }
    }

    /// Checks a declaration node against the grammar, children of the body
    /// in source order: what is wrong with it, or that nothing is.
    pub fn check_grammar(pair: &SyntaxNode) -> (checked: Result<(), InvariantViolation>)
        ensures
            checked is Ok <==> TraitHeader::well_formed(pair),
            checked is Ok <==> TraitHeader::violation(pair) is None,
            checked matches Err(violation) ==> TraitHeader::violation(pair) == Some(violation),
    {
        let header = TraitHeader::parse(pair);
        if pair.children.len() <= header.name {
            return Err(InvariantViolation::MissingChild);
        }
        if let Some(body) = header.body {
            let items = &pair.children[body].children;
            let mut at: usize = 0;
            while at < items.len()
                invariant
                    at <= items.len(),
                    pair.children@.len() > Self::name_index(pair),
                    items@ == Self::body_items(pair),
                    forall|k: int|
                        0 <= k < at ==> Self::item_violation(#[trigger] &items@[k]) is None,
                decreases items.len() - at,
            {
                let item = &items[at];
                proof {
                    Self::lemma_first_violation_skips(items@, at as int);
                    assert(items@.skip(at as int).first() == items@[at as int]);
                }
                match item.rule {
                    Rule::FnSignature => {
                        if let Err(violation) = TraitFn::check_grammar(item) {
                            return Err(violation);
                        }
                    },
                    Rule::FnDecl => {},
                    unexpected => {
                        return Err(InvariantViolation::UnexpectedRule(unexpected));
                    },
                }
                at += 1;
            }
            proof {
                Self::lemma_first_violation_skips(items@, at as int);
            }
        }
        Ok(())
    }
}

} // verus!
