//! The body of a trait declaration: what becomes of its children.
//!
//! Each child of the body is lowered on its own. One that has no value is
//! left out of the declaration, but what it reported is kept; the others go,
//! in source order, to the signatures or to the methods.

use vstd::prelude::*;
use crate::error::{CompileError, CompileResult, CompileWarning};
use crate::syntax::{Rule, SyntaxNode};
use crate::trait_fn::TraitFn;

verus! {

/// What lowering one child of the body gave: a signature or a method, or in
/// either case no value.
pub enum BodyItem<F> {
    Signature(CompileResult<TraitFn>),
    Method(CompileResult<F>),
}

impl<F> BodyItem<F> {
    /// The warnings that came with the item.
    pub open spec fn warnings(self) -> Seq<CompileWarning> {
        match self {
            BodyItem::Signature(result) => result.warnings@,
            BodyItem::Method(result) => result.warnings@,
        }
    }

    /// The errors that came with the item.
    pub open spec fn errors(self) -> Seq<CompileError> {
        match self {
            BodyItem::Signature(result) => result.errors@,
            BodyItem::Method(result) => result.errors@,
        }
    }

    /// The signatures that the item gives to the declaration: one or none.
    pub open spec fn signatures(self) -> Seq<TraitFn> {
        match self {
            BodyItem::Signature(CompileResult { value: Some(signature), .. }) => seq![signature],
            _ => Seq::empty(),
        }
    }

    /// The methods that the item gives to the declaration: one or none.
    pub open spec fn methods(self) -> Seq<F> {
        match self {
            BodyItem::Method(CompileResult { value: Some(method), .. }) => seq![method],
            _ => Seq::empty(),
        }
    }

    /// Whether the item has a value, and so a place in the declaration.
    pub open spec fn is_kept(self) -> bool {
        match self {
            BodyItem::Signature(result) => result.value is Some,
            BodyItem::Method(result) => result.value is Some,
        }
    }

    /// Whether the item is of the kind that the child `pair` of a body asks
    /// for: a signature for a signature, a method for a method with a body.
    pub open spec fn is_from(self, pair: &SyntaxNode) -> bool {
        match self {
            BodyItem::Signature(_) => pair.rule == Rule::FnSignature,
            BodyItem::Method(_) => pair.rule == Rule::FnDecl,
        }
    }
}

/// The warnings of all the items, in the order of the items.
pub open spec fn items_warnings<F>(items: Seq<BodyItem<F>>) -> Seq<CompileWarning>
    decreases items.len(),
{
    if items.len() == 0 {
        Seq::empty()
    } else {
        items_warnings(items.drop_last()) + items.last().warnings()
    }
}

/// The errors of all the items, in the order of the items.
pub open spec fn items_errors<F>(items: Seq<BodyItem<F>>) -> Seq<CompileError>
    decreases items.len(),
{
    if items.len() == 0 {
        Seq::empty()
    } else {
        items_errors(items.drop_last()) + items.last().errors()
    }
}

/// The signatures that the items give, in the order of the items.
pub open spec fn kept_signatures<F>(items: Seq<BodyItem<F>>) -> Seq<TraitFn>
    decreases items.len(),
{
    if items.len() == 0 {
        Seq::empty()
    } else {
        kept_signatures(items.drop_last()) + items.last().signatures()
    }
}

/// The methods that the items give, in the order of the items.
pub open spec fn kept_methods<F>(items: Seq<BodyItem<F>>) -> Seq<F>
    decreases items.len(),
{
    if items.len() == 0 {
        Seq::empty()
    } else {
        kept_methods(items.drop_last()) + items.last().methods()
    }
}

/// How many of the items have a value.
pub open spec fn kept_count<F>(items: Seq<BodyItem<F>>) -> nat
    decreases items.len(),
{
    if items.len() == 0 {
        0
    } else {
        kept_count(items.drop_last()) + if items.last().is_kept() {
            1nat
        } else {
            0nat
        }
    }
}

/// What two runs of items give is what the first gives followed by what the
/// second gives: signatures, methods, warnings and errors alike.
pub proof fn lemma_items_concat<F>(first: Seq<BodyItem<F>>, second: Seq<BodyItem<F>>)
    ensures
        kept_signatures(first + second) == kept_signatures(first) + kept_signatures(second),
        kept_methods(first + second) == kept_methods(first) + kept_methods(second),
        items_warnings(first + second) == items_warnings(first) + items_warnings(second),
        items_errors(first + second) == items_errors(first) + items_errors(second),
        kept_count(first + second) == kept_count(first) + kept_count(second),
    decreases second.len(),
{
    if second.len() == 0 {
        assert(first + second =~= first);
        assert(kept_signatures(first) + kept_signatures(second) =~= kept_signatures(first));
        assert(kept_methods(first) + kept_methods(second) =~= kept_methods(first));
        assert(items_warnings(first) + items_warnings(second) =~= items_warnings(first));
        assert(items_errors(first) + items_errors(second) =~= items_errors(first));
    } else {
        let all = first + second;
        assert(all.drop_last() =~= first + second.drop_last());
        assert(all.last() == second.last());
        lemma_items_concat(first, second.drop_last());
        assert(kept_signatures(all) =~= kept_signatures(first) + kept_signatures(second));
        assert(kept_methods(all) =~= kept_methods(first) + kept_methods(second));
        assert(items_warnings(all) =~= items_warnings(first) + items_warnings(second));
        assert(items_errors(all) =~= items_errors(first) + items_errors(second));
    }
}

/// What a single item gives.
pub proof fn lemma_items_single<F>(item: BodyItem<F>)
    ensures
        kept_signatures(seq![item]) == item.signatures(),
        kept_methods(seq![item]) == item.methods(),
        items_warnings(seq![item]) == item.warnings(),
        items_errors(seq![item]) == item.errors(),
        item.is_kept() ==> kept_count(seq![item]) == 1,
        !item.is_kept() ==> kept_count(seq![item]) == 0,
{
    let one = seq![item];
    let none = Seq::<BodyItem<F>>::empty();
    assert(one.drop_last() =~= none);
    assert(one.last() == item);
    assert(kept_signatures(none).len() == 0 && kept_methods(none).len() == 0);
    assert(items_warnings(none).len() == 0 && items_errors(none).len() == 0);
    assert(kept_count(none) == 0);
    assert(kept_signatures(one) =~= item.signatures());
    assert(kept_methods(one) =~= item.methods());
    assert(items_warnings(one) =~= item.warnings());
    assert(items_errors(one) =~= item.errors());
}

/// The lists that the items give, with the item at `at` taken apart from the
/// items before it and the items after it.
pub proof fn lemma_items_split<F>(items: Seq<BodyItem<F>>, at: int)
    requires
        0 <= at < items.len(),
    ensures
        kept_signatures(items) == kept_signatures(items.take(at)) + kept_signatures(seq![items[at]])
            + kept_signatures(items.skip(at + 1)),
        kept_methods(items) == kept_methods(items.take(at)) + kept_methods(seq![items[at]])
            + kept_methods(items.skip(at + 1)),
        items_warnings(items) == items_warnings(items.take(at)) + items_warnings(seq![items[at]])
            + items_warnings(items.skip(at + 1)),
        items_errors(items) == items_errors(items.take(at)) + items_errors(seq![items[at]])
            + items_errors(items.skip(at + 1)),
        kept_count(items) == kept_count(items.take(at)) + kept_count(seq![items[at]])
            + kept_count(items.skip(at + 1)),
{
    let before = items.take(at);
    let one = seq![items[at]];
    let after = items.skip(at + 1);
    assert(items =~= (before + one) + after);
    lemma_items_concat(before, one);
    lemma_items_concat(before + one, after);
}

/// Each item that has a value goes to exactly one of the two lists, and the
/// lists keep the order of the items. Taken apart at any item: the signatures
/// are those of the items before it, then its own if it gives one, then
/// those of the items after it; and so for the methods. An item with a value
/// gives one entry to one list and nothing to the other, and an item without
/// a value gives nothing to either.
pub proof fn lemma_partition<F>(items: Seq<BodyItem<F>>, at: int)
    requires
        0 <= at < items.len(),
    ensures
        kept_signatures(items) == kept_signatures(items.take(at)) + items[at].signatures()
            + kept_signatures(items.skip(at + 1)),
        kept_methods(items) == kept_methods(items.take(at)) + items[at].methods() + kept_methods(
            items.skip(at + 1),
        ),
        items[at].is_kept() ==> items[at].signatures().len() + items[at].methods().len() == 1,
        !items[at].is_kept() ==> items[at].signatures().len() + items[at].methods().len() == 0,
        items[at] is Signature ==> items[at].methods().len() == 0,
        items[at] is Method ==> items[at].signatures().len() == 0,
{
    lemma_items_split(items, at);
    lemma_items_single(items[at]);
}

/// The two lists together hold as many entries as there are items with a
/// value, which is no more than there are items.
pub proof fn lemma_kept_lengths<F>(items: Seq<BodyItem<F>>)
    ensures
        kept_signatures(items).len() + kept_methods(items).len() == kept_count(items),
        kept_count(items) <= items.len(),
    decreases items.len(),
{
    if items.len() > 0 {
        lemma_kept_lengths(items.drop_last());
    }
}

/// If every item has a value, as many are kept as there are.
pub proof fn lemma_all_kept<F>(items: Seq<BodyItem<F>>)
    requires
        forall|k: int| 0 <= k < items.len() ==> (#[trigger] items[k]).is_kept(),
    ensures
        kept_count(items) == items.len(),
    decreases items.len(),
{
    if items.len() > 0 {
        lemma_all_kept(items.drop_last());
    }
}

/// If the item at `failed` is the only one without a value, the two lists
/// together hold one entry less than there are items; and if that item
/// reported an error, the errors of the items are not empty.
pub proof fn lemma_skip_on_failure<F>(items: Seq<BodyItem<F>>, failed: int)
    requires
        0 <= failed < items.len(),
        !items[failed].is_kept(),
        forall|k: int| 0 <= k < items.len() && k != failed ==> (#[trigger] items[k]).is_kept(),
    ensures
        kept_signatures(items).len() + kept_methods(items).len() == items.len() - 1,
        items[failed].errors().len() > 0 ==> items_errors(items).len() > 0,
{
    lemma_items_split(items, failed);
    lemma_items_single(items[failed]);
    lemma_all_kept(items.take(failed));
    lemma_all_kept(items.skip(failed + 1));
    lemma_kept_lengths(items);
}

} // verus!
