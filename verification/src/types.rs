//! The leaves of the typed tree that trait declarations are built from.

use vstd::prelude::*;
use crate::ident::Ident;
use crate::span::Span;
use crate::syntax::SyntaxNode;
use crate::text::{is_pub_keyword, pub_keyword, trim_of, trimmed};

verus! {

/// Whether a declaration can be named from outside its module.
#[derive(Debug, Clone, Copy, PartialEq, Eq, Structural)]
pub enum Visibility {
    Public,
    Private,
}

impl Visibility {
    /// What a visibility modifier with the source text `text` declares: public
    /// if the text, without the whitespace around it, is `pub`.
    pub open spec fn declared_by(text: Seq<char>) -> Visibility {
        if trim_of(text) == pub_keyword() {
            Visibility::Public
        } else {
            Visibility::Private
        }
    }

    /// Lowers a visibility modifier.
    pub fn parse_from_pair(pair: &SyntaxNode) -> (visibility: Visibility)
        ensures
            visibility == Visibility::declared_by(pair.text@),
    {
        if is_pub_keyword(trimmed(pair.as_str())) {
            Visibility::Public
        } else {
            Visibility::Private
        }
    }
}

/// The width of an unsigned integer type.
#[derive(Debug, Clone, Copy, PartialEq, Eq, Structural)]
pub enum IntegerBits {
    Eight,
    Sixteen,
    ThirtyTwo,
    SixtyFour,
}

/// The index under which a type is registered with the type engine.
pub type TypeId = usize;

/// A type, as far as the source text says what it is.
#[derive(Debug, Clone, PartialEq, Eq)]
pub enum TypeInfo {
    Boolean,
    UnsignedInteger(IntegerBits),
    Str(u64),
    Custom { name: String },
    SelfType,
    /// A tuple of the types registered under these indices; with none, the
    /// type of a function that returns nothing.
    Tuple(Vec<TypeId>),
    /// Stands in for a type that could not be lowered, so that what contains
    /// it can still be built.
    ErrorRecovery,
}

impl TypeInfo {
    /// Whether this is the tuple type without fields.
    pub open spec fn is_empty_tuple(&self) -> bool {
        self matches TypeInfo::Tuple(fields) && fields@.len() == 0
    }

    /// The tuple type without fields.
    pub fn empty_tuple() -> (unit: TypeInfo)
        ensures
            unit.is_empty_tuple(),
    {
        TypeInfo::Tuple(Vec::new())
    }
}

/// One parameter of a function: its name and its type, with the place where
/// the type was written.
#[derive(Debug, Clone, PartialEq, Eq)]
pub struct FunctionParameter {
    pub name: Ident,
    pub type_info: TypeInfo,
    pub type_span: Span,
}

/// One generic parameter of a declaration, with the traits that its where
/// clause asks of it.
#[derive(Debug, Clone, PartialEq, Eq)]
pub struct TypeParameter {
    pub name: Ident,
    pub trait_constraints: Vec<Ident>,
}

} // verus!
