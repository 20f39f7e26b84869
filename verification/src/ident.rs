//! Identifiers.

use vstd::prelude::*;
use crate::span::Span;

verus! {

/// A name in the program, with the place where it was written.
#[derive(Debug, PartialEq, Eq)]
pub struct Ident {
    pub name: String,
    pub span: Span,
}

impl Clone for Ident {
    fn clone(&self) -> (copy: Self)
        ensures
            copy == *self,
    {
        Ident { name: self.name.clone(), span: self.span.clone() }
    }
}

impl Ident {
    /// The text of the name.
    pub fn as_str(&self) -> (text: &str)
        ensures
            text@ == self.name@,
    {
        self.name.as_str()
    }

    /// Where the name was written.
    pub fn span(&self) -> (span: &Span)
        ensures
            *span == self.span,
    {
        &self.span
    }
}

} // verus!
