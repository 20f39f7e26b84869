//! Lowering of trait declarations: from the syntax tree that a grammar
//! produces to a typed tree, with warnings and errors collected on the way.
//!
//! A trait declaration and the signatures in it are lowered here. Names,
//! types, parameter lists, generic parameters and methods with a body are
//! lowered by collaborators, which the caller hands over as functions in a
//! [`lowerers::Lowerers`]. Nothing stops at the first problem: every lowering
//! returns an [`error::CompileResult`], and a part that cannot be lowered is
//! replaced or left out while what it reported is kept.
//!
//! The modules, from the ground up:
//!
//! - [`span`], [`ident`], [`types`]: the leaves of the typed tree;
//! - [`syntax`]: the syntax tree, and [`pairs`], which reads it from `pest`;
//! - [`text`]: the little that is done to source text;
//! - [`error`]: diagnostics and how they are passed upwards;
//! - [`lowerers`]: the collaborators;
//! - [`trait_fn`]: signatures;
//! - [`trait_header`], [`trait_body`], [`trait_declaration`]: declarations.
//!
//! What a lowering returns depends on what the collaborators return, and
//! nothing is known of that here. So the contracts say: there is something
//! that the collaborators may have returned on the nodes handed to them, and
//! the result is what belongs to that. `TraitFn::lowering` and
//! `TraitDeclaration::lowering` say what belongs to what, and the lemmas next
//! to them say what follows for every result.

pub mod error;
pub mod ident;
pub mod lowerers;
pub mod pairs;
pub mod span;
pub mod syntax;
pub mod text;
pub mod trait_body;
pub mod trait_declaration;
pub mod trait_fn;
pub mod trait_header;
pub mod types;
