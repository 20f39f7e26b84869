//! The lowerings that this crate calls but does not define.

use vstd::prelude::*;

verus! {

/// The collaborators of trait lowering. Each field is a function:
///
/// - `ident` lowers a name node to an identifier;
/// - `is_upper_camel_case` and `is_snake_case` judge the text of a name;
/// - `type_parameters` lowers the generic parameter list and the where clause
///   of a declaration, either of which may be missing;
/// - `parameters` lowers the children of a parameter list;
/// - `type_info` lowers a type;
/// - `function` lowers a method that has a body.
///
/// The lowerings in this crate say what they return in terms of what these
/// functions returned, whatever that was.
pub struct Lowerers<LI, UC, SC, LG, LP, LT, LF> {
    pub ident: LI,
    pub is_upper_camel_case: UC,
    pub is_snake_case: SC,
    pub type_parameters: LG,
    pub parameters: LP,
    pub type_info: LT,
    pub function: LF,
}

} // verus!
