//! Source text: trimming and the one keyword that lowering compares against.

use vstd::prelude::*;

verus! {

/// `text` without its leading and trailing whitespace, as `str::trim` of the
/// standard library removes it. Which characters count as whitespace is the
/// Unicode property `White_Space`, which this crate does not spell out.
pub uninterp spec fn trim_of(text: Seq<char>) -> Seq<char>;

/// Calls `str::trim`. Trusted: the characters of the result are [`trim_of`]
/// applied to the characters of `text`.
#[verifier::external_body]
pub(crate) fn trimmed(text: &str) -> (t: &str)
    ensures
        t@ == trim_of(text@),
{
    text.trim()
}

/// The characters of the keyword that marks a declaration as public.
pub open spec fn pub_keyword() -> Seq<char> {
    seq!['p', 'u', 'b']
}

/// Whether `text` is exactly the keyword `pub`.
pub fn is_pub_keyword(text: &str) -> (b: bool)
    ensures
        b == (text@ == pub_keyword()),
{
    if text.unicode_len() != 3 {
        return false;
    }
    let b = text.get_char(0) == 'p' && text.get_char(1) == 'u' && text.get_char(2) == 'b';
    proof {
        if b {
            assert(text@ =~= pub_keyword());
        }
    }
    b
}

} // verus!
