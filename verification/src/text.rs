//! Text helpers of the standard library that the configuration needs.

use vstd::prelude::*;

verus! {

/// Whether a character is whitespace, as `char::is_whitespace` tells: whether
/// it has the Unicode property `White_Space`.
pub uninterp spec fn white_space(c: char) -> bool;

/// A text without the whitespace it starts with.
pub open spec fn trim_start(s: Seq<char>) -> Seq<char>
    decreases s.len(),
{
    if s.len() > 0 && white_space(s.first()) {
        trim_start(s.drop_first())
    } else {
        s
    }
}

/// A text without the whitespace it ends with.
pub open spec fn trim_end(s: Seq<char>) -> Seq<char>
    decreases s.len(),
{
    if s.len() > 0 && white_space(s.last()) {
        trim_end(s.drop_last())
    } else {
        s
    }
}

/// A text without the whitespace at either end.
pub open spec fn trimmed(s: Seq<char>) -> Seq<char> {
    trim_end(trim_start(s))
}

/// `str::trim`: the text without its leading and trailing whitespace, which
/// is what `char::is_whitespace` holds of. Nothing is proved here.
#[verifier::external_body]
pub(crate) fn trim<'a>(s: &'a str) -> (res: &'a str)
    ensures
        res@ == trimmed(s@),
        res@.len() > 0 ==> !white_space(res@.first()) && !white_space(res@.last()),
{
    s.trim()
}

} // verus!
