//! The few questions the demos ask about text.

use vstd::prelude::*;

verus! {

/// Whether `c` is white space in the sense of `char::is_whitespace`.
pub uninterp spec fn white_space(c: char) -> bool;

/// `char::is_whitespace`: the answer depends on the character alone, and
/// `white_space` is the name for it. Which characters count is not stated
/// here.
pub assume_specification[ char::is_whitespace ](c: char) -> (b: bool)
    ensures
        b == white_space(c),
;

/// The upper-case form of `c` in the sense of `char::to_uppercase`: one
/// character for most, several for a few.
pub uninterp spec fn upper_case(c: char) -> Seq<char>;

/// `char::to_uppercase`, with the characters it yields gathered in order.
/// The result depends on the character alone, and `upper_case` is the name
/// for it.
#[verifier::external_body]
pub(crate) fn to_upper(c: char) -> (upper: Vec<char>)
    ensures
        upper@ == upper_case(c),
{
    c.to_uppercase().collect()
}

/// `String::push`: appends one character and changes nothing else.
pub assume_specification[ String::push ](s: &mut String, c: char)
    ensures
        final(s)@ == old(s)@.push(c),
;

/// Whether every character of `text` is white space; true of the empty
/// text.
pub open spec fn blank(text: Seq<char>) -> bool {
    forall|i: int| 0 <= i < text.len() ==> white_space(#[trigger] text[i])
}

/// Tells whether `text` holds nothing but white space.
pub fn is_blank(text: &str) -> (b: bool)
    ensures
        b == blank(text@),
{
    broadcast use vstd::string::axiom_spec_iter;

    for c in it: text.chars()
        invariant
            it.seq() == text@,
            forall|k: int| 0 <= k < it.index() ==> white_space(#[trigger] text@[k]),
    {
        if !c.is_whitespace() {
            return false;
        }
    }
    true
}

} // verus!
