//! What the library needs of the standard library's texts beyond what is
//! specified elsewhere.

use vstd::prelude::*;
use vstd::string::StringExecFns;

verus! {

/// `str`'s `==` holds of two texts that are the same sequence of
/// characters, and of no others.
pub assume_specification[ <str as PartialEq>::eq ](a: &str, b: &str) -> (r: bool)
    ensures
        r == (a@ == b@),
;

/// `String::push` appends one character at the end of the string.
pub assume_specification[ String::push ](s: &mut String, c: char)
    ensures
        final(s)@ == old(s)@.push(c),
;

/// `head` followed by `tail`.
pub(crate) fn joined(head: &str, tail: &str) -> (r: String)
    ensures
        r@ == head@ + tail@,
{
    let mut text = String::from_str(head);
    text.append(tail);
    text
}

/// Two texts that hold different characters at one place are different
/// texts.
pub(crate) proof fn lemma_texts_differ(a: Seq<char>, b: Seq<char>, at: int)
    requires
        0 <= at < a.len(),
        0 <= at < b.len(),
        a[at] != b[at],
    ensures
        a != b,
{
}

} // verus!
