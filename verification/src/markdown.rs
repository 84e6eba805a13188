//! Escaping of text that is shown in MarkdownV2, which `teloxide` does.

use vstd::prelude::*;

verus! {

/// The characters that MarkdownV2 reads as markup.
pub open spec fn is_reserved(c: char) -> bool {
    c == '_' || c == '*' || c == '[' || c == ']' || c == '(' || c == ')' || c == '~' || c == '`'
        || c == '>' || c == '#' || c == '+' || c == '-' || c == '=' || c == '|' || c == '{' || c
        == '}' || c == '.' || c == '!'
}

/// `text` with a backslash in front of every reserved character.
pub open spec fn escaped(text: Seq<char>) -> Seq<char>
    decreases text.len(),
{
    if text.len() == 0 {
        Seq::empty()
    } else if is_reserved(text.last()) {
        escaped(text.drop_last()).push('\\').push(text.last())
    } else {
        escaped(text.drop_last()).push(text.last())
    }
}

/// Escapes with `teloxide::utils::markdown::escape`.
///
/// The contract claims that the result is the text with a backslash put in
/// front of each of the eighteen reserved characters and nothing else
/// changed. A backslash in the text is itself left alone.
#[verifier::external_body]
pub(crate) fn escape(text: &str) -> (r: String)
    ensures
        r@ == escaped(text@),
{
    teloxide::utils::markdown::escape(text)
}

} // verus!
