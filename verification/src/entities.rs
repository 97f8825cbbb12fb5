//! HTML entities, decoded by the `html-escape` crate.

use vstd::prelude::*;

verus! {

/// What `html_escape::decode_html_entities` makes of a text that holds an
/// ampersand: every named or numeric character reference that ends in `;`
/// replaced by what it stands for, the rest left as it is.
pub uninterp spec fn references_replaced(text: Seq<char>) -> Seq<char>;

/// A text with its HTML entities decoded. The decoder looks for entities only
/// where an ampersand stands, so a text without one is its own decoding.
pub open spec fn decoded(text: Seq<char>) -> Seq<char> {
    if text.contains('&') {
        references_replaced(text)
    } else {
        text
    }
}

/// Calls `html_escape::decode_html_entities`. The contract names the result,
/// which depends on the text alone, and states the one thing the crate relies
/// on: the decoder's search skips every byte that is not `&`, and a text in
/// which it finds no entity is handed back unchanged.
#[verifier::external_body]
fn decode_html_entities(text: &str) -> (plain: String)
    ensures
        text@.contains('&') ==> plain@ == references_replaced(text@),
        !text@.contains('&') ==> plain@ == text@,
{
    html_escape::decode_html_entities(text).into_owned()
}

/// Decodes the HTML entities in a text: `&amp;` becomes `&`, `&#39;` becomes
/// `'`, and so on.
pub fn decode(text: &str) -> (plain: String)
    ensures
        plain@ == decoded(text@),
{
    decode_html_entities(text)
}

/// Decoding leaves a text without an ampersand as it is.
pub proof fn decoding_keeps_text_without_ampersand(text: Seq<char>)
    requires
        !text.contains('&'),
    ensures
        decoded(text) == text,
{
}

/// Decoding is idempotent on every text whose decoding holds no ampersand:
/// what has been decoded once is not changed by decoding it again.
pub proof fn decoding_twice_is_decoding_once(text: Seq<char>)
    requires
        !decoded(text).contains('&'),
    ensures
        decoded(decoded(text)) == decoded(text),
{
}

} // verus!
