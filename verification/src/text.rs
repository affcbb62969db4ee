//! Entity decoding for user-facing text fields.

use vstd::prelude::*;

verus! {

/// What `html_escape::decode_html_entities` returns for a given text: named
/// and numeric character references replaced by their literal characters.
/// The result depends on the characters of the input alone.
pub uninterp spec fn decoded(s: Seq<char>) -> Seq<char>;

/// Relies on `html_escape::decode_html_entities`: decodes HTML/XML character
/// references; a pure function of the input text, named `decoded` here. A
/// character reference always starts with `'&'`, so text without that
/// character comes back unchanged; decoding is therefore idempotent on
/// already-decoded entity-free text.
#[verifier::external_body]
pub(crate) fn decode_text(input: &str) -> (r: String)
    ensures
        r@ == decoded(input@),
        (forall|i: int| 0 <= i < input@.len() ==> input@[i] != '&') ==> r@ == input@,
{
    html_escape::decode_html_entities(input).to_string()
}

} // verus!
