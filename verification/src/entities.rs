//! Entity decoding of extracted text, done by htmlescape behind a named,
//! trusted wrapper.

use vstd::prelude::*;

verus! {

/// What htmlescape's decoder yields for a string: the text with entity
/// escapes replaced, or a description of the decode error.
pub uninterp spec fn html_entity_decode(s: Seq<char>) -> Result<Seq<char>, Seq<char>>;

/// Relies on htmlescape's decode_html: replacing entity escapes is a function
/// of the input string alone.
#[verifier::external_body]
pub fn decode_entities(s: &str) -> (r: Result<String, String>)
    ensures
        match r {
            Ok(t) => html_entity_decode(s@) == Ok::<Seq<char>, Seq<char>>(t@),
            Err(d) => html_entity_decode(s@) == Err::<Seq<char>, Seq<char>>(d@),
        },
{
    match htmlescape::decode_html(s) {
        Ok(t) => Ok(t),
        Err(e) => Err(format!("{:?}", e)),
    }
}

} // verus!
