use vstd::prelude::*;

use base64::Engine;

verus! {

/// What `base64`'s standard-alphabet decode yields for a given string:
/// `None` when the text is not valid base64, otherwise the decoded bytes.
/// Decoding is a pure function of the text alone.
pub uninterp spec fn base64_decoded(s: Seq<char>) -> Option<Seq<u8>>;

/// Relies on `base64::engine::general_purpose::STANDARD.decode`: decoding
/// depends on the input text alone, and an empty input decodes to no bytes.
#[verifier::external_body]
pub(crate) fn base64_decode(s: &str) -> (r: Option<Vec<u8>>)
    ensures
        r is Some <==> base64_decoded(s@) is Some,
        r is Some ==> base64_decoded(s@) == Some(r->0@),
        s@.len() == 0 ==> (r is Some && r->0@.len() == 0),
{
    match base64::engine::general_purpose::STANDARD.decode(s) {
        Ok(v) => Some(v),
        Err(_) => None,
    }
}

} // verus!
