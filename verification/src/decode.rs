//! Percent-decoding of tag attribute values, done by the `percent-encoding`
//! crate. The decoded text is a function of the input characters alone, so it
//! is given a name here and contracts elsewhere speak of that name.

use vstd::prelude::*;

verus! {

pub uninterp spec fn percent_decoded(s: Seq<char>) -> Option<Seq<char>>;

/// Relies on `percent_encoding::percent_decode_str` followed by
/// `PercentDecode::decode_utf8`: every `%` followed by two hex digits becomes
/// the byte they denote, every other byte stays, and the result is read back
/// as UTF-8, failing exactly when those bytes are not valid UTF-8. The
/// outcome depends on the input characters alone.
#[verifier::external_body]
pub(crate) fn percent_decode_chars(v: &Vec<char>) -> (r: Option<Vec<char>>)
    ensures
        r is Some <==> percent_decoded(v@) is Some,
        r matches Some(d) ==> percent_decoded(v@) == Some(d@),
{
    let s: String = v.iter().collect();
    match percent_encoding::percent_decode_str(&s).decode_utf8() {
        Ok(decoded) => Some(decoded.chars().collect()),
        Err(_) => None,
    }
}

} // verus!
