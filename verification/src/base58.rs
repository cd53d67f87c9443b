//! Base58 decoding of account identifiers, through the `bs58` crate.

use vstd::prelude::*;

verus! {

/// The bytes that a Base58 text decodes to, when it is valid Base58 of the
/// Bitcoin alphabet; decoding is a function of the input bytes alone.
pub uninterp spec fn base58_decoded(s: Seq<u8>) -> Option<Seq<u8>>;

/// Relies on `bs58::decode(..).into_vec()` with the default (Bitcoin)
/// alphabet: it returns the decoded bytes for valid Base58 input and an
/// error otherwise, and depends on the input bytes alone.
#[verifier::external_body]
pub fn decode_base58(v: &Vec<u8>) -> (r: Option<Vec<u8>>)
    ensures
        r is Some == base58_decoded(v@) is Some,
        r is Some ==> r.unwrap()@ == base58_decoded(v@).unwrap(),
{
    match bs58::decode(v.as_slice()).into_vec() {
        Ok(bytes) => Some(bytes),
        Err(_) => None,
    }
}

} // verus!
