//! Base58 text of byte strings, as the `bs58` crate reads and writes it
//! with its default alphabet.

use vstd::prelude::*;

verus! {

/// The error of `bs58`'s decoder, carried through unread.
#[verifier::external_type_specification]
#[verifier::external_body]
pub struct ExDecodeError(bs58::decode::Error);

/// The text that `bs58::encode(bytes).into_string()` gives for `bytes`.
pub uninterp spec fn base58_text(bytes: Seq<u8>) -> Seq<char>;

/// The bytes that `bs58::decode(text).into_vec()` gives for `text`, and
/// `None` where it reports an error.
pub uninterp spec fn base58_bytes(text: Seq<char>) -> Option<Seq<u8>>;

/// Calls `bs58::encode(..).into_string()`. Claimed of bs58: the text
/// depends on the bytes alone, and the call returns for every input.
#[verifier::external_body]
pub(crate) fn to_base58(bytes: &Vec<u8>) -> (text: String)
    ensures
        text@ == base58_text(bytes@),
{
    bs58::encode(bytes).into_string()
}

/// Calls `bs58::decode(..).into_vec()`. Claimed of bs58: whether it
/// succeeds, and with which bytes, depends on the text alone.
#[verifier::external_body]
pub(crate) fn from_base58(text: &str) -> (r: Result<Vec<u8>, bs58::decode::Error>)
    ensures
        match r {
            Ok(bytes) => base58_bytes(text@) == Some(bytes@),
            Err(_) => base58_bytes(text@) is None,
        },
{
    bs58::decode(text).into_vec()
}

/// The decoder's own description of its error (`Display`), of which nothing
/// is claimed.
#[verifier::external_body]
pub(crate) fn decode_error_text(e: &bs58::decode::Error) -> (text: String) {
    e.to_string()
}

} // verus!
