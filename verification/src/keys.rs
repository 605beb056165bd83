//! Account addresses and transaction signatures in their text form, as
//! `solana_sdk` reads and writes them.

use std::str::FromStr;
use vstd::prelude::*;

verus! {

/// The error of `Pubkey::from_str`, carried through unread.
#[verifier::external_type_specification]
#[verifier::external_body]
pub struct ExParsePubkeyError(solana_sdk::pubkey::ParsePubkeyError);

/// The error of `Signature::from_str`, carried through unread.
#[verifier::external_type_specification]
#[verifier::external_body]
pub struct ExParseSignatureError(solana_sdk::signature::ParseSignatureError);

/// The bytes of the address that `Pubkey::from_str` reads from `text`, and
/// `None` where it reports an error.
pub uninterp spec fn pubkey_bytes(text: Seq<char>) -> Option<Seq<u8>>;

/// The text that `Pubkey`'s `Display` gives for the address of these bytes.
pub uninterp spec fn pubkey_text(bytes: Seq<u8>) -> Seq<char>;

/// The bytes of the signature that `Signature::from_str` reads from `text`,
/// and `None` where it reports an error.
pub uninterp spec fn signature_bytes(text: Seq<char>) -> Option<Seq<u8>>;

/// Calls `Pubkey::from_str` and hands the address out as its bytes
/// (`Pubkey::to_bytes`). Claimed of solana_sdk: the outcome depends on the
/// text alone.
#[verifier::external_body]
pub(crate) fn parse_pubkey(text: &str) -> (r: Result<
    [u8; 32],
    solana_sdk::pubkey::ParsePubkeyError,
>)
    ensures
        match r {
            Ok(bytes) => pubkey_bytes(text@) == Some(bytes@),
            Err(_) => pubkey_bytes(text@) is None,
        },
{
    solana_sdk::pubkey::Pubkey::from_str(text).map(|key| key.to_bytes())
}

/// `ParsePubkeyError`'s description of itself (`Display`), of which nothing
/// is claimed.
#[verifier::external_body]
pub(crate) fn pubkey_error_text(e: &solana_sdk::pubkey::ParsePubkeyError) -> (text: String) {
    e.to_string()
}

/// Makes the `Pubkey` of 32 bytes (`Pubkey::new_from_array`) and writes it
/// as text (`Display`). Claimed of solana_sdk: the text depends on the
/// bytes alone.
#[verifier::external_body]
pub(crate) fn pubkey_to_string(bytes: &[u8; 32]) -> (text: String)
    ensures
        text@ == pubkey_text(bytes@),
{
    solana_sdk::pubkey::Pubkey::new_from_array(*bytes).to_string()
}

/// Calls `Signature::from_str` and hands the signature out as its bytes.
/// Claimed of solana_sdk: the outcome depends on the text alone, and a
/// signature has 64 bytes.
#[verifier::external_body]
pub(crate) fn parse_signature(text: &str) -> (r: Result<
    Vec<u8>,
    solana_sdk::signature::ParseSignatureError,
>)
    ensures
        match r {
            Ok(bytes) => signature_bytes(text@) == Some(bytes@) && bytes@.len() == 64,
            Err(_) => signature_bytes(text@) is None,
        },
{
    solana_sdk::signature::Signature::from_str(text).map(|signature| signature.as_ref().to_vec())
}

/// `ParseSignatureError`'s description of itself (`Display`), of which
/// nothing is claimed.
#[verifier::external_body]
pub(crate) fn signature_error_text(e: &solana_sdk::signature::ParseSignatureError) -> (text:
    String) {
    e.to_string()
}

} // verus!
