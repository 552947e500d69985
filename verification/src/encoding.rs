//! The textual form of a key's bytes.

use vstd::prelude::*;

verus! {

/// The Base58 text of `bytes` in the Bitcoin alphabet.
pub uninterp spec fn base58_text(bytes: Seq<u8>) -> Seq<char>;

/// `bs58::encode` on `bytes`, collected by `into_string`: the encoding reads
/// nothing but its input, so the text is the one that `base58_text` names.
#[verifier::external_body]
pub(crate) fn base58(bytes: &[u8]) -> (text: String)
    ensures
        text@ == base58_text(bytes@),
{
    bs58::encode(bytes).into_string()
}

} // verus!
