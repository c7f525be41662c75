//! The preimage of a commitment.
//!
//! The store never sees the amount, the token or the recipient of a payment.
//! Whoever records a payment hashes them, with the claim and a random nonce,
//! into the commitment; whoever later holds the same plaintext rebuilds the
//! preimage, hashes it with SHA-256 and compares the digest with the stored
//! commitment, byte for byte.

use vstd::prelude::*;
use vstd::string::{StrSliceExecFns, StringExecFns};
use vstd::utf8::encode_utf8;

verus! {

/// The text that is hashed: the seven fields in this order, one newline
/// between each two, an absent recipient as the empty string.
pub open spec fn preimage_text(
    claim_id: Seq<char>,
    execution_ref: Seq<char>,
    amount: Seq<char>,
    token_symbol: Seq<char>,
    token_chain: Seq<char>,
    recipient_id: Option<Seq<char>>,
    nonce_hex: Seq<char>,
) -> Seq<char> {
    let recipient = match recipient_id {
        Some(id) => id,
        None => Seq::empty(),
    };
    claim_id + seq!['\n'] + execution_ref + seq!['\n'] + amount + seq!['\n'] + token_symbol
        + seq!['\n'] + token_chain + seq!['\n'] + recipient + seq!['\n'] + nonce_hex
}

/// The canonical preimage of a commitment: the UTF-8 bytes of
/// `preimage_text`. `amount` is the amount in decimal, `nonce_hex` the random
/// nonce of the commitment in lower-case hexadecimal; both are taken as
/// given.
pub fn canonical_preimage(
    claim_id: &str,
    execution_ref: &str,
    amount: &str,
    token_symbol: &str,
    token_chain: &str,
    recipient_id: Option<&str>,
    nonce_hex: &str,
) -> (bytes: Vec<u8>)
    ensures
        bytes@ == encode_utf8(
            preimage_text(
                claim_id@,
                execution_ref@,
                amount@,
                token_symbol@,
                token_chain@,
                recipient_id.deep_view(),
                nonce_hex@,
            ),
        ),
{
    proof {
        reveal_strlit("\n");
    }
    let mut text = String::new();
    text.append(claim_id);
    text.append("\n");
    text.append(execution_ref);
    text.append("\n");
    text.append(amount);
    text.append("\n");
    text.append(token_symbol);
    text.append("\n");
    text.append(token_chain);
    text.append("\n");
    match recipient_id {
        Some(id) => text.append(id),
        None => {},
    }
    text.append("\n");
    text.append(nonce_hex);
    assert(text@ =~= preimage_text(
        claim_id@,
        execution_ref@,
        amount@,
        token_symbol@,
        token_chain@,
        recipient_id.deep_view(),
        nonce_hex@,
    ));
    text.as_str().as_bytes_vec()
}

} // verus!
