//! Receipt decoding and the proof-verification gate.
//!
//! A transition request arrives as a flat sequence of 32-bit words. The
//! decoder rebuilds a proof receipt out of the words, and the verification
//! step decides whether that receipt proves correct execution of
//! the one program identified by a fixed image id. Both steps are
//! deterministic, and both failures are ordinary outcomes, never panics.

use vstd::prelude::*;

verus! {

/// An opaque proof receipt of the outside proof system. Nothing inside it is
/// inspected here; it is decoded from words and handed to the verifier whole.
#[verifier::external_type_specification]
#[verifier::external_body]
pub struct ExReceipt(risc0_zkvm::Receipt);

/// The receipt, if any, that the outside decoder reconstructs from `words`.
/// Decoding is deterministic, so the result is a function of the words alone.
pub uninterp spec fn decoded_of(words: Seq<u32>) -> Option<risc0_zkvm::Receipt>;

/// Whether `receipt` is a valid proof of correct execution of the program
/// whose image id is `image_id`, as the outside verifier judges it with its
/// standard parameters. The judgement is deterministic, so it is a function
/// of the receipt and the image id alone.
pub uninterp spec fn verify_ok(receipt: risc0_zkvm::Receipt, image_id: Seq<u32>) -> bool;

/// A word sequence is accepted for `image_id` when it decodes to a receipt
/// and that receipt verifies against `image_id`.
pub open spec fn accepted(words: Seq<u32>, image_id: Seq<u32>) -> bool {
    match decoded_of(words) {
        Some(receipt) => verify_ok(receipt, image_id),
        None => false,
    }
}

/// Relies on `risc0_zkvm::serde::from_slice`: deterministic reconstruction of
/// a receipt from a flat word sequence. Malformed input yields an error value,
/// not a panic, and an empty input fails outright, since decoding any receipt
/// reads at least one word.
#[verifier::external_body]
fn decode_receipt(words: &Vec<u32>) -> (r: Option<risc0_zkvm::Receipt>)
    ensures
        r == decoded_of(words@),
        words@.len() == 0 ==> r is None,
{
    risc0_zkvm::serde::from_slice::<risc0_zkvm::Receipt, u32>(words.as_slice()).ok()
}

/// Relies on `risc0_zkvm::Receipt::verify_with_context`, called with the
/// verifier's default hash suites and parameters and with dev mode pinned
/// off, so that the verdict depends on the receipt and the image id alone.
/// Rejection is an error value, never a panic.
#[verifier::external_body]
fn verify_receipt(receipt: &risc0_zkvm::Receipt, image_id: &[u32; 8]) -> (r: bool)
    ensures
        r == verify_ok(*receipt, image_id@),
{
    let ctx = risc0_zkvm::VerifierContext::default().with_dev_mode(false);
    receipt.verify_with_context(&ctx, *image_id).is_ok()
}

/// Reports whether `words` decode to a structured receipt. Decode failure is
/// a first-class outcome: it is reported, not raised.
pub fn decodes(words: &Vec<u32>) -> (r: bool)
    ensures
        r == (decoded_of(words@) is Some),
        words@.len() == 0 ==> !r,
{
    decode_receipt(words).is_some()
}

/// Decodes a receipt from `words` and checks it against `image_id`: true
/// exactly when the words decode and the decoded receipt verifies.
pub fn receipt_accepted(words: &Vec<u32>, image_id: &[u32; 8]) -> (r: bool)
    ensures
        r == accepted(words@, image_id@),
        words@.len() == 0 ==> !r,
{
    match decode_receipt(words) {
        Some(receipt) => verify_receipt(&receipt, image_id),
        None => false,
    }
}

} // verus!
