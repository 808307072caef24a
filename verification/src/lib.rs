//! A minimal proof-gated state machine: one persisted boolean flag whose only
//! transition is gated by verification of a zero-knowledge proof receipt
//! against a fixed, known-good program image id. A caller submits a receipt as
//! a flat sequence of 32-bit words; the flag is negated exactly when the words
//! decode to a receipt that the proof system accepts for that program, and is
//! left untouched otherwise. Neither decode failure nor verification failure
//! is surfaced to the caller: the only observable effect is whether the flag
//! changed.

use vstd::prelude::*;

pub mod gate;

use crate::gate::accepted;
use crate::gate::decoded_of;
use crate::gate::receipt_accepted;
use crate::gate::verify_ok;

verus! {

/// The flag after one transition on `words`: negated when the words are
/// accepted for `image_id`, unchanged otherwise.
pub open spec fn flip_result(value: bool, words: Seq<u32>, image_id: Seq<u32>) -> bool {
    if accepted(words, image_id) {
        !value
    } else {
        value
    }
}

/// Words that decode to a receipt which verifies against `image_id` flip the
/// flag to its negation: an accepted transition changes it exactly once.
pub proof fn lemma_accepted_flips(value: bool, words: Seq<u32>, image_id: Seq<u32>)
    requires
        decoded_of(words) matches Some(receipt) && verify_ok(receipt, image_id),
    ensures
        flip_result(value, words, image_id) == !value,
{
}

/// Words that fail to decode, or decode to a receipt that fails verification
/// against `image_id`, leave the flag unchanged.
pub proof fn lemma_rejected_is_no_op(value: bool, words: Seq<u32>, image_id: Seq<u32>)
    requires
        decoded_of(words) is None || (decoded_of(words) matches Some(receipt)
            && !verify_ok(receipt, image_id)),
    ensures
        flip_result(value, words, image_id) == value,
{
}

/// Two consecutive accepted transitions, each with its own valid receipt,
/// return the flag to its original value.
pub proof fn lemma_double_flip_restores(
    value: bool,
    first: Seq<u32>,
    second: Seq<u32>,
    image_id: Seq<u32>,
)
    requires
        accepted(first, image_id),
        accepted(second, image_id),
    ensures
        flip_result(flip_result(value, first, image_id), second, image_id) == value,
{
}

/// The fixed fingerprint of the one program whose proofs this deployment
/// accepts. It never changes at runtime and is not exposed for inspection.
pub closed spec fn expected_image_id() -> Seq<u32> {
    seq![
        3551133925u32,
        2234817314u32,
        2371648417u32,
        2966256475u32,
        711591402u32,
        3149304623u32,
        1597102258u32,
        534273939u32,
    ]
}

/// The fixed fingerprint as an array of words, ready for verification.
fn expected_image_id_words() -> (r: [u32; 8])
    ensures
        r@ == expected_image_id(),
{
    let r: [u32; 8] = [
        3551133925u32,
        2234817314u32,
        2371648417u32,
        2966256475u32,
        711591402u32,
        3149304623u32,
        1597102258u32,
        534273939u32,
    ];
    r
}

/// A single persisted boolean flag, the whole state of the machine. It is
/// created with a caller-supplied value and thereafter mutated only by the
/// proof-gated transition.
pub struct Flipper {
    value: bool,
}

impl Flipper {
    /// The current value of the persisted flag, as contracts see it.
    pub closed spec fn spec_value(&self) -> bool {
        self.value
    }

    /// Creates an instance whose flag holds `init_value`.
    pub fn new(init_value: bool) -> (r: Self)
        ensures
            r.spec_value() == init_value,
    {
        Flipper { value: init_value }
    }

    /// Returns the current value of the flag; reading never changes it.
    pub fn get(&self) -> (r: bool)
        ensures
            r == self.spec_value(),
    {
        self.value
    }

    /// The proof-gated transition. Decodes a receipt from `receipt_words` and
    /// verifies it against the fixed expected image id; the flag is negated
    /// exactly when both steps succeed, and is left unchanged otherwise — in
    /// particular on empty input. The call itself always returns: decode and
    /// verification failures are absorbed, never raised.
    pub fn flip(&mut self, receipt_words: Vec<u32>)
        ensures
            final(self).spec_value() == flip_result(
                old(self).spec_value(),
                receipt_words@,
                expected_image_id(),
            ),
            receipt_words@.len() == 0 ==> final(self).spec_value() == old(self).spec_value(),
    {
        let image_id = expected_image_id_words();
        if receipt_accepted(&receipt_words, &image_id) {
            self.value = !self.value;
        }
    }
}

impl Default for Flipper {
    /// An instance whose flag starts false.
    fn default() -> (r: Self)
        ensures
            r.spec_value() == false,
    {
        Flipper { value: false }
    }
}

} // verus!
