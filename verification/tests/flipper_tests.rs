use flipper::gate::decodes;
use flipper::gate::receipt_accepted;
use flipper::Flipper;

// A word sequence that decodes to a structured receipt but cannot verify
// against any image id: a development-only receipt carrying no proof, with
// a pruned claim digest, an empty journal, and matching verifier parameters.
fn decodable_unprovable_words() -> Vec<u32> {
    let mut words: Vec<u32> = Vec::new();
    // Receipt.inner: the variant carrying no cryptographic seal.
    words.push(3);
    // FakeReceipt.claim: a pruned claim, followed by its 8-word digest.
    words.push(1);
    for _ in 0..8 {
        words.push(0);
    }
    // Receipt.journal: zero bytes.
    words.push(0);
    // Receipt.metadata.verifier_parameters: the 8-word digest such a
    // seal-less receipt reports for itself.
    for _ in 0..8 {
        words.push(0);
    }
    words
}

#[test]
fn construction_honors_initial_value() {
    assert_eq!(Flipper::new(false).get(), false);
    assert_eq!(Flipper::new(true).get(), true);
}

#[test]
fn default_works() {
    let flipper = Flipper::default();
    assert_eq!(flipper.get(), false);
}

#[test]
fn get_is_idempotent() {
    let flipper = Flipper::new(true);
    let first = flipper.get();
    let second = flipper.get();
    assert_eq!(first, second);
    assert_eq!(flipper.get(), true);
}

#[test]
fn empty_input_is_no_op() {
    let mut flipper = Flipper::new(false);
    flipper.flip(vec![]);
    assert_eq!(flipper.get(), false);

    let mut flipper = Flipper::new(true);
    flipper.flip(vec![]);
    assert_eq!(flipper.get(), true);
}

#[test]
fn undecodable_input_is_no_op() {
    // An out-of-range variant tag: decoding fails on the first word.
    let mut flipper = Flipper::new(false);
    flipper.flip(vec![u32::MAX, u32::MAX, u32::MAX]);
    assert_eq!(flipper.get(), false);

    // A truncated stream: decoding runs out of words.
    let mut flipper = Flipper::new(true);
    flipper.flip(vec![3]);
    assert_eq!(flipper.get(), true);
}

#[test]
fn gate_rejects_what_does_not_decode() {
    let image_id: [u32; 8] = [1, 2, 3, 4, 5, 6, 7, 8];
    let empty: Vec<u32> = vec![];
    assert!(!decodes(&empty));
    assert!(!receipt_accepted(&empty, &image_id));

    let garbage: Vec<u32> = vec![u32::MAX, 0, 17];
    assert!(!decodes(&garbage));
    assert!(!receipt_accepted(&garbage, &image_id));
}

#[test]
fn decodable_receipt_without_proof_is_rejected() {
    let words = decodable_unprovable_words();
    assert!(decodes(&words));
    let image_id: [u32; 8] = [1, 2, 3, 4, 5, 6, 7, 8];
    assert!(!receipt_accepted(&words, &image_id));
}

#[test]
fn rejected_receipt_leaves_flag_unchanged() {
    // A receipt that decodes but does not prove the expected program: the
    // transition is a silent no-op.
    let mut flipper = Flipper::new(false);
    flipper.flip(decodable_unprovable_words());
    assert_eq!(flipper.get(), false);

    let mut flipper = Flipper::new(true);
    flipper.flip(decodable_unprovable_words());
    assert_eq!(flipper.get(), true);
}
