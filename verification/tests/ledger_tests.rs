use ed25519_dalek::{Signer, SigningKey};

use parallax_ledger::errors::ErrorCode;
use parallax_ledger::keys::{Pubkey, Signature};
use parallax_ledger::message::canonical_message;
use parallax_ledger::quorum::verify_signatures;
use parallax_ledger::results::ResultStore;
use parallax_ledger::system::ParallaxLedger;

fn signing_key(seed: u8) -> SigningKey {
    SigningKey::from_bytes(&[seed; 32])
}

fn pubkey_of(sk: &SigningKey) -> Pubkey {
    Pubkey {
        bytes: sk.verifying_key().to_bytes().to_vec(),
    }
}

fn sign_message(sk: &SigningKey, msg: &str) -> Signature {
    Signature {
        bytes: sk.sign(msg.as_bytes()).to_bytes().to_vec(),
    }
}

/// Committee of three distinct members A, B, C.
fn committee_abc() -> (Vec<SigningKey>, Vec<Pubkey>) {
    let keys: Vec<SigningKey> = vec![signing_key(1), signing_key(2), signing_key(3)];
    let pks: Vec<Pubkey> = keys.iter().map(pubkey_of).collect();
    (keys, pks)
}

fn fresh_ledger() -> (Vec<SigningKey>, ParallaxLedger) {
    let (keys, pks) = committee_abc();
    let ledger = ParallaxLedger::initialize(pks).unwrap();
    (keys, ledger)
}

#[test]
fn sequential_ids_without_gaps() {
    let (_, mut ledger) = fresh_ledger();
    for expected in 0u64..5 {
        let user = pubkey_of(&signing_key(9));
        let (id, ev) = ledger
            .trigger_inference(user, "llama-7b".to_string(), "prompt".to_string(), 100)
            .unwrap();
        assert_eq!(id, expected);
        assert_eq!(ev.task_id, expected);
    }
}

#[test]
fn long_model_id_rejected_and_no_id_consumed() {
    let (_, mut ledger) = fresh_ledger();
    let user = pubkey_of(&signing_key(9));
    let long_model = "m".repeat(64);
    let r = ledger.trigger_inference(user.clone(), long_model, "hi".to_string(), 1);
    assert_eq!(r.unwrap_err(), ErrorCode::ValidationError);
    // The counter was not consulted: the next submission still gets id 0.
    let (id, _) = ledger
        .trigger_inference(user, "llama-7b".to_string(), "hi".to_string(), 2)
        .unwrap();
    assert_eq!(id, 0);
}

#[test]
fn long_input_rejected() {
    let (_, mut ledger) = fresh_ledger();
    let user = pubkey_of(&signing_key(9));
    let long_input = "x".repeat(256);
    let r = ledger.trigger_inference(user, "llama-7b".to_string(), long_input, 1);
    assert_eq!(r.unwrap_err(), ErrorCode::ValidationError);
}

#[test]
fn input_preview_truncated_to_forty_chars() {
    let (_, mut ledger) = fresh_ledger();
    let user = pubkey_of(&signing_key(9));
    let input = "abcdefghij".repeat(5); // 50 characters
    let (_, ev) = ledger
        .trigger_inference(user, "llama-7b".to_string(), input.clone(), 1)
        .unwrap();
    assert_eq!(ev.input_preview, input[..40].to_string());
    assert_eq!(ev.model_id, "llama-7b");
    // A short input is previewed whole.
    let user = pubkey_of(&signing_key(9));
    let (_, ev2) = ledger
        .trigger_inference(user.clone(), "llama-7b".to_string(), "short".to_string(), 2)
        .unwrap();
    assert_eq!(ev2.input_preview, "short");
    assert_eq!(ev2.user.bytes, user.bytes);
}

#[test]
fn task_record_retrievable_and_immutable() {
    let (_, mut ledger) = fresh_ledger();
    let user = pubkey_of(&signing_key(9));
    let (id, _) = ledger
        .trigger_inference(user.clone(), "llama-7b".to_string(), "Hello".to_string(), 42)
        .unwrap();
    let t = ledger.get_task(id).unwrap();
    assert_eq!(t.task_id, 0);
    assert_eq!(t.model_id, "llama-7b");
    assert_eq!(t.input_data, "Hello");
    assert_eq!(t.timestamp, 42);
    assert_eq!(t.user.bytes, user.bytes);
    assert!(ledger.get_task(1).is_none());
}

#[test]
fn canonical_message_is_decimal_id_colon_hash() {
    assert_eq!(canonical_message(0, "deadbeef"), "0:deadbeef");
    assert_eq!(canonical_message(1234, "ff"), "1234:ff");
    assert_eq!(canonical_message(10, ""), "10:");
    assert_eq!(
        canonical_message(u64::MAX, "h"),
        "18446744073709551615:h"
    );
}

#[test]
fn verify_below_quorum_is_false_even_with_valid_signatures() {
    let (keys, pks) = committee_abc();
    let msg = canonical_message(0, "deadbeef");
    let sigs: Vec<Signature> = keys[..2].iter().map(|k| sign_message(k, &msg)).collect();
    let signers: Vec<Pubkey> = pks[..2].to_vec();
    assert!(!verify_signatures(0, "deadbeef", &sigs, &signers, &pks));
    // With the full quorum the same attestation passes.
    let sigs3: Vec<Signature> = keys.iter().map(|k| sign_message(k, &msg)).collect();
    assert!(verify_signatures(0, "deadbeef", &sigs3, &pks, &pks));
}

#[test]
fn verify_duplicate_signer_is_false_despite_nominal_count() {
    let (keys, pks) = committee_abc();
    let msg = canonical_message(0, "deadbeef");
    let sigs = vec![
        sign_message(&keys[0], &msg),
        sign_message(&keys[0], &msg),
        sign_message(&keys[1], &msg),
    ];
    let signers = vec![pks[0].clone(), pks[0].clone(), pks[1].clone()];
    assert!(!verify_signatures(0, "deadbeef", &sigs, &signers, &pks));
}

#[test]
fn verify_mismatched_lengths_is_false() {
    let (keys, pks) = committee_abc();
    let msg = canonical_message(0, "deadbeef");
    let sigs: Vec<Signature> = keys.iter().map(|k| sign_message(k, &msg)).collect();
    let signers: Vec<Pubkey> = pks[..2].to_vec();
    assert!(!verify_signatures(0, "deadbeef", &sigs, &signers, &pks));
}

#[test]
fn commit_twice_second_fails_first_unchanged() {
    let (_, pks) = committee_abc();
    let mut store = ResultStore::new();
    store
        .commit(7, "deadbeef".to_string(), pks.clone(), 100)
        .unwrap();
    let r = store.commit(7, "feedface".to_string(), pks, 200);
    assert_eq!(r.unwrap_err(), ErrorCode::AlreadyCommitted);
    let v = store.get_result(7).unwrap();
    assert_eq!(v.output_hash, "deadbeef");
    assert_eq!(v.timestamp, 100);
}

#[test]
fn end_to_end_quorum_commit() {
    let (keys, mut ledger) = fresh_ledger();
    let user = pubkey_of(&signing_key(9));
    let (task_id, _) = ledger
        .trigger_inference(user, "llama-7b".to_string(), "Hello world".to_string(), 10)
        .unwrap();
    assert_eq!(task_id, 0);
    let msg = canonical_message(task_id, "deadbeef");
    assert_eq!(msg, "0:deadbeef");
    let sigs: Vec<Signature> = keys.iter().map(|k| sign_message(k, &msg)).collect();
    let signers: Vec<Pubkey> = keys.iter().map(pubkey_of).collect();
    let ev = ledger
        .submit_dacert(task_id, "deadbeef".to_string(), &sigs, signers, 20)
        .unwrap();
    assert_eq!(ev.task_id, 0);
    assert_eq!(ev.output_hash, "deadbeef");
    let v = ledger.get_result(0).unwrap();
    assert_eq!(v.output_hash, "deadbeef");
    assert_eq!(v.signers.len(), 3);
}

#[test]
fn end_to_end_duplicate_signer_rejected_nothing_committed() {
    let (keys, mut ledger) = fresh_ledger();
    let user = pubkey_of(&signing_key(9));
    let (task_id, _) = ledger
        .trigger_inference(user, "llama-7b".to_string(), "Hello world".to_string(), 10)
        .unwrap();
    let msg = canonical_message(task_id, "deadbeef");
    let sigs = vec![
        sign_message(&keys[0], &msg),
        sign_message(&keys[0], &msg),
        sign_message(&keys[1], &msg),
    ];
    let signers = vec![
        pubkey_of(&keys[0]),
        pubkey_of(&keys[0]),
        pubkey_of(&keys[1]),
    ];
    let r = ledger.submit_dacert(task_id, "deadbeef".to_string(), &sigs, signers, 20);
    assert_eq!(r.unwrap_err(), ErrorCode::QuorumNotMet);
    assert!(ledger.get_result(task_id).is_none());
}

#[test]
fn unknown_signer_rejected() {
    let (keys, mut ledger) = fresh_ledger();
    let outsider = signing_key(99);
    let msg = canonical_message(0, "deadbeef");
    let sigs = vec![
        sign_message(&keys[0], &msg),
        sign_message(&keys[1], &msg),
        sign_message(&outsider, &msg),
    ];
    let signers = vec![
        pubkey_of(&keys[0]),
        pubkey_of(&keys[1]),
        pubkey_of(&outsider),
    ];
    let r = ledger.submit_dacert(0, "deadbeef".to_string(), &sigs, signers, 20);
    assert_eq!(r.unwrap_err(), ErrorCode::UnknownSigner);
}

#[test]
fn invalid_signature_rejected() {
    let (keys, mut ledger) = fresh_ledger();
    let msg = canonical_message(0, "deadbeef");
    // C signs the wrong message.
    let sigs = vec![
        sign_message(&keys[0], &msg),
        sign_message(&keys[1], &msg),
        sign_message(&keys[2], &canonical_message(0, "feedface")),
    ];
    let signers: Vec<Pubkey> = keys.iter().map(pubkey_of).collect();
    let r = ledger.submit_dacert(0, "deadbeef".to_string(), &sigs, signers.clone(), 20);
    assert_eq!(r.unwrap_err(), ErrorCode::InvalidSignature);
    // A single flipped byte in an otherwise valid signature also rejects.
    let mut sigs2: Vec<Signature> = keys.iter().map(|k| sign_message(k, &msg)).collect();
    sigs2[1].bytes[0] ^= 0x01;
    let r2 = ledger.submit_dacert(0, "deadbeef".to_string(), &sigs2, signers, 20);
    assert_eq!(r2.unwrap_err(), ErrorCode::InvalidSignature);
}

#[test]
fn second_attestation_for_same_task_already_committed() {
    let (keys, mut ledger) = fresh_ledger();
    let user = pubkey_of(&signing_key(9));
    ledger
        .trigger_inference(user, "llama-7b".to_string(), "Hello".to_string(), 10)
        .unwrap();
    let msg = canonical_message(0, "deadbeef");
    let sigs: Vec<Signature> = keys.iter().map(|k| sign_message(k, &msg)).collect();
    let signers: Vec<Pubkey> = keys.iter().map(pubkey_of).collect();
    ledger
        .submit_dacert(0, "deadbeef".to_string(), &sigs, signers.clone(), 20)
        .unwrap();
    let r = ledger.submit_dacert(0, "deadbeef".to_string(), &sigs, signers, 30);
    assert_eq!(r.unwrap_err(), ErrorCode::AlreadyCommitted);
    // The first result is still the one retrievable.
    assert_eq!(ledger.get_result(0).unwrap().timestamp, 20);
}

#[test]
fn multi_digit_task_id_verifies() {
    let (keys, mut ledger) = fresh_ledger();
    let user = pubkey_of(&signing_key(9));
    for _ in 0..12 {
        ledger
            .trigger_inference(user.clone(), "llama-7b".to_string(), "hi".to_string(), 1)
            .unwrap();
    }
    let msg = canonical_message(11, "cafe");
    assert_eq!(msg, "11:cafe");
    let sigs: Vec<Signature> = keys.iter().map(|k| sign_message(k, &msg)).collect();
    let signers: Vec<Pubkey> = keys.iter().map(pubkey_of).collect();
    let ev = ledger
        .submit_dacert(11, "cafe".to_string(), &sigs, signers, 2)
        .unwrap();
    assert_eq!(ev.task_id, 11);
    assert_eq!(ledger.get_result(11).unwrap().output_hash, "cafe");
}

#[test]
fn initialize_rejects_bad_committee() {
    // Six members exceed the committee bound.
    let six: Vec<Pubkey> = (1u8..=6).map(|s| pubkey_of(&signing_key(s))).collect();
    assert_eq!(
        ParallaxLedger::initialize(six).unwrap_err(),
        ErrorCode::ValidationError
    );
    // A repeated member is rejected.
    let dup = vec![
        pubkey_of(&signing_key(1)),
        pubkey_of(&signing_key(1)),
        pubkey_of(&signing_key(2)),
    ];
    assert_eq!(
        ParallaxLedger::initialize(dup).unwrap_err(),
        ErrorCode::ValidationError
    );
    // A malformed key is rejected.
    let bad = vec![Pubkey { bytes: vec![1, 2, 3] }];
    assert_eq!(
        ParallaxLedger::initialize(bad).unwrap_err(),
        ErrorCode::ValidationError
    );
}
