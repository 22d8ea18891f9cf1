//! Quorum-based attestation verification.
//!
//! An attestation over a `(task_id, output_hash)` pair is accepted only if it
//! carries at least `QUORUM_THRESHOLD` signatures, one per signer, with no
//! signer repeated, every signer a member of the authorized committee, and
//! every signature a valid ed25519 signature of the canonical message under
//! its signer's key. A single failure rejects the whole attestation.
use vstd::prelude::*;
use vstd::set_lib::lemma_len_subset;

use crate::errors::ErrorCode;
use crate::keys::{all_pks_wf, all_sigs_wf, pk_eq, pk_wf, sig_wf, Pubkey, Signature};
use crate::message::{canonical_message, spec_message};
use crate::QUORUM_THRESHOLD;

verus! {

/// Whether a 64-byte ed25519 signature verifies over a message under a
/// 32-byte public key. Determined by those bytes alone; the library learns it
/// only by calling `ed25519_check`.
pub uninterp spec fn ed25519_valid(msg: Seq<char>, sig: Seq<u8>, pk: Seq<u8>) -> bool;

/// Relies on `ed25519_dalek::VerifyingKey::from_bytes` and `verify_strict`:
/// whether the signature verifies is a deterministic function of the key
/// bytes, the message bytes, and the signature bytes. A key that does not
/// decode, or a signature that fails `verify_strict`, is not valid.
#[verifier::external_body]
fn ed25519_check(msg: &str, sig: &Signature, pk: &Pubkey) -> (r: bool)
    requires
        sig_wf(*sig),
        pk_wf(*pk),
    ensures
        r == ed25519_valid(msg@, sig.bytes@, pk.bytes@),
{
    let sig_arr: [u8; 64] = match sig.bytes.as_slice().try_into() {
        Ok(a) => a,
        Err(_) => return false,
    };
    let pk_arr: [u8; 32] = match pk.bytes.as_slice().try_into() {
        Ok(a) => a,
        Err(_) => return false,
    };
    let s = ed25519_dalek::Signature::from_bytes(&sig_arr);
    match ed25519_dalek::VerifyingKey::from_bytes(&pk_arr) {
        Ok(vk) => vk.verify_strict(msg.as_bytes(), &s).is_ok(),
        Err(_) => false,
    }
}

/// No identity appears twice in the signer list.
pub open spec fn distinct_signers(s: Seq<Pubkey>) -> bool {
    forall|i: int, j: int| 0 <= i < j < s.len() ==> s[i].bytes@ != s[j].bytes@
}

/// `p` is a member of the committee `c`.
pub open spec fn is_member(p: Pubkey, c: Seq<Pubkey>) -> bool {
    exists|i: int| 0 <= i < c.len() && c[i].bytes@ == p.bytes@
}

/// Every signer is a member of the committee.
pub open spec fn all_members(s: Seq<Pubkey>, c: Seq<Pubkey>) -> bool {
    forall|i: int| 0 <= i < s.len() ==> is_member(s[i], c)
}

/// Each signature verifies over `msg` under the signer at the same position.
pub open spec fn all_signed(msg: Seq<char>, sigs: Seq<Signature>, signers: Seq<Pubkey>) -> bool {
    forall|i: int|
        0 <= i < sigs.len() ==> ed25519_valid(msg, sigs[i].bytes@, signers[i].bytes@)
}

/// The signature and signer lists pair up and reach the quorum threshold.
pub open spec fn counts_ok(sigs: Seq<Signature>, signers: Seq<Pubkey>) -> bool {
    sigs.len() == signers.len() && sigs.len() >= QUORUM_THRESHOLD
}

/// A valid attestation over `(task_id, output_hash)`: at least
/// `QUORUM_THRESHOLD` signatures, one per signer, no signer repeated, every
/// signer authorized by the committee, and every signature a valid signature
/// of the canonical message under its signer's key.
pub open spec fn attestation_ok(
    task_id: u64,
    output_hash: Seq<char>,
    sigs: Seq<Signature>,
    signers: Seq<Pubkey>,
    committee: Seq<Pubkey>,
) -> bool {
    &&& counts_ok(sigs, signers)
    &&& distinct_signers(signers)
    &&& all_members(signers, committee)
    &&& all_signed(spec_message(task_id, output_hash), sigs, signers)
}

/// Whether the committee contains a key with the same bytes as `p`.
pub fn committee_contains(c: &Vec<Pubkey>, p: &Pubkey) -> (r: bool)
    ensures
        r == is_member(*p, c@),
{
    let mut i: usize = 0;
    while i < c.len()
        invariant
            i <= c@.len(),
            forall|j: int| 0 <= j < i ==> c@[j].bytes@ != p.bytes@,
        decreases c@.len() - i,
    {
        if pk_eq(&c[i], p) {
            return true;
        }
        i = i + 1;
    }
    false
}

/// Whether some identity appears twice in `s`.
pub fn has_duplicate(s: &Vec<Pubkey>) -> (r: bool)
    ensures
        r == !distinct_signers(s@),
{
    let mut i: usize = 0;
    while i < s.len()
        invariant
            i <= s@.len(),
            forall|a: int, b: int| 0 <= a < b < s@.len() && a < i ==> s@[a].bytes@ != s@[b].bytes@,
        decreases s@.len() - i,
    {
        let mut j: usize = i + 1;
        while j < s.len()
            invariant
                i < j <= s@.len(),
                forall|b: int| i < b < j ==> s@[i as int].bytes@ != s@[b].bytes@,
            decreases s@.len() - j,
        {
            if pk_eq(&s[i], &s[j]) {
                return true;
            }
            j = j + 1;
        }
        i = i + 1;
    }
    false
}

/// Checks an attestation and reports the first failure, in the order: counts
/// and duplicates (`QuorumNotMet`), committee membership (`UnknownSigner`),
/// then cryptographic verification (`InvalidSignature`).
pub fn check_attestation(
    task_id: u64,
    output_hash: &str,
    signatures: &Vec<Signature>,
    signers: &Vec<Pubkey>,
    committee: &Vec<Pubkey>,
) -> (r: Result<(), ErrorCode>)
    requires
        all_sigs_wf(signatures@),
        all_pks_wf(signers@),
    ensures
        r is Ok <==> attestation_ok(task_id, output_hash@, signatures@, signers@, committee@),
        r == Err::<(), ErrorCode>(ErrorCode::QuorumNotMet) <==> !(counts_ok(
            signatures@,
            signers@,
        ) && distinct_signers(signers@)),
        r == Err::<(), ErrorCode>(ErrorCode::UnknownSigner) <==> counts_ok(signatures@, signers@)
            && distinct_signers(signers@) && !all_members(signers@, committee@),
        r == Err::<(), ErrorCode>(ErrorCode::InvalidSignature) <==> counts_ok(
            signatures@,
            signers@,
        ) && distinct_signers(signers@) && all_members(signers@, committee@) && !all_signed(
            spec_message(task_id, output_hash@),
            signatures@,
            signers@,
        ),
{
    if signatures.len() != signers.len() || signatures.len() < QUORUM_THRESHOLD {
        return Err(ErrorCode::QuorumNotMet);
    }
    if has_duplicate(signers) {
        return Err(ErrorCode::QuorumNotMet);
    }
    let mut i: usize = 0;
    while i < signers.len()
        invariant
            i <= signers@.len(),
            counts_ok(signatures@, signers@),
            distinct_signers(signers@),
            forall|j: int| 0 <= j < i ==> is_member(signers@[j], committee@),
        decreases signers@.len() - i,
    {
        if !committee_contains(committee, &signers[i]) {
            return Err(ErrorCode::UnknownSigner);
        }
        i = i + 1;
    }
    let msg = canonical_message(task_id, output_hash);
    let mut k: usize = 0;
    while k < signatures.len()
        invariant
            k <= signatures@.len(),
            counts_ok(signatures@, signers@),
            distinct_signers(signers@),
            all_members(signers@, committee@),
            all_sigs_wf(signatures@),
            all_pks_wf(signers@),
            msg@ == spec_message(task_id, output_hash@),
            forall|j: int|
                0 <= j < k ==> ed25519_valid(msg@, signatures@[j].bytes@, signers@[j].bytes@),
        decreases signatures@.len() - k,
    {
        if !ed25519_check(msg.as_str(), &signatures[k], &signers[k]) {
            return Err(ErrorCode::InvalidSignature);
        }
        k = k + 1;
    }
    Ok(())
}

/// Decides a proposed attestation: true exactly when it is a valid quorum
/// certificate for `(task_id, output_hash)` under `committee`.
pub fn verify_signatures(
    task_id: u64,
    output_hash: &str,
    signatures: &Vec<Signature>,
    signers: &Vec<Pubkey>,
    committee: &Vec<Pubkey>,
) -> (r: bool)
    requires
        all_sigs_wf(signatures@),
        all_pks_wf(signers@),
    ensures
        r == attestation_ok(task_id, output_hash@, signatures@, signers@, committee@),
{
    check_attestation(task_id, output_hash, signatures, signers, committee).is_ok()
}

/// An attestation with fewer signatures than the quorum threshold is never
/// accepted, however valid each supplied signature is individually.
pub proof fn lemma_below_quorum_rejected(
    task_id: u64,
    output_hash: Seq<char>,
    sigs: Seq<Signature>,
    signers: Seq<Pubkey>,
    committee: Seq<Pubkey>,
)
    requires
        sigs.len() < QUORUM_THRESHOLD,
    ensures
        !attestation_ok(task_id, output_hash, sigs, signers, committee),
{
}

/// An attestation whose signer list repeats an identity is never accepted,
/// whatever its nominal signature count.
pub proof fn lemma_duplicate_signer_rejected(
    task_id: u64,
    output_hash: Seq<char>,
    sigs: Seq<Signature>,
    signers: Seq<Pubkey>,
    committee: Seq<Pubkey>,
    i: int,
    j: int,
)
    requires
        0 <= i < j < signers.len(),
        signers[i].bytes@ == signers[j].bytes@,
    ensures
        !attestation_ok(task_id, output_hash, sigs, signers, committee),
{
}

/// Distinct signers that are all members of the committee cannot outnumber
/// it: an accepted attestation names at most `committee.len()` signers.
pub proof fn lemma_signers_at_most_committee(signers: Seq<Pubkey>, committee: Seq<Pubkey>)
    requires
        distinct_signers(signers),
        all_members(signers, committee),
    ensures
        signers.len() <= committee.len(),
{
    let sb = signers.map_values(|p: Pubkey| p.bytes@);
    let cb = committee.map_values(|p: Pubkey| p.bytes@);
    assert(sb.no_duplicates());
    sb.unique_seq_to_set();
    cb.lemma_cardinality_of_set();
    assert forall|x: Seq<u8>| sb.to_set().contains(x) implies cb.to_set().contains(x) by {
        let i = choose|i: int| 0 <= i < sb.len() && sb[i] == x;
        let k = choose|k: int| 0 <= k < committee.len() && committee[k].bytes@ == signers[i].bytes@;
        assert(cb[k] == x);
    }
    lemma_len_subset(sb.to_set(), cb.to_set());
}

} // verus!
