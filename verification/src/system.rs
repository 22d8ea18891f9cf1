//! The ledger as a whole: task submission and attestation handling against a
//! fixed authorized committee.
use vstd::prelude::*;

use crate::errors::ErrorCode;
use crate::keys::{all_pks_wf, all_sigs_wf, pk_wf, Pubkey, Signature};
use crate::ledger::{submit_outcome, InferenceTriggered, TaskLedger};
use crate::quorum::{
    all_members, all_signed, attestation_ok, check_attestation, counts_ok, distinct_signers,
    has_duplicate, lemma_signers_at_most_committee,
};
use crate::message::spec_message;
use crate::results::{DACertVerified, ResultStore, VerifiedResult};
use crate::MAX_COMMITTEE;

verus! {

/// A valid committee: at most `MAX_COMMITTEE` members, none repeated, every
/// key well-formed. Membership is supplied externally and read-only here.
pub open spec fn committee_wf(c: Seq<Pubkey>) -> bool {
    &&& c.len() <= MAX_COMMITTEE
    &&& distinct_signers(c)
    &&& all_pks_wf(c)
}

/// Some sequence of signatures forms a valid quorum certificate for the
/// stored result under the committee: at least `QUORUM_THRESHOLD` distinct
/// committee members validly signed its `(task_id, output_hash)` pair.
pub open spec fn result_attested(v: VerifiedResult, committee: Seq<Pubkey>) -> bool {
    exists|sigs: Seq<Signature>|
        attestation_ok(v.task_id, v.output_hash@, sigs, v.signers@, committee)
}

/// The whole ledger: submitted tasks, committed results, and the authorized
/// committee.
#[derive(Debug)]
pub struct ParallaxLedger {
    pub tasks: TaskLedger,
    pub store: ResultStore,
    pub committee: Vec<Pubkey>,
}

impl ParallaxLedger {
    /// The system invariant: both stores are well-formed, the committee is
    /// valid, and every committed result is backed by a quorum attestation
    /// under the committee.
    pub open spec fn wf(self) -> bool {
        &&& self.tasks.wf()
        &&& self.store.wf()
        &&& committee_wf(self.committee@)
        &&& forall|i: int|
            0 <= i < self.store.results@.len() ==> result_attested(
                #[trigger] self.store.results@[i],
                self.committee@,
            )
    }

    /// Sets the ledger up, empty, under the given committee; a committee that
    /// is too large, repeats a member, or holds a malformed key is rejected.
    pub fn initialize(committee: Vec<Pubkey>) -> (r: Result<ParallaxLedger, ErrorCode>)
        ensures
            match r {
                Ok(l) => {
                    &&& committee_wf(committee@)
                    &&& l.wf()
                    &&& l.committee@ == committee@
                    &&& l.tasks.tasks@.len() == 0
                    &&& l.tasks.counter.count == 0
                    &&& l.store.results@.len() == 0
                },
                Err(e) => {
                    &&& e == ErrorCode::ValidationError
                    &&& !committee_wf(committee@)
                },
            },
    {
        if committee.len() > MAX_COMMITTEE {
            return Err(ErrorCode::ValidationError);
        }
        if has_duplicate(&committee) {
            return Err(ErrorCode::ValidationError);
        }
        let mut i: usize = 0;
        while i < committee.len()
            invariant
                i <= committee@.len(),
                forall|j: int| 0 <= j < i ==> pk_wf(#[trigger] committee@[j]),
            decreases committee@.len() - i,
        {
            if committee[i].bytes.len() != 32 {
                return Err(ErrorCode::ValidationError);
            }
            i = i + 1;
        }
        Ok(ParallaxLedger { tasks: TaskLedger::new(), store: ResultStore::new(), committee })
    }

    /// Submits an inference task: validates the inputs, issues the next task
    /// identifier, records the task, and returns the identifier with the
    /// `InferenceTriggered` event for the notification sink. Committed
    /// results and the committee are untouched.
    pub fn trigger_inference(
        &mut self,
        user: Pubkey,
        model_id: String,
        input_data: String,
        now: i64,
    ) -> (r: Result<(u64, InferenceTriggered), ErrorCode>)
        requires
            old(self).wf(),
            pk_wf(user),
            old(self).tasks.counter.count < u64::MAX,
        ensures
            final(self).wf(),
            final(self).store == old(self).store,
            final(self).committee == old(self).committee,
            submit_outcome(old(self).tasks, final(self).tasks, user, model_id, input_data, now, r),
    {
        self.tasks.submit(user, model_id, input_data, now)
    }

    /// Submits an attestation for `(task_id, output_hash)`. If it is a valid
    /// quorum certificate under the committee and no result exists yet for
    /// the task, exactly one result record is committed and the
    /// `DACertVerified` event is returned; otherwise nothing changes and the
    /// error names the first failure: `QuorumNotMet` (too few signatures, a
    /// count mismatch, or a repeated signer), `UnknownSigner` (a signer
    /// outside the committee), `InvalidSignature` (a signature that does not
    /// verify), or `AlreadyCommitted` (a valid attestation for an already
    /// committed task). Task records and the committee are untouched.
    pub fn submit_dacert(
        &mut self,
        task_id: u64,
        output_hash: String,
        signatures: &Vec<Signature>,
        signers: Vec<Pubkey>,
        now: i64,
    ) -> (r: Result<DACertVerified, ErrorCode>)
        requires
            old(self).wf(),
            all_sigs_wf(signatures@),
            all_pks_wf(signers@),
        ensures
            final(self).wf(),
            final(self).tasks == old(self).tasks,
            final(self).committee == old(self).committee,
            r is Ok <==> attestation_ok(
                task_id,
                output_hash@,
                signatures@,
                signers@,
                old(self).committee@,
            ) && !old(self).store.has_result(task_id),
            match r {
                Ok(ev) => {
                    &&& attestation_ok(
                        task_id,
                        output_hash@,
                        signatures@,
                        signers@,
                        old(self).committee@,
                    )
                    &&& !old(self).store.has_result(task_id)
                    &&& final(self).store.results@ == old(self).store.results@.push(
                        (VerifiedResult { task_id, output_hash, timestamp: now, signers }),
                    )
                    &&& ev.task_id == task_id
                    &&& ev.output_hash@ == output_hash@
                },
                Err(e) => {
                    &&& final(self).store == old(self).store
                    &&& (e == ErrorCode::QuorumNotMet <==> !(counts_ok(signatures@, signers@)
                        && distinct_signers(signers@)))
                    &&& (e == ErrorCode::UnknownSigner <==> counts_ok(signatures@, signers@)
                        && distinct_signers(signers@) && !all_members(
                        signers@,
                        old(self).committee@,
                    ))
                    &&& (e == ErrorCode::InvalidSignature <==> counts_ok(signatures@, signers@)
                        && distinct_signers(signers@) && all_members(signers@, old(self).committee@)
                        && !all_signed(spec_message(task_id, output_hash@), signatures@, signers@))
                    &&& (e == ErrorCode::AlreadyCommitted <==> attestation_ok(
                        task_id,
                        output_hash@,
                        signatures@,
                        signers@,
                        old(self).committee@,
                    ) && old(self).store.has_result(task_id))
                },
            },
    {
        match check_attestation(task_id, output_hash.as_str(), signatures, &signers, &self.committee) {
            Ok(()) => {},
            Err(e) => {
                return Err(e);
            },
        }
        proof {
            lemma_signers_at_most_committee(signers@, self.committee@);
        }
        let ghost g_hash: Seq<char> = output_hash@;
        let ghost g_signers: Seq<Pubkey> = signers@;
        let r = self.store.commit(task_id, output_hash, signers, now);
        proof {
            if r is Ok {
                let last = self.store.results@.last();
                assert(attestation_ok(task_id, g_hash, signatures@, g_signers, self.committee@));
                assert(attestation_ok(
                    last.task_id,
                    last.output_hash@,
                    signatures@,
                    last.signers@,
                    self.committee@,
                ));
            }
        }
        r
    }

    /// Looks a committed result up by its task identifier.
    pub fn get_result(&self, task_id: u64) -> (r: Option<&VerifiedResult>)
        ensures
            match r {
                Some(v) => self.store.has_result(task_id) && v.task_id == task_id && exists|i: int|
                    0 <= i < self.store.results@.len() && self.store.results@[i] == *v,
                None => !self.store.has_result(task_id),
            },
    {
        self.store.get_result(task_id)
    }

    /// Looks a task record up by its identifier.
    pub fn get_task(&self, task_id: u64) -> (r: Option<&crate::ledger::TaskRequest>)
        requires
            self.wf(),
        ensures
            match r {
                Some(t) => task_id < self.tasks.tasks@.len() && *t == self.tasks.tasks@[task_id as int],
                None => task_id >= self.tasks.tasks@.len(),
            },
    {
        self.tasks.get_task(task_id)
    }
}

} // verus!
