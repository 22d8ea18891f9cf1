//! The result store: commits a verified result at most once per task.
use vstd::prelude::*;

use crate::errors::ErrorCode;
use crate::keys::{all_pks_wf, Pubkey};
use crate::quorum::distinct_signers;
use crate::{MAX_COMMITTEE, QUORUM_THRESHOLD};

verus! {

/// A committed result: the output hash a quorum attested to for a task,
/// together with the attesting signers. Immutable after creation; the
/// `task_id` refers to the originating task record.
#[derive(Debug)]
pub struct VerifiedResult {
    pub task_id: u64,
    pub output_hash: String,
    pub timestamp: i64,
    pub signers: Vec<Pubkey>,
}

/// The event emitted for observers when a result is committed.
#[derive(Debug)]
pub struct DACertVerified {
    pub task_id: u64,
    pub output_hash: String,
}

/// A valid committed result: at least a quorum and at most a committee of
/// signers, none repeated, all well-formed. The store only accepts results
/// whose attestation the caller has already verified.
pub open spec fn result_wf(v: VerifiedResult) -> bool {
    &&& QUORUM_THRESHOLD <= v.signers@.len() <= MAX_COMMITTEE
    &&& distinct_signers(v.signers@)
    &&& all_pks_wf(v.signers@)
}

/// The store of committed results, at most one per task identifier.
#[derive(Debug)]
pub struct ResultStore {
    pub results: Vec<VerifiedResult>,
}

impl ResultStore {
    /// The store's invariant: no two results share a task identifier, and
    /// every stored result is valid.
    pub open spec fn wf(self) -> bool {
        &&& forall|i: int, j: int|
            0 <= i < j < self.results@.len() ==> self.results@[i].task_id
                != self.results@[j].task_id
        &&& forall|i: int|
            0 <= i < self.results@.len() ==> result_wf(#[trigger] self.results@[i])
    }

    /// The store holds a result for `task_id`.
    pub open spec fn has_result(self, task_id: u64) -> bool {
        exists|i: int|
            0 <= i < self.results@.len() && (#[trigger] self.results@[i]).task_id == task_id
    }

    /// An empty store.
    pub fn new() -> (r: ResultStore)
        ensures
            r.wf(),
            r.results@.len() == 0,
    {
        ResultStore { results: Vec::new() }
    }

    /// Commits a result for `task_id`, once. The caller must already have
    /// verified a quorum attestation for `(task_id, output_hash, signers)`;
    /// the store does not re-run signature cryptography. If no result exists
    /// yet for `task_id`, exactly the given record is appended and the
    /// returned event names the task and the hash. Otherwise the commit fails
    /// with `AlreadyCommitted` and the store — the existing result included —
    /// is unchanged.
    pub fn commit(
        &mut self,
        task_id: u64,
        output_hash: String,
        signers: Vec<Pubkey>,
        timestamp: i64,
    ) -> (r: Result<DACertVerified, ErrorCode>)
        requires
            old(self).wf(),
            QUORUM_THRESHOLD <= signers@.len() <= MAX_COMMITTEE,
            distinct_signers(signers@),
            all_pks_wf(signers@),
        ensures
            final(self).wf(),
            match r {
                Ok(ev) => {
                    &&& !old(self).has_result(task_id)
                    &&& final(self).results@ == old(self).results@.push(
                        (VerifiedResult { task_id, output_hash, timestamp, signers }),
                    )
                    &&& ev.task_id == task_id
                    &&& ev.output_hash@ == output_hash@
                },
                Err(e) => {
                    &&& e == ErrorCode::AlreadyCommitted
                    &&& old(self).has_result(task_id)
                    &&& *final(self) == *old(self)
                },
            },
    {
        if self.contains(task_id) {
            return Err(ErrorCode::AlreadyCommitted);
        }
        let ev_output_hash = output_hash.clone();
        let record = VerifiedResult { task_id, output_hash, timestamp, signers };
        self.results.push(record);
        Ok(DACertVerified { task_id, output_hash: ev_output_hash })
    }

    /// Whether a result has been committed for `task_id`.
    pub fn contains(&self, task_id: u64) -> (r: bool)
        ensures
            r == self.has_result(task_id),
    {
        let mut i: usize = 0;
        while i < self.results.len()
            invariant
                i <= self.results@.len(),
                forall|j: int| 0 <= j < i ==> (#[trigger] self.results@[j]).task_id != task_id,
            decreases self.results@.len() - i,
        {
            if self.results[i].task_id == task_id {
                return true;
            }
            i = i + 1;
        }
        false
    }

    /// Looks the committed result up by its task identifier: present exactly
    /// when a commit for it succeeded, and never changed afterwards.
    pub fn get_result(&self, task_id: u64) -> (r: Option<&VerifiedResult>)
        ensures
            match r {
                Some(v) => self.has_result(task_id) && v.task_id == task_id && exists|i: int|
                    0 <= i < self.results@.len() && self.results@[i] == *v,
                None => !self.has_result(task_id),
            },
    {
        let mut i: usize = 0;
        while i < self.results.len()
            invariant
                i <= self.results@.len(),
                forall|j: int| 0 <= j < i ==> (#[trigger] self.results@[j]).task_id != task_id,
            decreases self.results@.len() - i,
        {
            if self.results[i].task_id == task_id {
                return Some(&self.results[i]);
            }
            i = i + 1;
        }
        None
    }
}

} // verus!
