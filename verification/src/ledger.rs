//! The task ledger: validates and stores immutable task records, keyed by the
//! identifiers issued by the sequence counter.
use vstd::prelude::*;

use crate::errors::ErrorCode;
use crate::keys::{pk_wf, Pubkey};
use crate::sequence::TaskCounter;
use crate::{INPUT_PREVIEW_LEN, MAX_INPUT_LEN, MAX_MODEL_ID_LEN};

verus! {

/// An inference task as recorded at submission. Never mutated afterwards.
#[derive(Debug)]
pub struct TaskRequest {
    pub user: Pubkey,
    pub model_id: String,
    pub input_data: String,
    pub timestamp: i64,
    pub task_id: u64,
}

/// The event emitted for observers when a task is accepted.
#[derive(Debug)]
pub struct InferenceTriggered {
    pub user: Pubkey,
    pub model_id: String,
    pub task_id: u64,
    pub input_preview: String,
}

/// The length of a string in bytes of its UTF-8 encoding; the submission
/// bounds are byte bounds.
pub open spec fn str_byte_len(s: Seq<char>) -> nat {
    vstd::utf8::encode_utf8(s).len()
}

/// A valid record: a well-formed requester key and in-bound field lengths.
pub open spec fn task_wf(t: TaskRequest) -> bool {
    &&& pk_wf(t.user)
    &&& str_byte_len(t.model_id@) < MAX_MODEL_ID_LEN
    &&& str_byte_len(t.input_data@) < MAX_INPUT_LEN
}

/// The preview carried by the `InferenceTriggered` event: the input truncated
/// to its first `INPUT_PREVIEW_LEN` characters.
pub open spec fn spec_preview(input: Seq<char>) -> Seq<char> {
    if input.len() <= INPUT_PREVIEW_LEN {
        input
    } else {
        input.subrange(0, INPUT_PREVIEW_LEN as int)
    }
}

/// What `submit` guarantees, relating the ledger before (`pre`) and after
/// (`post`) the call to its arguments and its outcome `r`: within bounds, the
/// task gets the next identifier, exactly the given record is appended, the
/// counter moves up by one, and the event carries the requester, the model,
/// the identifier and the truncated preview; out of bounds, the submission
/// fails with `ValidationError` and the ledger — the counter included — is
/// unchanged, so no identifier is consumed.
pub open spec fn submit_outcome(
    pre: TaskLedger,
    post: TaskLedger,
    user: Pubkey,
    model_id: String,
    input_data: String,
    now: i64,
    r: Result<(u64, InferenceTriggered), ErrorCode>,
) -> bool {
    match r {
        Ok((id, ev)) => {
            &&& str_byte_len(model_id@) < MAX_MODEL_ID_LEN
            &&& str_byte_len(input_data@) < MAX_INPUT_LEN
            &&& id == pre.counter.count
            &&& post.counter.count == pre.counter.count + 1
            &&& post.tasks@ == pre.tasks@.push(
                (TaskRequest { user, model_id, input_data, timestamp: now, task_id: id }),
            )
            &&& ev.user.bytes@ == user.bytes@
            &&& ev.model_id@ == model_id@
            &&& ev.task_id == id
            &&& ev.input_preview@ == spec_preview(input_data@)
        },
        Err(e) => {
            &&& e == ErrorCode::ValidationError
            &&& !(str_byte_len(model_id@) < MAX_MODEL_ID_LEN && str_byte_len(input_data@)
                < MAX_INPUT_LEN)
            &&& post == pre
        },
    }
}

/// The ledger of submitted tasks, together with the counter that issues their
/// identifiers.
#[derive(Debug)]
pub struct TaskLedger {
    pub counter: TaskCounter,
    pub tasks: Vec<TaskRequest>,
}

impl TaskLedger {
    /// The ledger's invariant: the counter equals the number of records, the
    /// record at position `i` carries identifier `i`, and every record is
    /// valid. Submission preserves it, so identifiers are issued without gaps
    /// or repeats and a stored record never changes.
    pub open spec fn wf(self) -> bool {
        &&& self.counter.count == self.tasks@.len()
        &&& forall|i: int|
            0 <= i < self.tasks@.len() ==> (#[trigger] self.tasks@[i]).task_id == i && task_wf(
                self.tasks@[i],
            )
    }

    /// An empty ledger: no records, next identifier 0.
    pub fn new() -> (r: TaskLedger)
        ensures
            r.wf(),
            r.tasks@.len() == 0,
            r.counter.count == 0,
    {
        TaskLedger { counter: TaskCounter::new(), tasks: Vec::new() }
    }

    /// Submits a task. If `model_id` and `input_data` are within bounds, the
    /// task is assigned the next identifier, a record with exactly the given
    /// fields is appended, and the returned event carries the requester, the
    /// model, the new identifier and the truncated input preview. Otherwise
    /// the submission fails with `ValidationError` and the ledger — the
    /// counter included — is unchanged, so no identifier is consumed.
    pub fn submit(
        &mut self,
        user: Pubkey,
        model_id: String,
        input_data: String,
        now: i64,
    ) -> (r: Result<(u64, InferenceTriggered), ErrorCode>)
        requires
            old(self).wf(),
            pk_wf(user),
            old(self).counter.count < u64::MAX,
        ensures
            final(self).wf(),
            submit_outcome(*old(self), *final(self), user, model_id, input_data, now, r),
    {
        if model_id.as_str().as_bytes().len() >= MAX_MODEL_ID_LEN
            || input_data.as_str().as_bytes().len() >= MAX_INPUT_LEN {
            return Err(ErrorCode::ValidationError);
        }
        let task_id = self.counter.next();
        let ev_user = user.clone();
        let ev_model_id = model_id.clone();
        let input_preview = preview_of(&input_data);
        let record = TaskRequest { user, model_id, input_data, timestamp: now, task_id };
        self.tasks.push(record);
        let ev = InferenceTriggered {
            user: ev_user,
            model_id: ev_model_id,
            task_id,
            input_preview,
        };
        Ok((task_id, ev))
    }

    /// Looks a record up by its identifier: exactly the identifiers below the
    /// counter are present, and the returned record is the stored one.
    pub fn get_task(&self, task_id: u64) -> (r: Option<&TaskRequest>)
        requires
            self.wf(),
        ensures
            match r {
                Some(t) => task_id < self.tasks@.len() && *t == self.tasks@[task_id as int],
                None => task_id >= self.tasks@.len(),
            },
    {
        if task_id < self.tasks.len() as u64 {
            Some(&self.tasks[task_id as usize])
        } else {
            None
        }
    }
}

/// The first `INPUT_PREVIEW_LEN` characters of `input`, or all of it if it is
/// shorter.
fn preview_of(input: &String) -> (r: String)
    ensures
        r@ == spec_preview(input@),
{
    let len = input.as_str().unicode_len();
    if len <= INPUT_PREVIEW_LEN {
        input.clone()
    } else {
        input.as_str().substring_char(0, INPUT_PREVIEW_LEN).to_owned()
    }
}

/// Some record of the ledger carries the identifier `id`.
pub open spec fn id_issued(l: TaskLedger, id: u64) -> bool {
    exists|i: int| 0 <= i < l.tasks@.len() && (#[trigger] l.tasks@[i]).task_id == id
}

/// In a well-formed ledger the issued identifiers are exactly the range below
/// the counter: no identifier repeats, and an identifier belongs to some
/// record if and only if it is less than the count of successful submissions.
pub proof fn lemma_ids_exact_range(l: TaskLedger)
    requires
        l.wf(),
    ensures
        forall|i: int, j: int|
            0 <= i < j < l.tasks@.len() ==> l.tasks@[i].task_id != l.tasks@[j].task_id,
        forall|id: u64| #[trigger] id_issued(l, id) <==> (id as nat) < l.counter.count,
{
    assert forall|id: u64| (id as nat) < l.counter.count implies id_issued(l, id) by {
        assert(l.tasks@[id as int].task_id == id);
    }
}

} // verus!
