//! A verifiable task ledger for off-chain compute.
//!
//! A client submits an inference task and receives a unique, strictly
//! increasing task identifier. An off-chain committee later returns a result
//! together with signatures; the ledger commits the result only if the
//! signatures prove that a quorum of the authorized committee attests to that
//! exact (task, output) pair. Results are committed at most once per task.
use vstd::prelude::*;

pub mod errors;
pub mod keys;
pub mod ledger;
pub mod message;
pub mod quorum;
pub mod results;
pub mod sequence;
pub mod system;

verus! {

/// Minimum number of distinct, committee-authorized, valid signatures that an
/// attestation must carry to be accepted.
pub const QUORUM_THRESHOLD: usize = 3;

/// Maximum size of the authorized committee.
pub const MAX_COMMITTEE: usize = 5;

/// A task's model identifier must be strictly shorter than this.
pub const MAX_MODEL_ID_LEN: usize = 64;

/// A task's input data must be strictly shorter than this.
pub const MAX_INPUT_LEN: usize = 256;

/// Length (in characters) to which the input is truncated in the
/// `InferenceTriggered` event's preview field.
pub const INPUT_PREVIEW_LEN: usize = 40;

} // verus!
