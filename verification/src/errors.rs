//! Error taxonomy of the ledger's operations.
use vstd::prelude::*;

verus! {

/// Why an operation was rejected.
///
/// `ValidationError`: an input exceeds its bound; rejected before any state
/// changes. `QuorumNotMet`: too few signatures, a signature/signer count
/// mismatch, or a duplicated signer. `UnknownSigner`: a signer is not a
/// member of the authorized committee. `InvalidSignature`: a signature fails
/// cryptographic verification. `AlreadyCommitted`: a result already exists
/// for the task; the existing result is left untouched.
#[derive(Clone, Copy, Debug, PartialEq, Eq, Structural)]
pub enum ErrorCode {
    ValidationError,
    QuorumNotMet,
    UnknownSigner,
    InvalidSignature,
    AlreadyCommitted,
}

} // verus!
