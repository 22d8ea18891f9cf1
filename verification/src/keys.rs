//! Identities and signatures, as plain byte values.
//!
//! A `Pubkey` is a validator's 32-byte ed25519 public key; a `Signature` is a
//! 64-byte ed25519 signature. Both are compared by their bytes.
use vstd::prelude::*;

verus! {

/// A 32-byte public key identifying a requester or a committee member.
#[derive(Debug)]
pub struct Pubkey {
    pub bytes: Vec<u8>,
}

/// A 64-byte signature supplied by a committee member.
#[derive(Debug)]
pub struct Signature {
    pub bytes: Vec<u8>,
}

/// A well-formed public key holds exactly 32 bytes.
pub open spec fn pk_wf(p: Pubkey) -> bool {
    p.bytes@.len() == 32
}

/// A well-formed signature holds exactly 64 bytes.
pub open spec fn sig_wf(s: Signature) -> bool {
    s.bytes@.len() == 64
}

/// Every key in the sequence is well-formed.
pub open spec fn all_pks_wf(s: Seq<Pubkey>) -> bool {
    forall|i: int| 0 <= i < s.len() ==> pk_wf(s[i])
}

/// Every signature in the sequence is well-formed.
pub open spec fn all_sigs_wf(s: Seq<Signature>) -> bool {
    forall|i: int| 0 <= i < s.len() ==> sig_wf(s[i])
}

impl Clone for Pubkey {
    fn clone(&self) -> (r: Pubkey)
        ensures
            r.bytes@ == self.bytes@,
    {
        let mut bytes: Vec<u8> = Vec::new();
        let mut i: usize = 0;
        while i < self.bytes.len()
            invariant
                i <= self.bytes.len(),
                bytes@ == self.bytes@.subrange(0, i as int),
            decreases self.bytes.len() - i,
        {
            bytes.push(self.bytes[i]);
            i = i + 1;
        }
        proof {
            assert(bytes@ =~= self.bytes@);
        }
        Pubkey { bytes }
    }
}

/// Whether two keys hold the same bytes.
pub fn pk_eq(a: &Pubkey, b: &Pubkey) -> (r: bool)
    ensures
        r == (a.bytes@ == b.bytes@),
{
    if a.bytes.len() != b.bytes.len() {
        return false;
    }
    let mut i: usize = 0;
    while i < a.bytes.len()
        invariant
            i <= a.bytes.len(),
            a.bytes@.len() == b.bytes@.len(),
            forall|j: int| 0 <= j < i ==> a.bytes@[j] == b.bytes@[j],
        decreases a.bytes.len() - i,
    {
        if a.bytes[i] != b.bytes[i] {
            return false;
        }
        i = i + 1;
    }
    proof {
        assert(a.bytes@ =~= b.bytes@);
    }
    true
}

} // verus!
