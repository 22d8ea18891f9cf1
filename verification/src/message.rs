//! The canonical message that committee members sign: the task identifier
//! written in decimal, a colon, and the output hash.
use vstd::prelude::*;

verus! {

/// The character for one decimal digit value.
pub open spec fn digit_char(d: nat) -> char {
    if d == 0 {
        '0'
    } else if d == 1 {
        '1'
    } else if d == 2 {
        '2'
    } else if d == 3 {
        '3'
    } else if d == 4 {
        '4'
    } else if d == 5 {
        '5'
    } else if d == 6 {
        '6'
    } else if d == 7 {
        '7'
    } else if d == 8 {
        '8'
    } else {
        '9'
    }
}

/// The usual decimal representation of `n`: most significant digit first, no
/// leading zeros (except for `n == 0` itself, written "0").
pub open spec fn dec_str(n: nat) -> Seq<char>
    decreases n,
{
    if n < 10 {
        seq![digit_char(n)]
    } else {
        dec_str(n / 10) + seq![digit_char(n % 10)]
    }
}

/// The canonical message for an attestation over `(task_id, output_hash)`.
pub open spec fn spec_message(task_id: u64, output_hash: Seq<char>) -> Seq<char> {
    dec_str(task_id as nat) + seq![':'] + output_hash
}

/// Writes `n` in decimal.
pub fn u64_to_dec(n: u64) -> (s: String)
    ensures
        s@ == dec_str(n as nat),
    decreases n,
{
    proof {
        reveal_strlit("0123456789");
    }
    let digits: &str = "0123456789";
    let d = (n % 10) as usize;
    let last = digits.substring_char(d, d + 1);
    proof {
        assert(last@ =~= seq![digit_char((n % 10) as nat)]);
    }
    if n < 10 {
        last.to_owned()
    } else {
        let mut s = u64_to_dec(n / 10);
        s.append(last);
        s
    }
}

/// Builds the canonical message `task_id ++ ":" ++ output_hash`.
pub fn canonical_message(task_id: u64, output_hash: &str) -> (m: String)
    ensures
        m@ == spec_message(task_id, output_hash@),
{
    proof {
        reveal_strlit(":");
    }
    let mut m = u64_to_dec(task_id);
    m.append(":");
    m.append(output_hash);
    proof {
        assert(m@ =~= spec_message(task_id, output_hash@));
    }
    m
}

} // verus!
