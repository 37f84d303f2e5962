//! The proof-of-work rule and the search for the smallest valid proof.

use crate::digest::{sha256_hex, sha256_hex_of};
use crate::ledger::BlockChain;
use crate::text::{dec_of, push_decimal};
use vstd::prelude::*;
use vstd::string::StrSliceExecFns;

verus! {

/// The proof rule: concatenate the decimal representations of the previous
/// proof and the candidate, hash the ASCII text with SHA-256, and demand
/// that the first six hex digits of the digest are `'0'`.
pub open spec fn spec_valid_proof(last_proof: nat, proof: nat) -> bool {
    let h = sha256_hex_of(dec_of(last_proof) + dec_of(proof));
    &&& h.len() >= 6
    &&& h[0] == '0'
    &&& h[1] == '0'
    &&& h[2] == '0'
    &&& h[3] == '0'
    &&& h[4] == '0'
    &&& h[5] == '0'
}

impl BlockChain {
    /// Checks the proof rule for `proof` against `last_proof`.
    pub fn valid_proof(last_proof: u64, proof: u64) -> (r: bool)
        ensures
            r == spec_valid_proof(last_proof as nat, proof as nat),
    {
        let mut guess = String::new();
        push_decimal(&mut guess, last_proof);
        push_decimal(&mut guess, proof);
        proof {
            assert(guess@ =~= dec_of(last_proof as nat) + dec_of(proof as nat));
        }
        let h = sha256_hex(guess.as_str());
        let hs = h.as_str();
        hs.get_char(0) == '0' && hs.get_char(1) == '0' && hs.get_char(2) == '0' && hs.get_char(3)
            == '0' && hs.get_char(4) == '0' && hs.get_char(5) == '0'
    }

    /// The smallest proof valid against `last_proof`. The search is
    /// unbounded in principle; if not a single `u64` value satisfied the
    /// rule, the search would stop at `u64::MAX` after ruling every value
    /// out.
    pub fn proof_of_work(last_proof: u64) -> (r: u64)
        ensures
            forall|q: u64| q < r ==> !spec_valid_proof(last_proof as nat, q as nat),
            (exists|q: u64| spec_valid_proof(last_proof as nat, q as nat)) ==> spec_valid_proof(
                last_proof as nat,
                r as nat,
            ),
            !(exists|q: u64| spec_valid_proof(last_proof as nat, q as nat)) ==> r == u64::MAX,
    {
        let mut p: u64 = 0;
        loop
            invariant
                forall|q: u64| q < p ==> !spec_valid_proof(last_proof as nat, q as nat),
            decreases u64::MAX - p,
        {
            if Self::valid_proof(last_proof, p) {
                return p;
            }
            if p == u64::MAX {
                proof {
                    assert forall|q: u64| !spec_valid_proof(last_proof as nat, q as nat) by {
                        if q < p {
                        }
                    }
                }
                return p;
            }
            p = p + 1;
        }
    }
}

} // verus!
