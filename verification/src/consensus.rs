//! Chain validation and the longest-valid-chain consensus rule.

use crate::canon::spec_block_hash;
use crate::ledger::{Block, BlockChain};
use crate::pow::spec_valid_proof;
use vstd::prelude::*;

verus! {

/// Block `b` correctly extends `prev`: its `previous_hash` is `prev`'s hash
/// and its proof satisfies the proof rule against `prev`'s proof.
pub open spec fn block_linked(prev: Block, b: Block) -> bool {
    &&& b.previous_hash matches Some(h) && h@ == spec_block_hash(prev)
    &&& spec_valid_proof(prev.proof as nat, b.proof as nat)
}

/// Every block after the first correctly extends its immediate predecessor.
pub open spec fn spec_valid_chain(c: Seq<Block>) -> bool {
    forall|k: int| 1 <= k < c.len() ==> block_linked(c[k - 1], #[trigger] c[k])
}

/// A peer's chain is worth adopting when it is strictly longer than the
/// local chain and passes validation.
pub open spec fn candidate_ok(local_len: nat, c: Vec<Block>) -> bool {
    c@.len() > local_len && spec_valid_chain(c@)
}

/// The chain the resolver adopts after the first `n` peer responses: among
/// the strictly-longer valid chains, the longest, with later responses
/// winning ties.
pub open spec fn best_candidate_upto(local_len: nat, rs: Seq<Vec<Block>>, n: int) -> Option<
    Vec<Block>,
>
    decreases n,
{
    if n <= 0 {
        None
    } else {
        let prev = best_candidate_upto(local_len, rs, n - 1);
        let cur = rs[n - 1];
        if candidate_ok(local_len, cur) && (prev matches Some(b) ==> cur@.len() >= b@.len()) {
            Some(cur)
        } else {
            prev
        }
    }
}

/// The chain the resolver adopts from all the peer responses, if any.
pub open spec fn best_candidate(local_len: nat, rs: Seq<Vec<Block>>) -> Option<Vec<Block>> {
    best_candidate_upto(local_len, rs, rs.len() as int)
}

/// When no response is a strictly-longer valid chain, nothing is adopted:
/// repeated consensus rounds then return `false` and leave the chain as it
/// is, so conflict resolution is idempotent in that case.
pub proof fn lemma_no_candidate_no_adoption(local_len: nat, rs: Seq<Vec<Block>>)
    requires
        forall|i: int| 0 <= i < rs.len() ==> !candidate_ok(local_len, #[trigger] rs[i]),
    ensures
        best_candidate(local_len, rs) is None,
{
    lemma_no_candidate_upto(local_len, rs, rs.len() as int);
}

proof fn lemma_no_candidate_upto(local_len: nat, rs: Seq<Vec<Block>>, n: int)
    requires
        n <= rs.len(),
        forall|i: int| 0 <= i < rs.len() ==> !candidate_ok(local_len, #[trigger] rs[i]),
    ensures
        best_candidate_upto(local_len, rs, n) is None,
    decreases n,
{
    if n > 0 {
        lemma_no_candidate_upto(local_len, rs, n - 1);
    }
}

impl BlockChain {
    /// Validates a candidate chain: every block after the first must
    /// correctly extend its immediate predecessor.
    pub fn valid_chain(&self, chain: &Vec<Block>) -> (r: bool)
        ensures
            r == spec_valid_chain(chain@),
    {
        let n = chain.len();
        let mut k: usize = 1;
        while k < n
            invariant
                n == chain@.len(),
                1 <= k,
                forall|j: int| 1 <= j < k ==> block_linked(chain@[j - 1], #[trigger] chain@[j]),
            decreases n - k,
        {
            let prev_hash = Self::hash(&chain[k - 1]);
            let hash_ok = match &chain[k].previous_hash {
                Some(h) => *h == prev_hash,
                None => false,
            };
            if !hash_ok {
                assert(!block_linked(chain@[k - 1], chain@[k as int]));
                return false;
            }
            if !Self::valid_proof(chain[k - 1].proof, chain[k].proof) {
                assert(!block_linked(chain@[k - 1], chain@[k as int]));
                return false;
            }
            k = k + 1;
        }
        true
    }

    /// One consensus round over the peers' responses, one response per
    /// registered peer in registry order (an unreachable peer's response as
    /// an empty chain). Adopts the longest response that is strictly longer
    /// than the local chain and valid, later peers winning ties, and reports
    /// whether the local chain was replaced.
    pub fn resolve_conflicts(&mut self, responses: Vec<Vec<Block>>) -> (replaced: bool)
        ensures
            ({
                let best = best_candidate(old(self).chain@.len() as nat, responses@);
                &&& replaced == (best is Some)
                &&& (best matches Some(c) ==> final(self).chain == c)
                &&& (best is None ==> final(self).chain == old(self).chain)
            }),
            final(self).nodes == old(self).nodes,
            final(self).current_transactions == old(self).current_transactions,
    {
        let local_len = self.chain.len();
        let n = responses.len();
        let mut best: Option<usize> = None;
        for i in 0..n
            invariant
                n == responses@.len(),
                *self == *old(self),
                local_len == self.chain@.len(),
                match best {
                    Some(j) => j < i && best_candidate_upto(local_len as nat, responses@, i as int)
                        == Some(responses@[j as int]),
                    None => best_candidate_upto(local_len as nat, responses@, i as int) is None,
                },
        {
            let cand_len = responses[i].len();
            if cand_len > local_len && self.valid_chain(&responses[i]) {
                let take = match best {
                    None => true,
                    Some(j) => cand_len >= responses[j].len(),
                };
                if take {
                    best = Some(i);
                }
            }
        }
        let mut rest = responses;
        match best {
            Some(j) => {
                let c = rest.remove(j);
                self.chain = c;
                true
            },
            None => false,
        }
    }
}

} // verus!
