//! The ledger: transactions, blocks, the chain, and block creation.

use crate::canon::{block_json, spec_block_hash};
use crate::consensus::{block_linked, spec_valid_chain};
use crate::digest::sha256_hex;
use crate::pow::spec_valid_proof;
use vstd::prelude::*;

verus! {

/// A value transfer. `amount` is an uninterpreted decimal string: the ledger
/// performs no arithmetic on it.
#[derive(Clone, Debug, PartialEq)]
pub struct Transaction {
    pub sender: String,
    pub recipient: String,
    pub amount: String,
}

/// One sealed batch of transactions. `index` is the block's one-based
/// position in the chain, `timestamp` is in seconds since the Unix epoch,
/// `previous_hash` is the hash of the preceding block (the genesis block
/// carries the sentinel `"100"` instead).
#[derive(Clone, Debug, PartialEq)]
pub struct Block {
    pub index: u64,
    pub timestamp: u64,
    pub transactions: Vec<Transaction>,
    pub proof: u64,
    pub previous_hash: Option<String>,
}

/// A node's ledger: the pool of pending transactions, the chain, and the
/// registered peer hosts.
pub struct BlockChain {
    pub current_transactions: Vec<Transaction>,
    pub chain: Vec<Block>,
    pub nodes: Vec<String>,
}

/// Every block's `index` is its one-based position in the chain.
pub open spec fn indices_ok(c: Seq<Block>) -> bool {
    forall|k: int| 0 <= k < c.len() ==> (#[trigger] c[k]).index == k + 1
}

/// Relies on `std::time::SystemTime`: the number of whole seconds between
/// the Unix epoch and now; aborts the process if the clock reads earlier
/// than the epoch.
#[verifier::external_body]
fn unix_time_secs() -> u64 {
    std::time::SystemTime::now()
        .duration_since(std::time::SystemTime::UNIX_EPOCH)
        .expect("SystemTime before UNIX EPOCH!")
        .as_secs()
}

impl BlockChain {
    /// A fresh ledger: a single genesis block with proof `1` and the
    /// sentinel previous hash `"100"`, an empty pool, and no peers.
    pub fn new() -> (r: BlockChain)
        ensures
            r.chain@.len() == 1,
            r.chain@[0].index == 1,
            r.chain@[0].proof == 1,
            r.chain@[0].previous_hash matches Some(h) && h@ == "100"@,
            r.chain@[0].transactions@.len() == 0,
            r.current_transactions@.len() == 0,
            r.nodes@.len() == 0,
            indices_ok(r.chain@),
            spec_valid_chain(r.chain@),
    {
        let mut blockchain = BlockChain {
            current_transactions: Vec::new(),
            chain: Vec::new(),
            nodes: Vec::new(),
        };
        blockchain.new_block(1, Some("100".to_owned()));
        blockchain
    }

    /// Seals the pending transactions into a new block appended to the
    /// chain. The block's index is the new chain length, its batch is the
    /// whole pool in submission order, and the pool is left empty.
    pub fn new_block(&mut self, proof: u64, previous_hash: Option<String>)
        requires
            old(self).chain@.len() + 1 <= u64::MAX,
        ensures
            final(self).chain@.len() == old(self).chain@.len() + 1,
            final(self).chain@.drop_last() == old(self).chain@,
            ({
                let b = final(self).chain@.last();
                &&& b.index == old(self).chain@.len() + 1
                &&& b.transactions == old(self).current_transactions
                &&& b.proof == proof
                &&& b.previous_hash == previous_hash
            }),
            final(self).current_transactions@.len() == 0,
            final(self).nodes == old(self).nodes,
            indices_ok(old(self).chain@) ==> indices_ok(final(self).chain@),
    {
        let mut txs: Vec<Transaction> = Vec::new();
        std::mem::swap(&mut txs, &mut self.current_transactions);
        let block = Block {
            index: self.chain.len() as u64 + 1,
            timestamp: unix_time_secs(),
            transactions: txs,
            proof: proof,
            previous_hash: previous_hash,
        };
        self.chain.push(block);
        proof {
            assert(self.chain@.drop_last() =~= old(self).chain@);
            if indices_ok(old(self).chain@) {
                assert forall|k: int| 0 <= k < self.chain@.len() implies (#[trigger] self.chain@[k]).index
                    == k + 1 by {
                    if k < old(self).chain@.len() {
                        assert(self.chain@[k] == old(self).chain@[k]);
                    }
                }
            }
        }
    }

    /// Appends a transaction to the pool and returns the index of the block
    /// that will receive it: the last block's index plus one, or `1` on an
    /// empty chain.
    pub fn new_transaction(&mut self, sender: String, recipient: &String, amount: String) -> (r:
        u64)
        requires
            old(self).chain@.len() > 0 ==> old(self).chain@.last().index < u64::MAX,
        ensures
            final(self).current_transactions@ == old(self).current_transactions@.push(
                Transaction { sender: sender, recipient: *recipient, amount: amount },
            ),
            final(self).chain == old(self).chain,
            final(self).nodes == old(self).nodes,
            r as int == if old(self).chain@.len() > 0 {
                old(self).chain@.last().index + 1
            } else {
                1int
            },
    {
        let transaction = Transaction { sender, recipient: recipient.clone(), amount };
        self.current_transactions.push(transaction);
        if self.chain.len() > 0 {
            self.chain[self.chain.len() - 1].index + 1
        } else {
            1
        }
    }

    /// The last block of the chain, if the chain is non-empty.
    pub fn last_block(&self) -> (r: Option<&Block>)
        ensures
            match r {
                Some(b) => self.chain@.len() > 0 && *b == self.chain@.last(),
                None => self.chain@.len() == 0,
            },
    {
        if self.chain.len() == 0 {
            None
        } else {
            Some(&self.chain[self.chain.len() - 1])
        }
    }

    /// The SHA-256 hash of a block's canonical JSON text, as 64 lowercase
    /// hexadecimal digits.
    pub fn hash(block: &Block) -> (r: String)
        ensures
            r@ == spec_block_hash(*block),
            r@.len() == 64,
    {
        let json = block_json(block);
        sha256_hex(json.as_str())
    }

    /// Mines one block: finds the smallest proof valid against the last
    /// block's proof, seals the pool into a block bound to the last block's
    /// hash, and returns that proof. `None` only when no `u64` value at all
    /// satisfies the proof rule, in which case nothing changes.
    pub fn mine(&mut self) -> (r: Option<u64>)
        requires
            old(self).chain@.len() >= 1,
            old(self).chain@.len() + 1 <= u64::MAX,
        ensures
            match r {
                Some(p) => {
                    &&& spec_valid_proof(old(self).chain@.last().proof as nat, p as nat)
                    &&& forall|q: u64|
                        q < p ==> !spec_valid_proof(
                            old(self).chain@.last().proof as nat,
                            q as nat,
                        )
                    &&& final(self).chain@.len() == old(self).chain@.len() + 1
                    &&& final(self).chain@.drop_last() == old(self).chain@
                    &&& ({
                        let b = final(self).chain@.last();
                        &&& b.index == old(self).chain@.len() + 1
                        &&& b.transactions == old(self).current_transactions
                        &&& b.proof == p
                        &&& b.previous_hash matches Some(h) && h@ == spec_block_hash(
                            old(self).chain@.last(),
                        )
                    })
                    &&& final(self).current_transactions@.len() == 0
                    &&& (indices_ok(old(self).chain@) ==> indices_ok(final(self).chain@))
                    &&& (spec_valid_chain(old(self).chain@) ==> spec_valid_chain(
                        final(self).chain@,
                    ))
                },
                None => {
                    &&& final(self).chain == old(self).chain
                    &&& final(self).current_transactions == old(self).current_transactions
                    &&& !(exists|q: u64|
                        spec_valid_proof(old(self).chain@.last().proof as nat, q as nat))
                },
            },
            final(self).nodes == old(self).nodes,
    {
        let last_index = self.chain.len() - 1;
        let last_proof = self.chain[last_index].proof;
        let p = Self::proof_of_work(last_proof);
        if !Self::valid_proof(last_proof, p) {
            return None;
        }
        let previous_hash = Self::hash(&self.chain[last_index]);
        self.new_block(p, Some(previous_hash));
        proof {
            if spec_valid_chain(old(self).chain@) {
                let c = self.chain@;
                assert forall|k: int| 1 <= k < c.len() implies block_linked(
                    c[k - 1],
                    #[trigger] c[k],
                ) by {
                    if k < c.len() - 1 {
                        assert(c[k] == old(self).chain@[k]);
                        assert(c[k - 1] == old(self).chain@[k - 1]);
                    } else {
                        assert(c[k - 1] == old(self).chain@[k - 1]);
                    }
                }
            }
        }
        Some(p)
    }
}

} // verus!
