use blockchain::{Block, BlockChain};

// Proofs valid against 1 and then against 8719932 under the fixed
// difficulty; each is the smallest such value for its predecessor.
const PROOF_AFTER_1: u64 = 8719932;
const PROOF_AFTER_8719932: u64 = 55726821;

// A valid three-block chain whose genesis carries the given timestamp:
// every block after the first holds its predecessor's hash and a proof
// valid against its predecessor's proof.
fn valid_chain_of_three(genesis_timestamp: u64) -> Vec<Block> {
    let genesis = Block {
        index: 1,
        timestamp: genesis_timestamp,
        transactions: Vec::new(),
        proof: 1,
        previous_hash: Some("100".to_string()),
    };
    let second = Block {
        index: 2,
        timestamp: genesis_timestamp + 1,
        transactions: Vec::new(),
        proof: PROOF_AFTER_1,
        previous_hash: Some(BlockChain::hash(&genesis)),
    };
    let third = Block {
        index: 3,
        timestamp: genesis_timestamp + 2,
        transactions: Vec::new(),
        proof: PROOF_AFTER_8719932,
        previous_hash: Some(BlockChain::hash(&second)),
    };
    vec![genesis, second, third]
}

fn invalid_chain_of(len: u64) -> Vec<Block> {
    let mut chain = Vec::new();
    for i in 0..len {
        chain.push(Block {
            index: i + 1,
            timestamp: i,
            transactions: Vec::new(),
            proof: i,
            previous_hash: Some("bogus".to_string()),
        });
    }
    chain
}

#[test]
fn valid_chain_accepts_linked_blocks() {
    let ledger = BlockChain::new();
    assert!(ledger.valid_chain(&valid_chain_of_three(7)));
}

#[test]
fn valid_chain_rejects_wrong_hash() {
    let ledger = BlockChain::new();
    let mut chain = valid_chain_of_three(7);
    chain[2].previous_hash = Some("tampered".to_string());
    assert!(!ledger.valid_chain(&chain));
}

#[test]
fn valid_chain_rejects_wrong_proof() {
    let ledger = BlockChain::new();
    let mut chain = valid_chain_of_three(7);
    chain[2].proof += 1;
    chain[2].previous_hash = Some(BlockChain::hash(&chain[1]));
    assert!(!ledger.valid_chain(&chain));
}

#[test]
fn consensus_adopts_longer_valid_chain() {
    let mut ledger = BlockChain::new();
    let peer_chain = valid_chain_of_three(7);
    let replaced = ledger.resolve_conflicts(vec![peer_chain.clone()]);
    assert!(replaced);
    assert_eq!(ledger.chain, peer_chain);
}

#[test]
fn consensus_rejects_longer_invalid_chain() {
    let mut ledger = BlockChain::new();
    ledger.new_block(2, Some(BlockChain::hash(&ledger.chain[0])));
    ledger.new_block(3, Some(BlockChain::hash(&ledger.chain[1])));
    let before = ledger.chain.clone();
    let replaced = ledger.resolve_conflicts(vec![invalid_chain_of(5)]);
    assert!(!replaced);
    assert_eq!(ledger.chain, before);
}

#[test]
fn consensus_ignores_equal_length_chain() {
    let mut ledger = BlockChain::new();
    let peer_chain = valid_chain_of_three(7);
    ledger.resolve_conflicts(vec![peer_chain.clone()]);
    let before = ledger.chain.clone();
    // Another chain of the same length, valid but different.
    let rival = valid_chain_of_three(100);
    let replaced = ledger.resolve_conflicts(vec![rival]);
    assert!(!replaced);
    assert_eq!(ledger.chain, before);
}

#[test]
fn consensus_is_idempotent_without_longer_peer() {
    let mut ledger = BlockChain::new();
    ledger.resolve_conflicts(vec![valid_chain_of_three(7)]);
    let before = ledger.chain.clone();
    let shorter = vec![before[0].clone()];
    assert!(!ledger.resolve_conflicts(vec![shorter.clone()]));
    assert_eq!(ledger.chain, before);
    assert!(!ledger.resolve_conflicts(vec![shorter]));
    assert_eq!(ledger.chain, before);
}

#[test]
fn consensus_skips_unreachable_peer() {
    let mut ledger = BlockChain::new();
    // A failed fetch is handed in as an empty chain.
    let replaced = ledger.resolve_conflicts(vec![Vec::new()]);
    assert!(!replaced);
    assert_eq!(ledger.chain.len(), 1);
}

#[test]
fn consensus_later_peer_wins_ties() {
    let mut ledger = BlockChain::new();
    let first = valid_chain_of_three(7);
    let second = valid_chain_of_three(100);
    assert_ne!(first, second);
    let replaced = ledger.resolve_conflicts(vec![first, second.clone()]);
    assert!(replaced);
    assert_eq!(ledger.chain, second);
}
