use blockchain::{Block, BlockChain, Transaction};

// Deterministic proof-of-work values for the fixed difficulty:
// sha256("18719932"), sha256("871993255726821") and sha256("665782") all
// start with six zero hex digits, and each proof is the smallest such value
// for its predecessor.
const PROOF_AFTER_1: u64 = 8719932;
const PROOF_AFTER_8719932: u64 = 55726821;
const CHEAP_LAST_PROOF: u64 = 665;
const PROOF_AFTER_665: u64 = 782;

#[test]
fn genesis_state() {
    let ledger = BlockChain::new();
    assert_eq!(ledger.chain.len(), 1);
    assert_eq!(ledger.chain[0].index, 1);
    assert_eq!(ledger.chain[0].proof, 1);
    assert_eq!(ledger.chain[0].previous_hash, Some("100".to_string()));
    assert!(ledger.chain[0].transactions.is_empty());
    assert!(ledger.current_transactions.is_empty());
    assert!(ledger.nodes.is_empty());
}

#[test]
fn submit_returns_next_block_index() {
    let mut ledger = BlockChain::new();
    let idx = ledger.new_transaction("A".to_string(), &"B".to_string(), "5".to_string());
    assert_eq!(idx, 2);
    assert_eq!(ledger.current_transactions.len(), 1);
    assert_eq!(
        ledger.current_transactions[0],
        Transaction {
            sender: "A".to_string(),
            recipient: "B".to_string(),
            amount: "5".to_string(),
        }
    );
}

#[test]
fn new_block_seals_pool_in_order() {
    let mut ledger = BlockChain::new();
    ledger.new_transaction("A".to_string(), &"B".to_string(), "5".to_string());
    ledger.new_transaction("C".to_string(), &"D".to_string(), "7".to_string());
    let previous_hash = BlockChain::hash(&ledger.chain[0]);
    ledger.new_block(PROOF_AFTER_1, Some(previous_hash.clone()));
    assert_eq!(ledger.chain.len(), 2);
    assert_eq!(ledger.chain[1].index, 2);
    assert_eq!(ledger.chain[1].proof, PROOF_AFTER_1);
    assert_eq!(ledger.chain[1].previous_hash, Some(previous_hash));
    assert_eq!(ledger.chain[1].transactions.len(), 2);
    assert_eq!(ledger.chain[1].transactions[0].sender, "A");
    assert_eq!(ledger.chain[1].transactions[0].recipient, "B");
    assert_eq!(ledger.chain[1].transactions[0].amount, "5");
    assert_eq!(ledger.chain[1].transactions[1].sender, "C");
    // The pool is empty again after the block is sealed.
    assert!(ledger.current_transactions.is_empty());
}

#[test]
fn new_block_with_empty_pool() {
    let mut ledger = BlockChain::new();
    assert!(BlockChain::valid_proof(1, PROOF_AFTER_1));
    let previous_hash = BlockChain::hash(&ledger.chain[0]);
    ledger.new_block(PROOF_AFTER_1, Some(previous_hash));
    assert_eq!(ledger.chain.len(), 2);
    assert_eq!(ledger.chain[1].index, 2);
    assert_eq!(ledger.chain[1].proof, PROOF_AFTER_1);
    assert!(ledger.chain[1].transactions.is_empty());
}

#[test]
fn hash_is_deterministic_hex() {
    let ledger = BlockChain::new();
    let h1 = BlockChain::hash(&ledger.chain[0]);
    let h2 = BlockChain::hash(&ledger.chain[0]);
    assert_eq!(h1, h2);
    assert_eq!(h1.len(), 64);
    assert!(h1.chars().all(|c| c.is_ascii_hexdigit() && !c.is_ascii_uppercase()));
}

#[test]
fn hash_depends_on_contents() {
    let a = Block {
        index: 1,
        timestamp: 0,
        transactions: Vec::new(),
        proof: 1,
        previous_hash: Some("100".to_string()),
    };
    let mut b = a.clone();
    b.proof = 2;
    assert_ne!(BlockChain::hash(&a), BlockChain::hash(&b));
}

#[test]
fn valid_proof_known_values() {
    assert!(BlockChain::valid_proof(1, PROOF_AFTER_1));
    assert!(BlockChain::valid_proof(PROOF_AFTER_1, PROOF_AFTER_8719932));
    assert!(BlockChain::valid_proof(CHEAP_LAST_PROOF, PROOF_AFTER_665));
    assert!(!BlockChain::valid_proof(1, PROOF_AFTER_1 - 1));
    assert!(!BlockChain::valid_proof(CHEAP_LAST_PROOF, 0));
    assert!(!BlockChain::valid_proof(CHEAP_LAST_PROOF, PROOF_AFTER_665 - 1));
}

#[test]
fn proof_of_work_finds_smallest() {
    assert_eq!(BlockChain::proof_of_work(CHEAP_LAST_PROOF), PROOF_AFTER_665);
}

#[test]
fn mine_extends_chain_with_linked_block() {
    let mut ledger = BlockChain::new();
    let genesis_hash = BlockChain::hash(&ledger.chain[0]);
    ledger.new_block(CHEAP_LAST_PROOF, Some(genesis_hash));
    ledger.new_transaction("A".to_string(), &"B".to_string(), "5".to_string());
    let mined = ledger.mine();
    assert_eq!(mined, Some(PROOF_AFTER_665));
    assert_eq!(ledger.chain.len(), 3);
    assert_eq!(ledger.chain[2].index, 3);
    assert_eq!(ledger.chain[2].proof, PROOF_AFTER_665);
    assert_eq!(
        ledger.chain[2].previous_hash,
        Some(BlockChain::hash(&ledger.chain[1]))
    );
    assert!(BlockChain::valid_proof(
        ledger.chain[1].proof,
        ledger.chain[2].proof
    ));
    assert_eq!(ledger.chain[2].transactions.len(), 1);
    assert_eq!(ledger.chain[2].transactions[0].sender, "A");
    assert!(ledger.current_transactions.is_empty());
}

#[test]
fn last_block_is_chain_tail() {
    let mut ledger = BlockChain::new();
    let previous_hash = BlockChain::hash(&ledger.chain[0]);
    ledger.new_block(PROOF_AFTER_1, Some(previous_hash));
    let last = ledger.last_block().expect("non-empty chain");
    assert_eq!(last.index, 2);
    assert_eq!(last.proof, PROOF_AFTER_1);
}

#[test]
fn register_extracts_host() {
    let mut ledger = BlockChain::new();
    ledger.register_node("http://example.com:8080/path".to_string());
    assert_eq!(ledger.nodes, vec!["example.com".to_string()]);
}

#[test]
fn register_non_url_is_no_op() {
    let mut ledger = BlockChain::new();
    ledger.register_node("not a url".to_string());
    assert!(ledger.nodes.is_empty());
}

#[test]
fn register_url_without_host_is_no_op() {
    let mut ledger = BlockChain::new();
    ledger.register_node("file:///x".to_string());
    assert!(ledger.nodes.is_empty());
}
