use hashchain::block::{Block, Difficulty, MiningError};
use hashchain::chain::Blockchain;

const T0: u64 = 1_700_000_000;

fn easy() -> Difficulty {
    Difficulty::new(0)
}

#[test]
fn calculate_hash_of_known_block() {
    let block = Block::new(0, "0".to_string(), T0, "alpha".to_string());
    assert_eq!(
        block.calculate_hash(),
        "46bfcebd5080cb5a649462f06fc4e056b81b16ece3483c5076dac895957692a4"
    );
}

#[test]
fn calculate_hash_includes_nonce() {
    let mut block = Block::new(0, "0".to_string(), T0, "alpha".to_string());
    block.nonce = 1;
    assert_eq!(
        block.calculate_hash(),
        "f52528b81ec3931db2c74d0ae162443044b0c627e4fd7e67db5c6b360a602fbf"
    );
}

#[test]
fn new_block_is_unmined() {
    let block = Block::new(3, "abc".to_string(), 42, "data".to_string());
    assert_eq!(block.index, 3);
    assert_eq!(block.previous_digest, "abc");
    assert_eq!(block.created_at, 42);
    assert_eq!(block.payload, "data");
    assert_eq!(block.nonce, 0);
    assert_eq!(block.digest, "");
}

#[test]
fn mining_accepted_at_nonce_zero_takes_one_attempt() {
    let mut block = Block::new(0, "0".to_string(), T0, "alpha".to_string());
    assert_eq!(block.mine(&easy()), Ok(1));
    assert_eq!(block.nonce, 0);
    assert_eq!(
        block.digest,
        "46bfcebd5080cb5a649462f06fc4e056b81b16ece3483c5076dac895957692a4"
    );
}

#[test]
fn mining_stops_at_first_accepted_nonce() {
    let mut block = Block::new(0, "0".to_string(), T0, "alpha".to_string());
    assert_eq!(block.mine(&Difficulty::new(1)), Ok(18));
    assert_eq!(block.nonce, 17);
    assert_eq!(
        block.digest,
        "0b3c4d3589c22a9e0c7405ee055cc36cc70b3ef5afb3e8a039facb0f689858f3"
    );
    assert!(block.is_valid(&Difficulty::new(1)));
    assert!(!block.is_valid(&Difficulty::new(2)));
}

#[test]
fn mining_two_leading_zeros() {
    let mut block = Block::new(0, "0".to_string(), T0, "alpha".to_string());
    assert_eq!(block.mine(&Difficulty::new(2)), Ok(508));
    assert_eq!(block.nonce, 507);
    assert!(block.digest.starts_with("00"));
    assert!(block.digest_matches());
}

#[test]
fn mining_gives_up_after_max_nonce() {
    let mut block = Block::new(0, "0".to_string(), T0, "alpha".to_string());
    let bounded = Difficulty { leading_zeros: 1, max_nonce: 10 };
    assert_eq!(block.mine(&bounded), Err(MiningError::Exhausted));
    assert_eq!(block.nonce, 10);
    assert!(block.digest_matches());
}

#[test]
fn difficulty_counts_leading_zero_digits() {
    let d2 = Difficulty::new(2);
    assert!(d2.accepts(&"00ab".to_string()));
    assert!(d2.accepts(&"000".to_string()));
    assert!(!d2.accepts(&"0a0b".to_string()));
    assert!(!d2.accepts(&"0".to_string()));
    assert!(Difficulty::new(0).accepts(&String::new()));
    assert_eq!(d2.max_nonce, u32::MAX);
}

#[test]
fn empty_and_single_block_chains_are_valid() {
    let mut chain = Blockchain::with_difficulty(easy());
    assert_eq!(chain.len(), 0);
    assert!(chain.is_chain_valid());
    chain.add_block("genesis".to_string(), T0).unwrap();
    assert_eq!(chain.len(), 1);
    assert!(chain.is_chain_valid());
}

#[test]
fn first_block_links_to_zero() {
    let mut chain = Blockchain::with_difficulty(easy());
    chain.add_block("first".to_string(), T0).unwrap();
    assert_eq!(chain.blocks[0].previous_digest, "0");
    assert_eq!(chain.blocks[0].index, 0);
    assert_eq!(chain.blocks[0].payload, "first");
    assert_eq!(chain.blocks[0].created_at, T0);
}

#[test]
fn appends_number_blocks_in_order_and_stay_valid() {
    let mut chain = Blockchain::with_difficulty(Difficulty::new(1));
    for n in 0..5u64 {
        chain.add_block(format!("tx {}", n), T0 + n).unwrap();
        assert!(chain.is_chain_valid());
    }
    assert_eq!(chain.len(), 5);
    for (i, block) in chain.blocks.iter().enumerate() {
        assert_eq!(block.index, i);
        assert!(block.digest.starts_with('0'));
        if i > 0 {
            assert_eq!(block.previous_digest, chain.blocks[i - 1].digest);
        }
    }
}

#[test]
fn alpha_beta_then_tampered_payload() {
    let mut chain = Blockchain::with_difficulty(easy());
    chain.add_block("alpha".to_string(), T0).unwrap();
    chain.add_block("beta".to_string(), T0 + 1).unwrap();
    assert!(chain.is_chain_valid());
    chain.blocks[0].payload = "tampered".to_string();
    assert!(!chain.is_chain_valid());
}

#[test]
fn tampered_genesis_payload_keeps_the_old_link() {
    let mut chain = Blockchain::with_difficulty(easy());
    chain.add_block("alpha".to_string(), T0).unwrap();
    chain.add_block("beta".to_string(), T0 + 1).unwrap();
    let old_digest = chain.blocks[0].digest.clone();
    chain.blocks[0].payload = "tampered".to_string();
    assert_eq!(chain.blocks[1].previous_digest, old_digest);
    assert_eq!(chain.blocks[0].digest, old_digest);
    assert!(!chain.blocks[0].digest_matches());
    assert!(!chain.is_chain_valid());
}

fn two_block_chain() -> Blockchain {
    let mut chain = Blockchain::with_difficulty(easy());
    chain.add_block("alpha".to_string(), T0).unwrap();
    chain.add_block("beta".to_string(), T0 + 1).unwrap();
    chain
}

#[test]
fn tampering_any_field_of_any_block_is_detected() {
    for k in 0..2 {
        let mut chain = two_block_chain();
        chain.blocks[k].payload.push('!');
        assert!(!chain.is_chain_valid());

        let mut chain = two_block_chain();
        chain.blocks[k].created_at += 1;
        assert!(!chain.is_chain_valid());

        let mut chain = two_block_chain();
        chain.blocks[k].nonce += 1;
        assert!(!chain.is_chain_valid());

        let mut chain = two_block_chain();
        chain.blocks[k].previous_digest.push('0');
        assert!(!chain.is_chain_valid());
    }
}

#[test]
fn broken_link_is_detected() {
    let mut chain = two_block_chain();
    chain.blocks[1].previous_digest = "0".to_string();
    assert!(!chain.is_chain_valid());
}

#[test]
fn single_block_chain_is_valid_even_when_tampered() {
    let mut chain = Blockchain::with_difficulty(easy());
    chain.add_block("alpha".to_string(), T0).unwrap();
    chain.blocks[0].payload = "tampered".to_string();
    assert!(chain.is_chain_valid());
}

#[test]
fn exhausted_mining_leaves_chain_unchanged() {
    let mut chain = Blockchain::with_difficulty(Difficulty { leading_zeros: 70, max_nonce: 3 });
    assert_eq!(chain.add_block("alpha".to_string(), T0), Err(MiningError::Exhausted));
    assert_eq!(chain.len(), 0);
}

#[test]
fn empty_payload_is_accepted() {
    let mut chain = Blockchain::with_difficulty(easy());
    assert_eq!(chain.add_block(String::new(), T0), Ok(()));
    assert_eq!(chain.blocks[0].payload, "");
    assert!(chain.is_chain_valid());
}

#[test]
fn default_chain_mines_with_four_zeros() {
    let chain = Blockchain::new();
    assert_eq!(chain.difficulty, Difficulty::new(4));
    assert_eq!(chain.len(), 0);
}

#[test]
fn default_chain_appends_with_four_leading_zeros() {
    let mut chain = Blockchain::new();
    chain.add_block("payment".to_string(), T0).unwrap();
    assert!(chain.blocks[0].digest.starts_with("0000"));
    assert!(chain.blocks[0].digest_matches());
    assert!(chain.is_chain_valid());
}
