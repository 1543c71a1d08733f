use ledger_chain::canonical::Canonical;
use ledger_chain::chain::{Chain, DEFAULT_REWARD};
use ledger_chain::model::{BlockHeader, Transaction};
use ledger_chain::pair::MyNewStruct;
use ledger_chain::poll::Ballot;
use ledger_chain::pow::meets_difficulty_check;

const ZEROS: &str = "0000000000000000000000000000000000000000000000000000000000000000";

fn tx(sender: &str, receiver: &str, amount: u64) -> Transaction {
    Transaction::new(sender.to_string(), receiver.to_string(), amount)
}

#[test]
fn hex_is_zero_padded() {
    assert_eq!(Chain::hex_to_string(&[0x05, 0xab, 0x00, 0x10]), "05ab0010");
    assert_eq!(Chain::hex_to_string(&[]), "");
}

#[test]
fn transaction_canonical_text() {
    let t = tx("bob", "carol", 500);
    assert_eq!(t.to_canonical(), "{\"sender\":\"bob\",\"receiver\":\"carol\",\"amount\":5.00}");
    assert_eq!(tx("a", "b", 5).to_canonical(), "{\"sender\":\"a\",\"receiver\":\"b\",\"amount\":0.05}");
}

#[test]
fn string_fields_are_escaped() {
    let t = tx("a\"b", "c\\d", 12345);
    assert_eq!(t.to_canonical(), "{\"sender\":\"a\\\"b\",\"receiver\":\"c\\\\d\",\"amount\":123.45}");
}

#[test]
fn header_canonical_text_and_digest() {
    let h = BlockHeader {
        timestamp: -5,
        nonce: 7,
        pre_hash: "ab".to_string(),
        merkle: "cd".to_string(),
        difficulty: 2,
    };
    assert_eq!(
        h.to_canonical(),
        "{\"timestamp\":-5,\"nonce\":7,\"pre_hash\":\"ab\",\"merkle\":\"cd\",\"difficulty\":2}"
    );
    assert_eq!(Chain::hash(&h), "8f47ea69a670681db1b78ad1fd93593ec0cdb72c15738051a8cbbc0e9a9139c9");
}

#[test]
fn digests_of_records() {
    assert_eq!(
        Chain::hash(&tx("bob", "carol", 500)),
        "8124f534d5e143fcb3ea282d34b92251f262119270265620073ad79b22d68a62"
    );
    assert_eq!(
        Chain::hash(&"abc".to_string()),
        "6cc43f858fbb763301637b5af970e2a46b46f461f27e5a0f41e009c59b827b25"
    );
}

#[test]
fn merkle_of_no_transactions_is_digest_of_empty_bytes() {
    assert_eq!(
        Chain::get_merkle(&vec![]),
        "e3b0c44298fc1c149afbf4c8996fb92427ae41e4649b934ca495991b7852b855"
    );
}

#[test]
fn merkle_values() {
    assert_eq!(
        Chain::get_merkle(&vec![tx("bob", "carol", 500)]),
        "e3178bae2ffc222df32bb5633535de750237f68912101f0f7a56b6db60c03c1a"
    );
    assert_eq!(
        Chain::get_merkle(&vec![tx("a", "b", 1), tx("c", "d", 2)]),
        "7a87d32f8b20e3705573f9b5b6eeb01971ce0050a2af97f9574816bc84fcd8ea"
    );
    assert_eq!(
        Chain::get_merkle(&vec![tx("a", "b", 1), tx("c", "d", 2), tx("e", "f", 3)]),
        "6fd0196f0e76df3b4b804d1130bec7701d3311f6b8d2df5f8dd0515a299d1c8a"
    );
}

#[test]
fn merkle_is_deterministic() {
    let txs = vec![tx("a", "b", 1), tx("c", "d", 2), tx("e", "f", 3)];
    let again = vec![tx("a", "b", 1), tx("c", "d", 2), tx("e", "f", 3)];
    assert_eq!(Chain::get_merkle(&txs), Chain::get_merkle(&again));
    assert_eq!(Chain::get_merkle(&txs), Chain::get_merkle(&txs));
}

#[test]
fn merkle_depends_on_order() {
    let forward = vec![tx("a", "b", 1), tx("c", "d", 2)];
    let swapped = vec![tx("c", "d", 2), tx("a", "b", 1)];
    assert_eq!(
        Chain::get_merkle(&swapped),
        "43e2a99c54c4cb840e24bbc4d4968248f665f4f47a827f6e6fab225ec52f01ea"
    );
    assert_ne!(Chain::get_merkle(&forward), Chain::get_merkle(&swapped));
}

#[test]
fn difficulty_check() {
    assert!(meets_difficulty_check("00ab", 2));
    assert!(meets_difficulty_check("00ab", 0));
    assert!(!meets_difficulty_check("0a0b", 2));
    assert!(!meets_difficulty_check("01ab", 2));
    assert!(!meets_difficulty_check("0", 2));
    assert!(meets_difficulty_check("", 0));
}

#[test]
fn genesis_block() {
    let c = Chain::new("miner1".to_string(), 1, 1_700_000_000_000);
    assert_eq!(c.blocks().len(), 1);
    let g = &c.blocks()[0];
    assert_eq!(g.header.pre_hash, ZEROS);
    assert_eq!(g.header.pre_hash.len(), 64);
    assert_eq!(g.transactions.len(), 1);
    assert_eq!(g.count, 1);
    assert_eq!(g.transactions[0].sender, "Root");
    assert_eq!(g.transactions[0].receiver, "miner1");
    assert_eq!(g.transactions[0].amount, DEFAULT_REWARD);
    assert!(g.header.is_mined());
    assert!(c.pending().is_empty());
}

#[test]
fn genesis_at_fixed_time() {
    let c = Chain::new("miner1".to_string(), 1, 1000);
    let g = &c.blocks()[0];
    assert_eq!(g.header.timestamp, 1000);
    assert_eq!(g.header.nonce, 31);
    assert_eq!(g.header.merkle, "784d33011ad3febedd76833138ebb8c7516104f2f70bd2d9a2d682653cf0827c");
    assert_eq!(c.last_block_hash(), "06044acb85a8eeddcc0b52eec6546eb220d325769042f6d06dda582b3f53a0af");
}

#[test]
fn blocks_are_linked() {
    let mut c = Chain::new("miner1".to_string(), 1, 1_700_000_000_000);
    for k in 0..4u64 {
        c.new_transaction("bob".to_string(), "carol".to_string(), k);
        assert!(c.generate_new_block(1_700_000_000_100 + k as i64));
    }
    let blocks = c.blocks();
    assert_eq!(blocks.len(), 5);
    assert_eq!(blocks[0].header.pre_hash, ZEROS);
    for i in 1..blocks.len() {
        assert_eq!(blocks[i].header.pre_hash, Chain::hash(&blocks[i - 1].header));
    }
    assert_eq!(c.last_block_hash(), Chain::hash(&blocks[4].header));
}

#[test]
fn mined_headers_pass_their_check() {
    let mut c = Chain::new("miner1".to_string(), 2, 1_700_000_000_000);
    c.new_transaction("x".to_string(), "y".to_string(), 1);
    assert!(c.generate_new_block(1_700_000_000_002));
    for b in c.blocks() {
        assert!(b.header.is_mined());
        assert!(meets_difficulty_check(&Chain::hash(&b.header), b.header.difficulty));
        assert_eq!(b.header.merkle, Chain::get_merkle(&b.transactions));
    }
}

#[test]
fn pending_transactions_are_drained_in_order() {
    let mut c = Chain::new("miner1".to_string(), 1, 1_700_000_000_000);
    assert!(c.new_transaction("t1s".to_string(), "t1r".to_string(), 100));
    assert!(c.new_transaction("t2s".to_string(), "t2r".to_string(), 200));
    assert_eq!(c.pending().len(), 2);
    assert!(c.generate_new_block(1_700_000_000_003));
    assert!(c.pending().is_empty());
    let b = &c.blocks()[1];
    assert_eq!(b.count, 3);
    assert_eq!(b.transactions.len(), 3);
    assert_eq!(b.transactions[0].sender, "Root");
    assert_eq!(b.transactions[0].receiver, "miner1");
    assert_eq!(b.transactions[1].sender, "t1s");
    assert_eq!(b.transactions[1].receiver, "t1r");
    assert_eq!(b.transactions[1].amount, 100);
    assert_eq!(b.transactions[2].sender, "t2s");
    assert_eq!(b.transactions[2].amount, 200);
}

#[test]
fn difficulty_zero_accepts_first_nonce() {
    let c = Chain::new("alice".to_string(), 0, 1_700_000_000_000);
    assert_eq!(c.blocks().len(), 1);
    assert_eq!(c.blocks()[0].header.nonce, 0);
    assert_eq!(c.blocks()[0].header.difficulty, 0);
}

#[test]
fn mining_increments_nonce_until_accepted() {
    let mut c = Chain::new("miner1".to_string(), 1, 1000);
    c.new_transaction("bob".to_string(), "carol".to_string(), 500);
    assert!(c.generate_new_block(2000));
    let b = &c.blocks()[1];
    assert_eq!(b.header.nonce, 12);
    assert_eq!(b.header.pre_hash, "06044acb85a8eeddcc0b52eec6546eb220d325769042f6d06dda582b3f53a0af");
    assert_eq!(b.header.merkle, "ae6247c148f325004e93018cb97c9d37e3b1648eb089686a670e54198ba45b2c");
    assert!(b.header.is_mined());
    assert_eq!(c.last_block_hash(), "084322de173d5c2b8ea398cfa0417071d3eca93bde353e4a804caecd66f64603");
    let mut retry = BlockHeader {
        timestamp: 2000,
        nonce: 0,
        pre_hash: b.header.pre_hash.clone(),
        merkle: b.header.merkle.clone(),
        difficulty: 1,
    };
    assert!(!retry.is_mined());
    assert!(Chain::proof_of_work(&mut retry));
    assert_eq!(retry.nonce, 12);
}

#[test]
fn unreachable_difficulty_leaves_header_unchanged() {
    let mut h = BlockHeader {
        timestamp: 0,
        nonce: u32::MAX - 3,
        pre_hash: "ab".to_string(),
        merkle: "cd".to_string(),
        difficulty: 65,
    };
    assert!(!Chain::proof_of_work(&mut h));
    assert_eq!(h.nonce, u32::MAX - 3);
}

#[test]
fn parameter_updates_apply_to_next_block() {
    let mut c = Chain::new("miner1".to_string(), 1, 1_700_000_000_000);
    assert!(c.update_difficulty(2));
    assert!(c.update_reward(250));
    assert_eq!(c.difficulty(), 2);
    assert_eq!(c.reward(), 250);
    assert_eq!(c.blocks()[0].header.difficulty, 1);
    assert!(c.generate_new_block(1_700_000_000_004));
    let b = &c.blocks()[1];
    assert_eq!(b.header.difficulty, 2);
    assert_eq!(b.transactions[0].amount, 250);
    assert!(Chain::hash(&b.header).starts_with("00"));
    assert_eq!(c.miner_addr(), "miner1");
}

#[test]
fn proof_of_work_at_zero_difficulty_keeps_nonce() {
    let mut h = BlockHeader {
        timestamp: 0,
        nonce: 0,
        pre_hash: String::new(),
        merkle: String::new(),
        difficulty: 0,
    };
    assert!(Chain::proof_of_work(&mut h));
    assert_eq!(h.nonce, 0);
}

#[test]
fn ballot_and_pair() {
    let b = Ballot { option: "yes".to_string() };
    assert_eq!(b.clone(), Ballot { option: "yes".to_string() });
    let p = MyNewStruct::new(10, 12);
    assert_eq!(p.a, 10);
    assert_eq!(p.b, 12);
}

#[test]
fn digests_have_fixed_length() {
    assert_eq!(Chain::get_merkle(&vec![tx("a", "b", 1)]).len(), 64);
    let c = Chain::new("m".to_string(), 0, 0);
    assert_eq!(c.last_block_hash().len(), 64);
}

#[test]
fn difficulty_zero_blocks_always_mine() {
    let mut c = Chain::new("m".to_string(), 0, 5);
    c.new_transaction("x".to_string(), "y".to_string(), 7);
    assert!(c.generate_new_block(6));
    assert_eq!(c.blocks().len(), 2);
    assert_eq!(c.blocks()[1].header.nonce, 0);
    assert!(c.pending().is_empty());
}

#[test]
fn difficulty_beyond_digest_never_mines() {
    let mut h = BlockHeader {
        timestamp: 0,
        nonce: 0,
        pre_hash: String::new(),
        merkle: String::new(),
        difficulty: 65,
    };
    assert!(!Chain::proof_of_work(&mut h));
    assert_eq!(h.nonce, 0);
}
