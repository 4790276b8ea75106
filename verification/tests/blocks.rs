use minichain::block::{run_proof_of_work, Block};
use minichain::digest::{has_zero_prefix, hex_digest, TARGET_HEXT};
use minichain::transaction::Transaction;

fn push_str(buf: &mut Vec<u8>, s: &str) {
    buf.extend_from_slice(&(s.len() as u64).to_le_bytes());
    buf.extend_from_slice(s.as_bytes());
}

fn payload_bytes(prev: &str, txs: &[Transaction], timestamp: u128, nonce: i32) -> Vec<u8> {
    let mut buf = Vec::new();
    push_str(&mut buf, prev);
    buf.extend_from_slice(&(txs.len() as u64).to_le_bytes());
    for t in txs {
        push_str(&mut buf, &t.id);
        buf.extend_from_slice(&(t.vin.len() as u64).to_le_bytes());
        for i in &t.vin {
            push_str(&mut buf, &i.txid);
            buf.extend_from_slice(&i.vout.to_le_bytes());
            push_str(&mut buf, &i.script_sig);
        }
        buf.extend_from_slice(&(t.vout.len() as u64).to_le_bytes());
        for o in &t.vout {
            buf.extend_from_slice(&o.value.to_le_bytes());
            push_str(&mut buf, &o.script_pub_key);
        }
    }
    buf.extend_from_slice(&timestamp.to_le_bytes());
    buf.extend_from_slice(&(TARGET_HEXT as u64).to_le_bytes());
    buf.extend_from_slice(&nonce.to_le_bytes());
    buf
}

fn reward(to: &str) -> Transaction {
    Transaction::new_coinbase(to.to_string(), String::new()).unwrap()
}

#[test]
fn test_blockchain() {
    let genesis = Block::new_genesis_block(reward("Alice")).unwrap();
    assert_eq!(genesis.get_prev_hash(), "");
    assert_eq!(genesis.get_height(), 0);
    assert_eq!(genesis.validate(), Ok(true));
    let second = Block::new_block_at(
        vec![reward("Bob")],
        genesis.get_hash(),
        genesis.get_height() + 1,
        genesis.get_timestamp() + 1,
    )
    .unwrap();
    assert_eq!(second.get_prev_hash(), genesis.get_hash());
    assert_eq!(second.get_height(), 1);
    assert_eq!(&second.get_hash()[0..4], "0000");
    assert_eq!(second.validate(), Ok(true));
}

#[test]
fn genesis_block_holds_the_coinbase() {
    let coinbase = reward("Alice");
    let genesis = Block::new_genesis_block(coinbase.clone()).unwrap();
    assert_eq!(genesis.get_height(), 0);
    assert_eq!(genesis.get_prev_hash(), "");
    assert_eq!(&genesis.get_hash()[0..4], "0000");
    assert_eq!(genesis.get_transaction(), &vec![coinbase]);
}

#[test]
fn mined_hash_is_digest_of_the_payload() {
    let txs = vec![reward("Alice"), reward("Bob")];
    let block = Block::new_block_at(txs.clone(), "00ab".to_string(), 7, 1_700_000_000_000).unwrap();
    assert_eq!(block.get_timestamp(), 1_700_000_000_000);
    assert_eq!(block.get_height(), 7);
    assert_eq!(block.get_prev_hash(), "00ab");
    assert_eq!(block.get_transaction(), &txs);
    let bytes = payload_bytes("00ab", &txs, 1_700_000_000_000, block.get_nonce());
    assert_eq!(hex_digest(&bytes), Some(block.get_hash()));
    assert!(has_zero_prefix(&block.get_hash()));
    assert_eq!(block.get_hash().len(), 64);
}

#[test]
fn mining_is_repeatable() {
    let txs = vec![reward("Alice")];
    let a = Block::new_block_at(txs.clone(), String::new(), 0, 42).unwrap();
    let b = Block::new_block_at(txs, String::new(), 0, 42).unwrap();
    assert_eq!(a, b);
    assert_eq!(a.get_hash(), b.get_hash());
    assert_eq!(a.get_nonce(), b.get_nonce());
}

#[test]
fn mining_returns_the_first_nonce_that_meets_the_target() {
    let txs = vec![reward("Alice")];
    let prev = "0000feed".to_string();
    let (nonce, hash) = run_proof_of_work(&prev, &txs, 99).unwrap();
    assert!(nonce >= 0);
    assert_eq!(hex_digest(&payload_bytes(&prev, &txs, 99, nonce)), Some(hash.clone()));
    assert!(has_zero_prefix(&hash));
    for m in 0..nonce {
        let digest = hex_digest(&payload_bytes(&prev, &txs, 99, m)).unwrap();
        assert!(!has_zero_prefix(&digest));
    }
}

#[test]
fn validate_recomputes_the_digest() {
    let txs = vec![reward("Alice")];
    let block = Block::new_block_at(txs.clone(), String::new(), 0, 5).unwrap();
    assert_eq!(block.validate(), Ok(true));
    let copy = Block::from_parts(5, txs.clone(), String::new(), block.get_hash(), 0, block.get_nonce());
    assert_eq!(copy, block);
    assert_eq!(copy.validate(), Ok(true));
    let mut other = block.get_nonce();
    let mut digest = block.get_hash();
    while has_zero_prefix(&digest) {
        other += 1;
        digest = hex_digest(&payload_bytes("", &txs, 5, other)).unwrap();
    }
    let forged = Block::from_parts(5, txs, String::new(), block.get_hash(), 0, other);
    assert_eq!(forged.validate(), Ok(false));
}

#[test]
fn zero_prefix_cases() {
    assert!(has_zero_prefix("0000"));
    assert!(has_zero_prefix("0000abc"));
    assert!(has_zero_prefix("00000"));
    assert!(!has_zero_prefix("000"));
    assert!(!has_zero_prefix(""));
    assert!(!has_zero_prefix("0001"));
    assert!(!has_zero_prefix("1000"));
    assert!(!has_zero_prefix("000o0"));
}

#[test]
fn new_block_is_stamped_in_milliseconds() {
    let before = std::time::SystemTime::now()
        .duration_since(std::time::SystemTime::UNIX_EPOCH)
        .unwrap()
        .as_millis();
    let block = Block::new_block(vec![reward("Alice")], "00".to_string(), 3).unwrap();
    let after = std::time::SystemTime::now()
        .duration_since(std::time::SystemTime::UNIX_EPOCH)
        .unwrap()
        .as_millis();
    assert!(before <= block.get_timestamp() && block.get_timestamp() <= after);
    assert_eq!(block.get_height(), 3);
    assert_eq!(block.get_prev_hash(), "00");
    assert_eq!(block.validate(), Ok(true));
    let bytes = payload_bytes("00", block.get_transaction(), block.get_timestamp(), block.get_nonce());
    assert_eq!(hex_digest(&bytes), Some(block.get_hash()));
}
