use ledger_core::blockchain::{add_block, Chain};
use ledger_core::blocks::{assemble, build_header, mine, new, verify, Block, Header};
use ledger_core::errors::CoreError;
use ledger_core::net::NetBlock;
use ledger_core::transactions::{coinbase_at, new_at, Transaction};
use secp256k1::{PublicKey, Secp256k1, SecretKey};
use sha2::{Digest, Sha256};

fn sha(data: &[u8]) -> Vec<u8> {
    Sha256::digest(data).to_vec()
}

fn pair(left: &[u8], right: &[u8]) -> Vec<u8> {
    let mut joined = left.to_vec();
    joined.extend_from_slice(right);
    sha(&joined)
}

fn user_transaction(seed: u8, amount: u32) -> Transaction {
    let secret = vec![seed; 32];
    let key = SecretKey::from_slice(&secret).unwrap();
    let public = PublicKey::from_secret_key(&Secp256k1::new(), &key).serialize().to_vec();
    new_at(&secret, public.clone(), sha(&public), sha(b"to"), amount, 1000 + amount as i64).unwrap()
}

fn text(s: &str) -> String {
    s.to_string()
}

#[test]
fn header_bytes_are_exact() {
    let header = Header { id: 1, timestamp: 2, previous_hash: vec![0xaa], merkle_root: vec![] };
    let expected: Vec<u8> = vec![
        1, 0, 0, 0, // id
        2, 0, 0, 0, 0, 0, 0, 0, // timestamp
        1, 0, 0, 0, 0, 0, 0, 0, 0xaa, // previous hash
        0, 0, 0, 0, 0, 0, 0, 0, // merkle root
    ];
    assert_eq!(header.encode(), expected);
    assert_eq!(header.hash(), sha(&expected));
    let as_tuple = (1i32, 2i64, vec![0xaau8], Vec::<u8>::new());
    assert_eq!(header.encode(), bincode::serialize(&as_tuple).unwrap());
}

#[test]
fn header_from_decodes_its_hashes() {
    let header = Header::from(-3, 44, &text("00FFab"), &text("")).unwrap();
    assert_eq!(
        header,
        Header { id: -3, timestamp: 44, previous_hash: vec![0, 0xff, 0xab], merkle_root: vec![] }
    );
    assert_eq!(Header::from(1, 1, &text("0"), &text("00")), Err(CoreError::SerializeError));
    assert_eq!(Header::from(1, 1, &text("00"), &text("0g")), Err(CoreError::SerializeError));
}

#[test]
fn block_from_decodes_its_hashes() {
    let txs = vec![coinbase_at(vec![1], 5)];
    let block =
        Block::from(7, 8, text("01"), text("02"), text("03"), -9, txs.clone()).unwrap();
    assert_eq!(
        block,
        Block {
            header: Header { id: 7, timestamp: 8, previous_hash: vec![1], merkle_root: vec![2] },
            hash: vec![3],
            nonce: -9,
            transactions: txs.clone(),
        }
    );
    let err = Err(CoreError::SerializeError);
    assert_eq!(Block::from(7, 8, text("x"), text("02"), text("03"), -9, vec![]), err);
    assert_eq!(Block::from(7, 8, text("01"), text("2"), text("03"), -9, vec![]), err);
    assert_eq!(Block::from(7, 8, text("01"), text("02"), text("0 "), -9, txs), err);
}

#[test]
fn verify_checks_hash_and_nonce_against_the_header() {
    let header =
        Header { id: 3, timestamp: 1234, previous_hash: vec![0; 32], merkle_root: sha(b"root") };
    let header_hash = sha(&header.encode());
    let payload = format!("{}{}", hex::encode(&header_hash), 991);
    let hash = sha(payload.as_bytes());
    assert!(verify(&header, &hash, 991));
    assert!(!verify(&header, &hash, 992));
    let mut other = header.clone();
    other.id = 4;
    assert!(!verify(&other, &hash, 991));
    let mut wrong = hash.clone();
    wrong[0] ^= 0xff;
    assert!(!verify(&header, &wrong, 991));
}

#[test]
fn mined_header_verifies() {
    let header =
        Header { id: 1, timestamp: 5, previous_hash: vec![0; 32], merkle_root: sha(b"m") };
    let (hash, nonce) = mine(&header, 2, u64::MAX).unwrap();
    assert!(verify(&header, &hash, nonce));
    assert!(hex::encode(&hash).starts_with("00"));
    assert_eq!(mine(&header, 2, 0), None);
    assert!(mine(&header, 0, 1).is_some());
}

#[test]
fn build_header_takes_the_next_id_and_the_merkle_root() {
    let txs = vec![coinbase_at(vec![1], 5), user_transaction(3, 10)];
    let header = build_header(41, vec![9; 32], &txs, 777);
    assert_eq!(header.id, 42);
    assert_eq!(header.timestamp, 777);
    assert_eq!(header.previous_hash, vec![9; 32]);
    assert_eq!(header.merkle_root, pair(&txs[0].id, &txs[1].id));
    assert_eq!(build_header(-1, vec![], &vec![], 0).merkle_root, Vec::<u8>::new());
    assert_eq!(build_header(-1, vec![], &vec![], 0).id, 0);
}

#[test]
fn genesis_block_builds_on_the_zero_hash() {
    let chain = Chain::new();
    let reward = coinbase_at(vec![7; 32], 100);
    let block = assemble(&chain, reward.clone(), vec![], 200, 1, u64::MAX).unwrap().unwrap();
    assert_eq!(block.header.id, 1);
    assert_eq!(block.header.previous_hash, vec![0u8; 32]);
    assert_eq!(block.header.timestamp, 200);
    assert_eq!(block.header.merkle_root, reward.id);
    assert_eq!(block.transactions, vec![reward]);
    assert!(verify(&block.header, &block.hash, block.nonce));
    assert!(hex::encode(&block.hash).starts_with('0'));
}

#[test]
fn assembled_block_has_coinbase_first_and_the_root_of_three() {
    let chain = Chain::new();
    let reward = coinbase_at(vec![7; 32], 100);
    let first = user_transaction(1, 10);
    let second = user_transaction(2, 20);
    let block = assemble(
        &chain,
        reward.clone(),
        vec![first.clone(), second.clone()],
        300,
        1,
        u64::MAX,
    )
    .unwrap()
    .unwrap();
    assert_eq!(block.transactions, vec![reward.clone(), first.clone(), second.clone()]);
    let expected = pair(&pair(&reward.id, &first.id), &pair(&second.id, &second.id));
    assert_eq!(block.header.merkle_root, expected);
    assert!(verify(&block.header, &block.hash, block.nonce));
}

#[test]
fn next_block_builds_on_the_tip() {
    let mut chain = Chain::new();
    let genesis =
        assemble(&chain, coinbase_at(vec![7], 1), vec![], 2, 0, 1).unwrap().unwrap();
    let genesis_hash = genesis.hash.clone();
    add_block(&mut chain, NetBlock::from_block(genesis));
    let next = assemble(&chain, coinbase_at(vec![7], 3), vec![], 4, 0, 1).unwrap().unwrap();
    assert_eq!(next.header.id, 2);
    assert_eq!(next.header.previous_hash, genesis_hash);
}

#[test]
fn assemble_reports_an_unreadable_tip() {
    let mut chain = Chain::new();
    let mut tip =
        NetBlock::from_block(assemble(&chain, coinbase_at(vec![7], 1), vec![], 2, 0, 1).unwrap().unwrap());
    tip.hash = text("not hex");
    add_block(&mut chain, tip);
    assert_eq!(
        assemble(&chain, coinbase_at(vec![7], 3), vec![], 4, 0, 1),
        Err(CoreError::SerializeError)
    );
}

#[test]
fn assemble_without_attempts_gives_no_block() {
    let chain = Chain::new();
    assert_eq!(assemble(&chain, coinbase_at(vec![7], 1), vec![], 2, 0, 0), Ok(None));
    assert_eq!(assemble(&chain, coinbase_at(vec![7], 1), vec![], 2, 65, 20), Ok(None));
}

#[test]
fn new_assembles_for_the_wallet() {
    let chain = Chain::new();
    let pending = vec![user_transaction(1, 10)];
    let block = new(&chain, pending.clone(), Some(&text("ZiCa")), 1, u64::MAX).unwrap().unwrap();
    assert_eq!(block.transactions.len(), 2);
    let reward = &block.transactions[0];
    assert_eq!(*reward, coinbase_at(b"abc".to_vec(), reward.transaction.content.timestamp));
    assert_eq!(block.transactions[1], pending[0]);
    assert_eq!(block.header.id, 1);
    assert_eq!(block.header.previous_hash, vec![0u8; 32]);
    assert_eq!(block.header.merkle_root, pair(&reward.id, &pending[0].id));
    assert!(verify(&block.header, &block.hash, block.nonce));
    assert_eq!(new(&chain, vec![], None, 1, 10), Err(CoreError::WalletError));
    assert_eq!(new(&chain, vec![], Some(&text("0")), 1, 10), Err(CoreError::SerializeError));
    assert_eq!(new(&chain, vec![], Some(&text("ZiCa")), 1, 0), Ok(None));
}
