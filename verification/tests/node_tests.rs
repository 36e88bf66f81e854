use ledger_core::blockchain::{
    add_block, add_new, get_previous_hash, get_previous_id, holds_text, scan, Chain,
};
use ledger_core::blocks::{assemble, verify, Header};
use ledger_core::errors::{CoreError, ServerError};
use ledger_core::handlers::{
    get_index, links_to_tip, mine_pending, post_block, post_transaction, validate_incoming,
    NodeState,
};
use ledger_core::net::{NetBlock, NetTransaction};
use ledger_core::pow::DIFFICULTY;
use ledger_core::transactions::{coinbase_at, new_at, Transaction};
use secp256k1::{PublicKey, Secp256k1, SecretKey};
use sha2::{Digest, Sha256};

fn sha(data: &[u8]) -> Vec<u8> {
    Sha256::digest(data).to_vec()
}

fn text(s: &str) -> String {
    s.to_string()
}

fn user_transaction(seed: u8, amount: u32) -> Transaction {
    let secret = vec![seed; 32];
    let key = SecretKey::from_slice(&secret).unwrap();
    let public = PublicKey::from_secret_key(&Secp256k1::new(), &key).serialize().to_vec();
    new_at(&secret, public.clone(), sha(&public), sha(b"to"), amount, 1000 + amount as i64).unwrap()
}

fn sealed_block(chain: &Chain, pending: Vec<Transaction>) -> NetBlock {
    let reward = coinbase_at(vec![7; 32], 100);
    NetBlock::from_block(
        assemble(chain, reward, pending, 200, DIFFICULTY, u64::MAX).unwrap().unwrap(),
    )
}

/// A block whose hash is the one that its nonce gives but does not begin
/// with four zero nibbles.
fn unsealed_block(chain: &Chain) -> NetBlock {
    loop {
        let reward = coinbase_at(vec![7; 32], 100);
        let block =
            NetBlock::from_block(assemble(chain, reward, vec![], 200, 0, 1).unwrap().unwrap());
        if !block.hash.starts_with("0000") {
            return block;
        }
    }
}

fn net_tx(sender: &str, receiver: &str) -> NetTransaction {
    NetTransaction {
        id: text("00"),
        sender_addr: text(sender),
        sender_pubkey: text("00"),
        receiver_addr: text(receiver),
        amount: 1,
        timestamp: 1,
        signature: text("00"),
    }
}

fn block_with(transactions: Vec<NetTransaction>) -> NetBlock {
    NetBlock {
        id: 1,
        timestamp: 1,
        previous_hash: text("00"),
        merkle_root: text("00"),
        hash: text("00"),
        nonce: 0,
        transactions,
    }
}

#[test]
fn index_answers_with_its_route() {
    assert_eq!(get_index(), "Get /");
}

#[test]
fn empty_chain_has_the_genesis_tip() {
    let chain = Chain::new();
    assert_eq!(chain.blocks.len(), 0);
    assert_eq!(get_previous_id(&chain), 0);
    assert_eq!(get_previous_hash(&chain), Ok(vec![0u8; 32]));
}

#[test]
fn tip_is_the_block_appended_last() {
    let mut chain = Chain::new();
    let mut first = block_with(vec![]);
    first.id = 5;
    first.hash = text("AbCd");
    add_block(&mut chain, first.clone());
    assert_eq!(get_previous_id(&chain), 5);
    assert_eq!(get_previous_hash(&chain), Ok(vec![0xab, 0xcd]));
    let mut second = block_with(vec![]);
    second.id = 2;
    second.hash = text("0102");
    add_block(&mut chain, second.clone());
    assert_eq!(chain.blocks, vec![first, second]);
    assert_eq!(get_previous_id(&chain), 2);
    assert_eq!(get_previous_hash(&chain), Ok(vec![1, 2]));
    let mut broken = block_with(vec![]);
    broken.hash = text("xyz");
    add_block(&mut chain, broken);
    assert_eq!(get_previous_hash(&chain), Err(CoreError::SerializeError));
}

#[test]
fn scan_fails_on_an_empty_chain() {
    assert_eq!(scan(&Chain::new()), Err(CoreError::IoError));
}

#[test]
fn scan_lists_receivers_then_new_senders_once() {
    let mut chain = Chain::new();
    add_block(&mut chain, block_with(vec![net_tx("0", "alice"), net_tx("alice", "bob")]));
    add_block(&mut chain, block_with(vec![]));
    add_block(
        &mut chain,
        block_with(vec![net_tx("carol", "alice"), net_tx("bob", "dave"), net_tx("erin", "bob")]),
    );
    assert_eq!(
        scan(&chain),
        Ok(vec![text("alice"), text("bob"), text("dave"), text("carol"), text("erin")])
    );
    let mut only_empty = Chain::new();
    add_block(&mut only_empty, block_with(vec![]));
    assert_eq!(scan(&only_empty), Ok(vec![]));
}

#[test]
fn scan_keeps_a_zero_receiver_but_no_zero_sender() {
    let mut chain = Chain::new();
    add_block(&mut chain, block_with(vec![net_tx("0", "x")]));
    assert_eq!(scan(&chain), Ok(vec![text("x")]));
    let mut chain = Chain::new();
    add_block(&mut chain, block_with(vec![net_tx("y", "0")]));
    assert_eq!(scan(&chain), Ok(vec![text("0"), text("y")]));
}

#[test]
fn add_new_appends_first_occurrences() {
    let mut known = vec![text("a")];
    add_new(&mut known, &vec![text("b"), text("a"), text("b"), text("c")], None);
    assert_eq!(known, vec![text("a"), text("b"), text("c")]);
    add_new(&mut known, &vec![text("d"), text("e"), text("d")], Some(&text("e")));
    assert_eq!(known, vec![text("a"), text("b"), text("c"), text("d")]);
    assert!(holds_text(&known, &text("c")));
    assert!(!holds_text(&known, &text("e")));
    assert!(!holds_text(&vec![], &text("")));
}

#[test]
fn validation_accepts_a_sealed_block() {
    let block = sealed_block(&Chain::new(), vec![user_transaction(1, 5)]);
    assert_eq!(validate_incoming(&block), Ok(()));
}

#[test]
fn validation_rejects_a_wrong_nonce_or_hash() {
    let block = sealed_block(&Chain::new(), vec![user_transaction(1, 5)]);
    let mut wrong_nonce = block.clone();
    wrong_nonce.nonce = wrong_nonce.nonce.wrapping_add(1);
    assert_eq!(validate_incoming(&wrong_nonce), Err(ServerError::InvalidBlock));
    let mut wrong_hash = block.clone();
    wrong_hash.hash = hex::encode(sha(b"other"));
    assert_eq!(validate_incoming(&wrong_hash), Err(ServerError::InvalidBlock));
    let mut wrong_header = block.clone();
    wrong_header.timestamp += 1;
    assert_eq!(validate_incoming(&wrong_header), Err(ServerError::InvalidBlock));
    let mut wrong_id = block.clone();
    wrong_id.id += 1;
    assert_eq!(validate_incoming(&wrong_id), Err(ServerError::InvalidBlock));
    let mut wrong_root = block;
    wrong_root.merkle_root = hex::encode(sha(b"root"));
    assert_eq!(validate_incoming(&wrong_root), Err(ServerError::InvalidBlock));
}

#[test]
fn validation_rejects_a_genuine_hash_without_the_leading_zeros() {
    let block = unsealed_block(&Chain::new());
    let header =
        Header::from(block.id, block.timestamp, &block.previous_hash, &block.merkle_root).unwrap();
    assert!(verify(&header, &hex::decode(&block.hash).unwrap(), block.nonce));
    assert_eq!(validate_incoming(&block), Err(ServerError::InvalidBlock));
    let mut node = NodeState::new();
    assert_eq!(post_block(&mut node, block), Err(ServerError::InvalidBlock));
    assert_eq!(node, NodeState::new());
}

#[test]
fn validation_asks_for_four_zero_nibbles() {
    let chain = Chain::new();
    loop {
        let reward = coinbase_at(vec![7; 32], 100);
        let block = NetBlock::from_block(
            assemble(&chain, reward, vec![], 200, 3, u64::MAX).unwrap().unwrap(),
        );
        assert!(block.hash.starts_with("000"));
        if block.hash.starts_with("0000") {
            assert_eq!(validate_incoming(&block), Ok(()));
        } else {
            assert_eq!(validate_incoming(&block), Err(ServerError::InvalidBlock));
            break;
        }
    }
}

#[test]
fn validation_looks_at_the_seal_only() {
    let mut block = sealed_block(&Chain::new(), vec![user_transaction(1, 5)]);
    block.transactions.clear();
    assert_eq!(validate_incoming(&block), Ok(()));
    let upper = NetBlock { hash: block.hash.to_uppercase(), ..block };
    assert_eq!(validate_incoming(&upper), Ok(()));
}

#[test]
fn validation_reports_malformed_fields() {
    let block = sealed_block(&Chain::new(), vec![]);
    let mut bad = block.clone();
    bad.previous_hash = text("0");
    assert_eq!(validate_incoming(&bad), Err(ServerError::CoreError));
    let mut bad = block.clone();
    bad.merkle_root = text("zz");
    assert_eq!(validate_incoming(&bad), Err(ServerError::CoreError));
    let mut bad = block.clone();
    bad.hash = text("0");
    assert_eq!(validate_incoming(&bad), Err(ServerError::SerializeError));
    let mut bad = block;
    bad.hash = text("q");
    bad.merkle_root = text("q");
    assert_eq!(validate_incoming(&bad), Err(ServerError::CoreError));
}

#[test]
fn post_block_appends_an_accepted_block_only() {
    let mut node = NodeState::new();
    let block = sealed_block(&node.chain, vec![]);
    assert_eq!(post_block(&mut node, block.clone()), Ok(true));
    assert_eq!(node.chain.blocks, vec![block.clone()]);
    assert_eq!(get_previous_id(&node.chain), 1);
    assert_eq!(post_block(&mut node, block.clone()), Ok(false));
    assert_eq!(node.chain.blocks, vec![block.clone(), block.clone()]);
    let mut forged = block.clone();
    forged.nonce = forged.nonce.wrapping_sub(7);
    let before = node.clone();
    assert_eq!(post_block(&mut node, forged), Err(ServerError::InvalidBlock));
    assert_eq!(node, before);
    let mut malformed = block;
    malformed.hash = text("-");
    assert_eq!(post_block(&mut node, malformed), Err(ServerError::SerializeError));
    assert_eq!(node, before);
}

#[test]
fn post_transaction_queues_valid_transactions_in_order() {
    let mut node = NodeState::new();
    let first = NetTransaction::from_transaction(&user_transaction(1, 5));
    let second = NetTransaction::from_transaction(&user_transaction(2, 6));
    assert_eq!(post_transaction(&mut node, first.clone()), Ok(()));
    assert_eq!(post_transaction(&mut node, second.clone()), Ok(()));
    assert_eq!(node.pending, vec![first, second]);
    assert_eq!(node.chain.blocks.len(), 0);
}

#[test]
fn post_transaction_refuses_invalid_transactions() {
    let mut node = NodeState::new();
    let good = NetTransaction::from_transaction(&user_transaction(1, 5));
    let mut tampered = good.clone();
    tampered.amount += 1;
    assert_eq!(post_transaction(&mut node, tampered), Err(ServerError::InvalidTransaction));
    let mut wrong_id = good.clone();
    wrong_id.id = hex::encode(sha(b"id"));
    assert_eq!(post_transaction(&mut node, wrong_id), Err(ServerError::InvalidTransaction));
    let mut malformed = good.clone();
    malformed.signature = text("xx");
    assert_eq!(post_transaction(&mut node, malformed), Err(ServerError::CoreError));
    let mut malformed = good;
    malformed.receiver_addr = text("l0");
    assert_eq!(post_transaction(&mut node, malformed), Err(ServerError::CoreError));
    let unsigned = NetTransaction::from_transaction(&coinbase_at(vec![1; 32], 5));
    assert_eq!(post_transaction(&mut node, unsigned), Err(ServerError::InvalidTransaction));
    assert_eq!(node, NodeState::new());
}

#[test]
fn mining_consumes_the_pending_transactions() {
    let mut node = NodeState::new();
    let first = user_transaction(1, 5);
    let second = user_transaction(2, 6);
    post_transaction(&mut node, NetTransaction::from_transaction(&first)).unwrap();
    post_transaction(&mut node, NetTransaction::from_transaction(&second)).unwrap();
    assert_eq!(mine_pending(&mut node, Some(&text("ZiCa")), DIFFICULTY, u64::MAX), Ok(true));
    assert_eq!(node.pending, vec![]);
    assert_eq!(node.chain.blocks.len(), 1);
    let tip = &node.chain.blocks[0];
    assert_eq!(tip.id, 1);
    assert_eq!(tip.previous_hash, "00".repeat(32));
    assert_eq!(tip.transactions.len(), 3);
    assert_eq!(tip.transactions[0].sender_addr, bs58_of_marker());
    assert_eq!(tip.transactions[0].receiver_addr, "ZiCa");
    assert_eq!(tip.transactions[0].amount, 50);
    assert_eq!(tip.transactions[1], NetTransaction::from_transaction(&first));
    assert_eq!(tip.transactions[2], NetTransaction::from_transaction(&second));
    assert!(tip.hash.starts_with("0000"));
    assert_eq!(validate_incoming(tip), Ok(()));
    let mut peer = NodeState::new();
    assert_eq!(post_block(&mut peer, tip.clone()), Ok(true));
    let header = Header::from(tip.id, tip.timestamp, &tip.previous_hash, &tip.merkle_root).unwrap();
    assert!(verify(&header, &hex::decode(&tip.hash).unwrap(), tip.nonce));
    assert_eq!(mine_pending(&mut node, Some(&text("ZiCa")), 0, 1), Ok(true));
    assert_eq!(node.chain.blocks.len(), 2);
    assert_eq!(node.chain.blocks[1].id, 2);
    assert_eq!(node.chain.blocks[1].previous_hash, node.chain.blocks[0].hash);
    assert_eq!(node.chain.blocks[1].transactions.len(), 1);
}

fn bs58_of_marker() -> String {
    NetTransaction::from_transaction(&coinbase_at(vec![], 0)).sender_addr
}

#[test]
fn mining_that_fails_leaves_the_node_alone() {
    let mut node = NodeState::new();
    post_transaction(&mut node, NetTransaction::from_transaction(&user_transaction(1, 5)))
        .unwrap();
    let before = node.clone();
    assert_eq!(mine_pending(&mut node, Some(&text("ZiCa")), 1, 0), Ok(false));
    assert_eq!(node, before);
    assert_eq!(mine_pending(&mut node, None, 1, 10), Err(CoreError::WalletError));
    assert_eq!(node, before);
    assert_eq!(mine_pending(&mut node, Some(&text("O0")), 1, 10), Err(CoreError::SerializeError));
    assert_eq!(node, before);
    node.pending[0].id = text("odd");
    let before = node.clone();
    assert_eq!(mine_pending(&mut node, None, 1, 10), Err(CoreError::SerializeError));
    assert_eq!(node, before);
}

#[test]
fn assembled_blocks_link_to_the_tip() {
    let mut chain = Chain::new();
    let genesis = sealed_block(&chain, vec![]);
    assert!(links_to_tip(&chain, &genesis));
    add_block(&mut chain, genesis.clone());
    assert!(!links_to_tip(&chain, &genesis));
    let next = sealed_block(&chain, vec![user_transaction(4, 1)]);
    assert!(links_to_tip(&chain, &next));
    let mut skipped = next.clone();
    skipped.id += 1;
    assert!(!links_to_tip(&chain, &skipped));
    let mut detached = next.clone();
    detached.previous_hash = "00".repeat(32);
    assert!(!links_to_tip(&chain, &detached));
    let mut malformed = next.clone();
    malformed.previous_hash = text("zz");
    assert!(!links_to_tip(&chain, &malformed));
    let upper = NetBlock { previous_hash: next.previous_hash.to_uppercase(), ..next };
    assert!(links_to_tip(&chain, &upper));
}

#[test]
fn nothing_links_to_a_full_or_unreadable_chain() {
    let mut full = Chain::new();
    let mut last = block_with(vec![]);
    last.id = i32::MAX;
    last.hash = text("ab");
    add_block(&mut full, last);
    let mut wrapped = block_with(vec![]);
    wrapped.id = i32::MIN;
    wrapped.previous_hash = text("ab");
    assert!(!links_to_tip(&full, &wrapped));
    let mut broken = Chain::new();
    let mut tip = block_with(vec![]);
    tip.hash = text("xyz");
    add_block(&mut broken, tip);
    let mut next = block_with(vec![]);
    next.id = 2;
    next.previous_hash = text("00");
    assert!(!links_to_tip(&broken, &next));
}

#[test]
fn created_transaction_is_taken_in_as_text() {
    let secret = vec![0x42; 32];
    let key = SecretKey::from_slice(&secret).unwrap();
    let public = PublicKey::from_secret_key(&Secp256k1::new(), &key).serialize().to_vec();
    let created =
        ledger_core::transactions::new(&secret, public.clone(), sha(&public), sha(b"to"), 9)
            .unwrap();
    let mut node = NodeState::new();
    assert_eq!(post_transaction(&mut node, created.clone()), Ok(()));
    assert_eq!(node.pending, vec![created]);
}
