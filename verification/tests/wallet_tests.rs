use ledger_core::base58fmt::{decode_address, encode_address, BASE58_MAX_LEN};
use ledger_core::errors::{CoreError, ServerError};
use ledger_core::hexfmt::{decode_hex, to_hex};
use ledger_core::local;
use ledger_core::net::{NetBlock, NetKeyPair, NetTransaction, NetWallet, Node};
use ledger_core::blocks::{Block, Header};
use ledger_core::transactions::{from, new_at, Transaction, TransactionContent, TransactionSigned};
use ledger_core::utils::{get_current_timestamp, timestamp_from_nanos};
use ledger_core::wallet::{get_new_wallet, get_wallet, wallet_of, KeyPair, Wallet};
use secp256k1::{PublicKey, Secp256k1, SecretKey};
use sha2::{Digest, Sha256};

fn sha(data: &[u8]) -> Vec<u8> {
    Sha256::digest(data).to_vec()
}

fn text(s: &str) -> String {
    s.to_string()
}

fn public_of(secret: &[u8]) -> Vec<u8> {
    let key = SecretKey::from_slice(secret).unwrap();
    PublicKey::from_secret_key(&Secp256k1::new(), &key).serialize().to_vec()
}

#[test]
fn new_wallet_holds_a_matching_key_pair() {
    let wallet = get_new_wallet();
    assert_eq!(wallet.keypair.private_key.len(), 32);
    assert_eq!(wallet.keypair.public_key.len(), 33);
    assert_eq!(wallet.keypair.public_key, public_of(&wallet.keypair.private_key));
    assert_eq!(wallet.address, sha(&wallet.keypair.public_key));
    let other = get_new_wallet();
    assert_ne!(wallet.keypair.private_key, other.keypair.private_key);
}

#[test]
fn new_wallet_signs_valid_transactions() {
    let wallet = get_new_wallet();
    let tx = new_at(
        &wallet.keypair.private_key,
        wallet.keypair.public_key.clone(),
        wallet.address.clone(),
        vec![1, 2, 3],
        12,
        34,
    )
    .unwrap();
    assert!(tx.is_valid());
}

#[test]
fn wallet_of_hashes_the_public_key() {
    let keypair = KeyPair { private_key: vec![1], public_key: b"abc".to_vec() };
    let wallet = wallet_of(keypair.clone());
    assert_eq!(wallet.keypair, keypair);
    assert_eq!(
        hex::encode(&wallet.address),
        "ba7816bf8f01cfea414140de5dae2223b00361a396177a9cb410ff61f20015ad"
    );
}

#[test]
fn stored_wallet_is_rebuilt() {
    let secret = vec![0xcd; 32];
    let stored =
        NetKeyPair { private_key: "CD".repeat(32), public_key: hex::encode(public_of(&secret)) };
    let wallet = get_wallet(&text("ZiCa"), &stored).unwrap();
    assert_eq!(
        wallet,
        Wallet {
            keypair: KeyPair { private_key: secret.clone(), public_key: public_of(&secret) },
            address: b"abc".to_vec(),
        }
    );
}

#[test]
fn stored_wallet_faults_are_reported_in_order() {
    let good = NetKeyPair { private_key: "cd".repeat(32), public_key: text("02ab") };
    let address = text("ZiCa");
    let mut bad = good.clone();
    bad.private_key = text("xyz");
    bad.public_key = text("xyz");
    assert_eq!(get_wallet(&text("0"), &bad), Err(CoreError::SerializeError));
    let mut bad = good.clone();
    bad.private_key = "00".repeat(32);
    bad.public_key = text("xyz");
    assert_eq!(get_wallet(&address, &bad), Err(CoreError::CryptoError));
    let mut bad = good.clone();
    bad.private_key = text("cd");
    assert_eq!(get_wallet(&address, &bad), Err(CoreError::CryptoError));
    let mut bad = good.clone();
    bad.public_key = text("2");
    assert_eq!(get_wallet(&address, &bad), Err(CoreError::SerializeError));
    assert_eq!(get_wallet(&text("I"), &good), Err(CoreError::SerializeError));
    assert!(get_wallet(&address, &good).is_ok());
}

#[test]
fn wallet_text_is_hex_and_base58() {
    let wallet = Wallet {
        keypair: KeyPair { private_key: vec![0x0a, 0xff], public_key: vec![0x00, 0x10] },
        address: b"\0\0abc".to_vec(),
    };
    assert_eq!(
        NetWallet::from_wallet(&wallet),
        NetWallet {
            keypair: NetKeyPair { private_key: text("0aff"), public_key: text("0010") },
            address: text("11ZiCa"),
        }
    );
}

#[test]
fn local_new_wallet_is_sound() {
    let net = local::get_new_wallet();
    let secret = hex::decode(&net.keypair.private_key).unwrap();
    let public = hex::decode(&net.keypair.public_key).unwrap();
    assert_eq!(public, public_of(&secret));
    assert_eq!(decode_address(&net.address), Ok(sha(&public)));
    assert_eq!(get_wallet(&net.address, &net.keypair).unwrap().address, sha(&public));
}

#[test]
fn local_wallet_is_shown_in_lower_case() {
    let secret = vec![0xcd; 32];
    let stored = NetKeyPair {
        private_key: "Cd".repeat(32),
        public_key: hex::encode_upper(public_of(&secret)),
    };
    let shown = local::get_wallet(text("ZiCa"), &stored).unwrap();
    assert_eq!(
        shown,
        NetWallet {
            keypair: NetKeyPair {
                private_key: "cd".repeat(32),
                public_key: hex::encode(public_of(&secret)),
            },
            address: text("ZiCa"),
        }
    );
    assert_eq!(local::get_wallet(text("0"), &stored), Err(ServerError::CoreError));
    let bad = NetKeyPair { private_key: text(""), public_key: text("") };
    assert_eq!(local::get_wallet(text("ZiCa"), &bad), Err(ServerError::CoreError));
}

#[test]
fn local_transaction_is_signed_by_the_stored_wallet() {
    let net_wallet = local::get_new_wallet();
    let created =
        local::post_transaction(&net_wallet.keypair, &net_wallet.address, &text("ZiCa"), 8).unwrap();
    assert_eq!(created.sender_addr, net_wallet.address);
    assert_eq!(created.sender_pubkey, net_wallet.keypair.public_key);
    assert_eq!(created.receiver_addr, "ZiCa");
    assert_eq!(created.amount, 8);
    let tx = from(
        &created.id,
        &created.sender_addr,
        &created.sender_pubkey,
        &created.receiver_addr,
        created.amount,
        created.timestamp,
        &created.signature,
    )
    .unwrap();
    assert!(tx.is_valid());
    assert!(tx.has_derived_id());
}

#[test]
fn local_transaction_reports_its_faults() {
    let net_wallet = local::get_new_wallet();
    assert_eq!(
        local::post_transaction(&net_wallet.keypair, &text("0"), &text("ZiCa"), 8),
        Err(ServerError::CoreError)
    );
    assert_eq!(
        local::post_transaction(&net_wallet.keypair, &net_wallet.address, &text("0"), 8),
        Err(ServerError::SerializeError)
    );
    let bad = NetKeyPair { private_key: "00".repeat(32), public_key: text("00") };
    assert_eq!(
        local::post_transaction(&bad, &net_wallet.address, &text("ZiCa"), 8),
        Err(ServerError::CoreError)
    );
}

#[test]
fn addresses_decode_up_to_the_limit() {
    assert_eq!(BASE58_MAX_LEN, 132);
    assert_eq!(decode_address(&"1".repeat(129)), Ok(vec![0u8; 129]));
    assert_eq!(encode_address(&[0u8; 128]), "1".repeat(128));
    assert_eq!(encode_address(b"abc"), "ZiCa");
    assert_eq!(encode_address(b""), "");
    let longest = encode_address(&[0xff; 128]);
    assert_eq!(longest.len(), 175);
    assert_eq!(decode_address(&longest), Err(CoreError::SerializeError));
    assert_eq!(encode_address(&[0u8; 500]), "1".repeat(500));
    let hash_text = encode_address(&sha(b"key"));
    assert_eq!(decode_address(&hash_text), Ok(sha(b"key")));
    assert_eq!(decode_address(""), Ok(vec![]));
    assert_eq!(decode_address("ZiCa"), Ok(b"abc".to_vec()));
    assert_eq!(decode_address("3mJr7AoUXx2Wqd"), Ok(b"1234598760".to_vec()));
    assert_eq!(decode_address(&"1".repeat(132)), Ok(vec![0u8; 132]));
    assert_eq!(decode_address(&"1".repeat(133)), Err(CoreError::SerializeError));
    assert_eq!(decode_address(&"z".repeat(133)), Err(CoreError::SerializeError));
    assert_eq!(decode_address("0"), Err(CoreError::SerializeError));
    assert_eq!(decode_address("é"), Err(CoreError::SerializeError));
}

#[test]
fn hex_decodes_either_case() {
    assert_eq!(decode_hex(""), Ok(vec![]));
    assert_eq!(decode_hex("00ff"), Ok(vec![0, 255]));
    assert_eq!(decode_hex("aBcDeF09"), Ok(vec![0xab, 0xcd, 0xef, 0x09]));
    assert_eq!(decode_hex("a"), Err(CoreError::SerializeError));
    assert_eq!(decode_hex("0g"), Err(CoreError::SerializeError));
    assert_eq!(decode_hex("+1"), Err(CoreError::SerializeError));
    assert_eq!(decode_hex("é"), Err(CoreError::SerializeError));
    assert_eq!(decode_hex("0x"), Err(CoreError::SerializeError));
}

#[test]
fn block_text_is_hex_and_base58() {
    let tx = Transaction {
        id: vec![0xab, 0x01],
        transaction: TransactionSigned {
            content: TransactionContent {
                sender_addr: b"abc".to_vec(),
                sender_pubkey: vec![0x02, 0xff],
                receiver_addr: b"\0abc".to_vec(),
                amount: 5,
                timestamp: 6,
            },
            signature: vec![0x0f],
        },
    };
    let block = Block {
        header: Header { id: 3, timestamp: 4, previous_hash: vec![0, 1], merkle_root: vec![0xfe] },
        hash: vec![0xde, 0xad],
        nonce: -7,
        transactions: vec![tx.clone(), tx],
    };
    let net_tx = NetTransaction {
        id: text("ab01"),
        sender_addr: text("ZiCa"),
        sender_pubkey: text("02ff"),
        receiver_addr: text("1ZiCa"),
        amount: 5,
        timestamp: 6,
        signature: text("0f"),
    };
    assert_eq!(
        NetBlock::from_block(block),
        NetBlock {
            id: 3,
            timestamp: 4,
            previous_hash: text("0001"),
            merkle_root: text("fe"),
            hash: text("dead"),
            nonce: -7,
            transactions: vec![net_tx.clone(), net_tx],
        }
    );
}

#[test]
fn errors_convert_as_the_node_reports_them() {
    assert_eq!(
        CoreError::from(base58::FromBase58Error::InvalidBase58Length),
        CoreError::SerializeError
    );
    assert_eq!(CoreError::from(secp256k1::Error::InvalidSecretKey), CoreError::CryptoError);
    assert_eq!(ServerError::from(CoreError::WalletError), ServerError::CoreError);
    assert_eq!(ServerError::from(CoreError::SerializeError), ServerError::CoreError);
    assert_eq!(
        ServerError::from(base58::FromBase58Error::InvalidBase58Length),
        ServerError::SerializeError
    );
}

#[test]
fn timestamps_are_milliseconds() {
    assert_eq!(timestamp_from_nanos(0), 0);
    assert_eq!(timestamp_from_nanos(999_999), 0);
    assert_eq!(timestamp_from_nanos(1_000_000), 1);
    assert_eq!(timestamp_from_nanos(1_500_000_000_123_456_789), 1_500_000_000_123);
    assert_eq!(timestamp_from_nanos(-1), 0);
    assert_eq!(timestamp_from_nanos(-1_000_000), -1);
    assert_eq!(timestamp_from_nanos(-1_999_999), -1);
    assert_eq!(timestamp_from_nanos(i128::MAX), i64::MAX);
    assert_eq!(timestamp_from_nanos(i128::MIN), i64::MIN);
    assert_eq!(timestamp_from_nanos(i64::MAX as i128 * 1_000_000), i64::MAX);
    assert_eq!(timestamp_from_nanos(i64::MIN as i128 * 1_000_000), i64::MIN);
    assert_eq!(timestamp_from_nanos((i64::MIN as i128 + 1) * 1_000_000), i64::MIN + 1);
}

#[test]
fn clock_reads_the_present() {
    let before = std::time::SystemTime::now()
        .duration_since(std::time::UNIX_EPOCH)
        .unwrap()
        .as_millis() as i64;
    let now = get_current_timestamp();
    let after = std::time::SystemTime::now()
        .duration_since(std::time::UNIX_EPOCH)
        .unwrap()
        .as_millis() as i64;
    assert!(before <= now && now <= after);
}

#[test]
fn short_texts_decode_to_what_was_encoded() {
    let mut seed = sha(b"round trip");
    for len in 0..=96usize {
        for zeros in [0usize, 1, 2, len / 2] {
            seed = sha(&seed);
            let mut bytes: Vec<u8> = seed.iter().cycle().take(len).cloned().collect();
            for byte in bytes.iter_mut().take(zeros) {
                *byte = 0;
            }
            let text = encode_address(&bytes);
            if text.len() <= BASE58_MAX_LEN {
                assert_eq!(decode_address(&text), Ok(bytes));
            }
        }
    }
    for len in 0..=132usize {
        let bytes = vec![0u8; len];
        assert_eq!(decode_address(&encode_address(&bytes)), Ok(bytes));
    }
}

#[test]
fn peer_is_an_address_and_a_port() {
    let peer = Node { address: text("10.0.0.2"), port: 8000 };
    assert_eq!(peer.clone(), peer);
    assert_eq!(peer.port, 8000);
}

#[test]
fn hex_text_agrees_with_the_hex_crate() {
    let all: Vec<u8> = (0..=255u8).collect();
    assert_eq!(to_hex(&all), hex::encode(&all));
    assert_eq!(to_hex(&[]), "");
    assert_eq!(to_hex(&[0x00, 0x0f, 0xf0, 0xab]), "000ff0ab");
    assert_eq!(decode_hex(&hex::encode(&all)), Ok(all.clone()));
    assert_eq!(decode_hex(&hex::encode_upper(&all)), Ok(all));
    for text in ["", "0", "00", "0G", "g0", "a/", ":a", "@A", "`a", "Ff", "fF", " 0", "0é", "éé"] {
        assert_eq!(decode_hex(text).ok(), hex::decode(text).ok());
    }
}
