use xmr_bch_swap::electrum::{mined_tx_hashes, Root2, TxInfo0};
use xmr_bch_swap::cashaddr::{b32encode, calculate_checksum, encode, polymod, prefix_expand};
use xmr_bch_swap::client;
use xmr_bch_swap::contract::{Contract, ContractPair, TransactionType};
use xmr_bch_swap::keys::Network;
use xmr_bch_swap::relay::{self, CreateError};
use xmr_bch_swap::keys::KeyPrivate;
use xmr_bch_swap::protocol::{SwapWrapper, XmrNetwork};
use xmr_bch_swap::script::p2pkh;
use xmr_bch_swap::transaction::{OutPoint, Transaction, TxIn, TxOut};

fn vector_contract(network: Network) -> Contract {
    let pubkey_ves = hex::decode("02ee2cbe75e3d2a9b5049ac73122c229627a49bd289f71e05075b2c60090766128").unwrap();
    let output = hex::decode("76a91447fe8a0ca161ebc0090c9d46f81582c579c594a788ac").unwrap();
    Contract {
        mining_fee: 1000,
        success_output: output.clone(),
        pubkey_ves,
        timelock: 1000,
        failed_output: output,
        bch_network: network,
    }
}

// The published vector is written with the main network's prefix.
#[test]
fn should_have_correct_address() {
    let refund = vector_contract(Network::Mainnet);
    assert_eq!(refund.cash_address(), "bitcoincash:prmnwxmmaq58h22jt7qrjmutnkrmrfm4j57zy4cf45");
}

#[test]
fn testnet_address_has_same_payload() {
    let main = vector_contract(Network::Mainnet).cash_address();
    let test = vector_contract(Network::Testnet).cash_address();
    assert!(test.starts_with("bchtest:p"));
    let main_body = &main["bitcoincash:".len()..];
    let test_body = &test["bchtest:".len()..];
    assert_eq!(main_body.len(), 42);
    assert_eq!(&main_body[..34], &test_body[..34]);
    assert_ne!(&main_body[34..], &test_body[34..]);
    assert!(vector_contract(Network::Regtest).cash_address().starts_with("bchreg:p"));
}

#[test]
fn contract_script_layout() {
    let c = vector_contract(Network::Testnet);
    let script = c.script();
    let tail = hex::decode("c3519dc4519d00c600cc949d00cb009c6300cd7888547978a85379bb675279b27500cd54798854790088686d6d7551").unwrap();
    assert!(script.ends_with(&tail));
    // push of the 25-byte failed output, then 1000 as a script number
    assert_eq!(script[0], 25);
    assert_eq!(&script[26..29], &[0x02, 0xe8, 0x03]);
    let lock = c.locking_script();
    assert_eq!(lock.len(), 23);
    assert_eq!(&lock[..2], &[0xa9, 0x14]);
    assert_eq!(lock[22], 0x87);
    assert_eq!(&lock[2..22], c.script_hash().as_slice());
    let unlock = c.unlocking_script(&[1, 2, 3]);
    assert_eq!(&unlock[..4], &[3, 1, 2, 3]);
}

#[test]
fn cashaddr_pieces() {
    assert_eq!(prefix_expand("bch"), vec![2, 3, 8, 0]);
    assert_eq!(b32encode(&[0, 1, 2, 31]), "qpzl");
    assert_eq!(polymod(&[]), 0);
    let checksum = calculate_checksum("bitcoincash", &[0u8; 34]);
    assert_eq!(checksum.len(), 8);
    assert!(checksum.iter().all(|v| *v < 32));
    let address = encode(&[0u8; 20], "bitcoincash", 0);
    assert!(address.starts_with("bitcoincash:qqqqqqqqqqqqqqqqqqqqqqqqqqqqqqqqq"));
    assert_eq!(address.len(), "bitcoincash:".len() + 42);
}

fn pair() -> ContractPair {
    ContractPair::create(
        1000,
        p2pkh(&[2u8; 20]),
        hex::decode("02ee2cbe75e3d2a9b5049ac73122c229627a49bd289f71e05075b2c60090766128").unwrap(),
        p2pkh(&[1u8; 20]),
        hex::decode("03ee2cbe75e3d2a9b5049ac73122c229627a49bd289f71e05075b2c60090766128").unwrap(),
        20,
        20,
        Network::Testnet,
        100_000,
    )
    .unwrap()
}

#[test]
fn create_refuses_timelocks_over_sixteen_bits() {
    let mk = |t0: u32, t1: u32| {
        ContractPair::create(1000, vec![1], vec![2], vec![3], vec![4], t0, t1, Network::Testnet, 1)
    };
    assert!(mk(0xffff, 0xffff).is_some());
    assert!(mk(65_536, 20).is_none());
    assert!(mk(20, 65_536).is_none());
    assert!(mk(0, 0).is_some());
}

#[test]
fn pair_links_swaplock_to_refund() {
    let p = pair();
    assert_eq!(p.swaplock.failed_output, p.refund.locking_script());
    assert_eq!(p.swaplock.success_output, p2pkh(&[1u8; 20]));
    assert_eq!(p.refund.success_output, p2pkh(&[2u8; 20]));
    assert_eq!(p.refund.failed_output, p2pkh(&[1u8; 20]));
    assert_eq!(p.swaplock.timelock, 20);
}

fn spend(script_sig: Vec<u8>, value: u64, to: Vec<u8>) -> Transaction {
    Transaction {
        version: 2,
        lock_time: 0,
        input: vec![TxIn { previous_output: OutPoint { txid: vec![3u8; 32], vout: 0 }, script_sig, sequence: 0 }],
        output: vec![TxOut { value, script_pubkey: to }],
    }
}

#[test]
fn classifier_kinds() {
    let p = pair();
    let from_swaplock = p.swaplock.unlocking_script(&[0x30, 0x01]);
    let from_refund = p.refund.unlocking_script(&[0x30, 0x01]);

    let t = spend(from_swaplock.clone(), 99_000, p2pkh(&[1u8; 20]));
    assert!(matches!(p.analyze_tx(&t), Some((_, TransactionType::SwapLockToAlice))));
    let t = spend(from_swaplock.clone(), 99_000, p.refund.locking_script());
    assert!(matches!(p.analyze_tx(&t), Some((_, TransactionType::ToRefund))));
    let t = spend(from_refund.clone(), 98_000, p2pkh(&[2u8; 20]));
    assert!(matches!(p.analyze_tx(&t), Some((_, TransactionType::ToBob))));
    let t = spend(from_refund.clone(), 98_000, p2pkh(&[1u8; 20]));
    assert!(matches!(p.analyze_tx(&t), Some((_, TransactionType::RefundToAlice))));
    let t = spend(from_refund, 98_000, p2pkh(&[5u8; 20]));
    assert!(p.analyze_tx(&t).is_none());
    // an unlocking script that ends in an opcode is no contract spend
    let t = spend(p.swaplock.script(), 99_000, p2pkh(&[1u8; 20]));
    assert!(p.analyze_tx(&t).is_none());

    let mut t = spend(vec![0x51], 1, p2pkh(&[5u8; 20]));
    t.output.push(TxOut { value: 100_000, script_pubkey: p.swaplock.locking_script() });
    t.output.push(TxOut { value: 100_000, script_pubkey: p.swaplock.locking_script() });
    match p.analyze_tx(&t) {
        Some((outpoint, TransactionType::ToSwapLock)) => {
            assert_eq!(outpoint.vout, 1);
            assert!((outpoint.vout as usize) < t.output.len());
            assert_eq!(outpoint.txid.len(), 32);
        }
        _ => panic!("deposit not found"),
    }
}

#[test]
fn trade_creation_checks_the_request() {
    let keys = || KeyPrivate::random(Network::Testnet);
    let mk = |path: &str, t1: i64| {
        relay::create_trade(path, 100_000, 100_000, t1, 20, "abc".to_string(), keys(), &[4u8; 20],
            XmrNetwork::Stagenet, Network::Testnet)
    };
    let e = mk("xmr->bch", 65_536).err().unwrap();
    assert_eq!(e, CreateError::InvalidTimelock);
    assert_eq!(e.status(), 400);
    assert_eq!(mk("xmr->bch", 21).err(), Some(CreateError::UnofferedTimelock));
    assert_eq!(mk("bch->xmr", 20).err().map(|e| e.status()), Some(501));
    let bad_amount = relay::create_trade("xmr->bch", 1, 100_000, 20, 20, "abc".to_string(), keys(), &[4u8; 20],
        XmrNetwork::Stagenet, Network::Testnet);
    assert_eq!(bad_amount.err().map(|e| e.status()), Some(403));
    match mk("xmr->bch", 20) {
        Ok(SwapWrapper::Bob(b)) => {
            assert_eq!(b.swap.id, "abc");
            assert_eq!(b.swap.bch_recv, p2pkh(&[4u8; 20]));
        }
        _ => panic!("trade not created"),
    }
}

#[test]
fn file_paths_and_ids() {
    assert_eq!(relay::get_file_path("x1"), "./.trades/ongoing/x1-server.json");
    assert_eq!(client::get_file_path("x1"), "./.trades/ongoing/x1-client.json");
    let id = relay::random_str(10);
    assert_eq!(id.chars().count(), 10);
    assert!(id.chars().all(|c| c.is_ascii_alphanumeric()));
}

#[test]
fn history_keeps_mined_transactions() {
    let history = vec![
        Root2 { height: 10, tx_hash: "aa".to_string() },
        Root2 { height: 0, tx_hash: "bb".to_string() },
        Root2 { height: 12, tx_hash: "cc".to_string() },
    ];
    assert_eq!(mined_tx_hashes(&history), vec!["aa".to_string(), "cc".to_string()]);
    let info = TxInfo0 { confirmations: 1, hex: vec![] };
    assert!(info.is_confirmed(1));
    assert!(!info.is_confirmed(2));
}

#[test]
fn names_of_errors_and_states() {
    assert_eq!(xmr_bch_swap::protocol::Error::InvalidXmrAmount.to_string(), "InvalidXmrAmount");
    assert_eq!(xmr_bch_swap::protocol::Error::InvalidTimelock.to_string(), "InvalidTimelock");
    assert_eq!(xmr_bch_swap::alice::State::Init.to_string(), "AliceState:Init");
    assert_eq!(xmr_bch_swap::protocol::Transition::XmrLockVerified(1).to_string(), "Transition::XmrLockVerified");
}
