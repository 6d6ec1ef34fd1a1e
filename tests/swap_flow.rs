use xmr_bch_swap::alice::{self, Alice};
use xmr_bch_swap::bob::{self, Bob};
use xmr_bch_swap::contract::{ContractPair, TransactionType};
use xmr_bch_swap::keys::{KeyPrivate, Network, PrivateKey};
use xmr_bch_swap::protocol::{Action, Error, Swap, SwapWrapper, Transition, XmrNetwork};
use xmr_bch_swap::script::p2pkh;
use xmr_bch_swap::transaction::{OutPoint, Transaction, TxIn, TxOut};
use xmr_bch_swap::utils::get_signature;

fn recv_script(tag: u8) -> Vec<u8> {
    p2pkh(&[tag; 20])
}

fn swap(tag: u8, keys: KeyPrivate) -> Swap {
    Swap {
        id: format!("trade{}", tag),
        xmr_network: XmrNetwork::Stagenet,
        bch_network: Network::Testnet,
        keys,
        bch_recv: recv_script(tag),
        xmr_amount: 100_000,
        bch_amount: 100_000,
        timelock1: 20,
        timelock2: 20,
    }
}

fn fresh_keys() -> KeyPrivate {
    loop {
        let k = KeyPrivate::random(Network::Testnet);
        if k.monero_spend[31] & 0x10 == 0 {
            return k;
        }
    }
}

fn deposit(pair: &ContractPair, value: u64) -> Transaction {
    Transaction {
        version: 2,
        lock_time: 0,
        input: vec![TxIn {
            previous_output: OutPoint { txid: vec![7u8; 32], vout: 1 },
            script_sig: vec![0x51],
            sequence: 0xffff_ffff,
        }],
        output: vec![
            TxOut { value: 5000, script_pubkey: recv_script(9) },
            TxOut { value, script_pubkey: pair.swaplock.locking_script() },
        ],
    }
}

struct Pair {
    alice: Alice,
    bob: Bob,
    alice_keys: KeyPrivate,
    bob_keys: KeyPrivate,
}

/// Runs both roles through the key and contract exchange, up to both in ContractMatch.
fn agreed() -> Pair {
    let alice_keys = fresh_keys();
    let bob_keys = fresh_keys();
    let alice = Alice { state: alice::State::Init, swap: swap(1, alice_keys.clone()) };
    let bob = Bob::new(swap(2, bob_keys.clone()));

    let msg = alice.get_transition().unwrap();
    let (bob, actions, err) = bob.transition(msg);
    assert!(err.is_none());
    assert!(matches!(bob.state, bob::State::WithAliceKey(_)));
    assert!(matches!(actions.as_slice(), [Action::CreateXmrView(_)]));

    let msg = bob.get_transition().unwrap();
    let (alice, actions, err) = alice.transition(msg);
    assert!(err.is_none());
    assert!(actions.is_empty());
    assert!(matches!(alice.state, alice::State::WithBobKeys(_)));

    let msg = alice.get_transition().unwrap();
    assert!(matches!(msg, Transition::Contract { .. }));
    let (bob, _, err) = bob.transition(msg);
    assert!(err.is_none());
    assert!(matches!(bob.state, bob::State::ContractMatch(_)));

    let msg = bob.get_transition().unwrap();
    let (alice, actions, err) = alice.transition(msg);
    assert!(err.is_none());
    assert!(matches!(alice.state, alice::State::ContractMatch(_)));
    assert!(matches!(actions.as_slice(), [Action::WatchBchAddress { .. }]));
    Pair { alice, bob, alice_keys, bob_keys }
}

#[test]
fn happy_path_bob_alice_testnet() {
    let Pair { alice, bob, alice_keys, bob_keys } = agreed();

    let msg = alice.get_transition().unwrap();
    assert!(matches!(msg, Transition::EncSig(_)));
    let (bob, actions, err) = bob.transition(msg);
    assert!(err.is_none());
    assert!(matches!(bob.state, bob::State::VerifiedEncSig(_)));
    assert!(matches!(actions.as_slice(), [Action::LockBch(100_000, _), Action::WatchXmr(_)]));

    let pair = alice.get_contract_pair().unwrap().clone();
    let (alice, actions, err) = alice.transition(Transition::BchConfirmedTx(deposit(&pair, 100_000)));
    assert!(err.is_none());
    assert!(matches!(alice.state, alice::State::BchLocked(_)));
    assert!(matches!(actions.as_slice(), [Action::LockXmr(100_000, _)]));

    let (bob, actions, err) = bob.transition(Transition::XmrLockVerified(100_000));
    assert!(err.is_none());
    assert!(matches!(bob.state, bob::State::MoneroLocked(_)));
    assert!(matches!(actions.as_slice(), [Action::WatchBchAddress { .. }]));

    let msg = bob.get_transition().unwrap();
    let (alice, actions, err) = alice.transition(msg);
    assert!(err.is_none());
    assert!(matches!(alice.state, alice::State::ValidEncSig(_)));
    assert!(matches!(actions.as_slice(), [Action::UnlockBchNormal]));

    let spend = alice.get_unlock_normal_tx().unwrap();
    assert_eq!(spend.output[0].value, 100_000 - 1000);
    let bob_pair = match &bob.state {
        bob::State::MoneroLocked(v) => v.contract_pair.clone(),
        _ => unreachable!(),
    };
    match bob_pair.analyze_tx(&spend) {
        Some((outpoint, TransactionType::SwapLockToAlice)) => assert_eq!(outpoint.vout, 0),
        other => panic!("unexpected classification {:?}", other),
    }

    let sig = get_signature(&spend.input[0].script_sig).unwrap();
    let (bob, actions, err) = bob.transition(Transition::DecSig(sig));
    assert!(err.is_none());
    assert!(matches!(actions.as_slice(), [Action::TradeSuccess]));
    match &bob.state {
        bob::State::SwapSuccess(key_pair, height) => {
            let expected = (monero::PrivateKey::from_slice(&bob_keys.monero_spend).unwrap()
                + monero::PrivateKey::from_slice(&alice_keys.monero_spend).unwrap())
            .to_bytes()
            .to_vec();
            assert_eq!(key_pair.spend, expected);
            assert_eq!(*height, 0);
        }
        _ => panic!("Bob did not succeed"),
    }
}

#[test]
fn xmr_lock_of_zero_is_refused() {
    let Pair { alice, bob, .. } = agreed();
    let (bob, _, err) = bob.transition(alice.get_transition().unwrap());
    assert!(err.is_none());
    let (bob, actions, err) = bob.transition(Transition::XmrLockVerified(0));
    assert_eq!(err, Some(Error::InvalidXmrAmount));
    assert!(actions.is_empty());
    assert!(matches!(bob.state, bob::State::VerifiedEncSig(_)));
}

#[test]
fn tampered_proof_is_refused() {
    let alice = Alice { state: alice::State::Init, swap: swap(1, fresh_keys()) };
    let bob = Bob::new(swap(2, fresh_keys()));
    let mut msg = alice.get_transition().unwrap();
    if let Transition::Msg0 { keys, .. } = &mut msg {
        let mut proof: sigma_fun::ext::dl_secp256k1_ed25519_eq::CrossCurveDLEQProof =
            serde_json::from_slice(&keys.proof).unwrap();
        proof.commitments.swap(0, 1);
        keys.proof = serde_json::to_vec(&proof).unwrap();
    }
    let (bob, actions, err) = bob.transition(msg);
    assert_eq!(err, Some(Error::InvalidProof));
    assert!(matches!(actions.as_slice(), [Action::SafeDelete]));
    assert!(matches!(bob.state, bob::State::Init));
}

#[test]
fn unrelated_spend_point_is_refused() {
    let alice = Alice { state: alice::State::Init, swap: swap(1, fresh_keys()) };
    let bob = Bob::new(swap(2, fresh_keys()));
    let mut msg = alice.get_transition().unwrap();
    if let Transition::Msg0 { keys, .. } = &mut msg {
        keys.spend_bch = PrivateKey::random().public_key().unwrap().0;
    }
    let (bob, actions, err) = bob.transition(msg);
    assert_eq!(err, Some(Error::InvalidProof));
    assert!(matches!(actions.as_slice(), [Action::SafeDelete]));
    assert!(matches!(bob.state, bob::State::Init));
}

#[test]
fn recomputed_encsig_equals_the_one_sent() {
    let Pair { alice, .. } = agreed();
    let first = alice.get_refunc_enc_sig().unwrap();
    let second = alice.get_refunc_enc_sig().unwrap();
    assert_eq!(first, second);
    match alice.get_transition() {
        Some(Transition::EncSig(e)) => assert_eq!(e, first),
        _ => panic!("no adaptor signature"),
    }
}

#[test]
fn deposit_one_satoshi_short_is_refused() {
    let Pair { alice, .. } = agreed();
    let pair = alice.get_contract_pair().unwrap().clone();
    let tx = deposit(&pair, 100_000 - 1);
    assert!(pair.analyze_tx(&tx).is_none());
    let (alice, actions, err) = alice.transition(Transition::BchConfirmedTx(tx));
    assert_eq!(err, Some(Error::InvalidTransaction));
    assert!(actions.is_empty());
    assert!(matches!(alice.state, alice::State::ContractMatch(_)));
}

#[test]
fn both_parties_derive_the_same_addresses() {
    let alice = Alice { state: alice::State::Init, swap: swap(1, fresh_keys()) };
    let bob = Bob::new(swap(2, fresh_keys()));
    let (bob, _, _) = bob.transition(alice.get_transition().unwrap());
    let (alice, _, _) = alice.transition(bob.get_transition().unwrap());
    let (a_bch, a_xmr) = alice.get_contract().unwrap();
    let (b_bch, b_xmr) = bob.get_contract().unwrap();
    assert_eq!(a_bch, b_bch);
    assert_eq!(a_xmr, b_xmr);
    assert!(a_bch.starts_with("bchtest:"));
}

#[test]
fn redelivered_msg0_changes_nothing() {
    let alice = Alice { state: alice::State::Init, swap: swap(1, fresh_keys()) };
    let bob = Bob::new(swap(2, fresh_keys()));
    let (bob, _, err) = bob.transition(alice.get_transition().unwrap());
    assert!(err.is_none());
    let before = bob.get_contract();
    let (bob, actions, err) = bob.transition(alice.get_transition().unwrap());
    assert_eq!(err, Some(Error::InvalidStateTransition));
    assert!(actions.is_empty());
    assert!(matches!(bob.state, bob::State::WithAliceKey(_)));
    assert_eq!(bob.get_contract(), before);
    assert!(matches!(bob.get_transition(), Some(Transition::Msg0 { .. })));
}

#[test]
fn wrong_addresses_are_refused() {
    let alice = Alice { state: alice::State::Init, swap: swap(1, fresh_keys()) };
    let bob = Bob::new(swap(2, fresh_keys()));
    let (bob, _, _) = bob.transition(alice.get_transition().unwrap());
    let (bch_address, xmr_address) = bob.get_contract().unwrap();
    let (bob, actions, err) = bob.transition(Transition::Contract {
        bch_address: "bchtest:pqqqqqqqqqqqqqqqqqqqqqqqqqqqqqqqqq".to_string(),
        xmr_address: xmr_address.clone(),
    });
    assert_eq!(err, Some(Error::InvalidBchAddress));
    assert!(actions.is_empty());
    let (bob, _, err) = bob.transition(Transition::Contract { bch_address, xmr_address: "5".to_string() });
    assert_eq!(err, Some(Error::InvalidXmrAddress));
    assert!(matches!(bob.state, bob::State::WithAliceKey(_)));
}

#[test]
fn encsig_for_another_key_is_refused() {
    let Pair { bob, .. } = agreed();
    let other = agreed();
    let msg = other.alice.get_transition().unwrap();
    let (bob, actions, err) = bob.transition(msg);
    assert_eq!(err, Some(Error::InvalidSignature));
    assert!(matches!(actions.as_slice(), [Action::SafeDelete]));
    assert!(matches!(bob.state, bob::State::ContractMatch(_)));
}

#[test]
fn oversized_timelock_refuses_msg0() {
    let mut s = swap(1, fresh_keys());
    s.timelock1 = 65_536;
    let alice = Alice { state: alice::State::Init, swap: s };
    let bob = Bob::new(swap(2, fresh_keys()));
    let (alice, actions, err) = alice.transition(bob.get_public_keys().map(|keys| Transition::Msg0 {
        keys,
        receiving: recv_script(2),
    }).unwrap());
    assert_eq!(err, Some(Error::InvalidTimelock));
    assert!(actions.is_empty());
    assert!(matches!(alice.state, alice::State::Init));
}

#[test]
fn restore_height_is_recorded_and_idempotent() {
    let Pair { bob, .. } = agreed();
    let (bob, actions, err) = bob.transition(Transition::SetXmrRestoreHeight(1234));
    assert!(err.is_none() && actions.is_empty());
    let (bob, _, _) = bob.transition(Transition::SetXmrRestoreHeight(1234));
    match &bob.state {
        bob::State::ContractMatch(v) => assert_eq!(v.xmr_restore_height, 1234),
        _ => panic!("state moved"),
    }
}

#[test]
fn private_transitions_are_refused_from_the_relay() {
    let bob = Bob::new(swap(2, fresh_keys()));
    let wrapper = SwapWrapper::Bob(bob);
    let refused = wrapper.pub_transition(Transition::XmrLockVerified(100_000));
    assert!(refused.is_err());
    let wrapper = refused.err().unwrap();
    let alice = Alice { state: alice::State::Init, swap: swap(1, fresh_keys()) };
    let accepted = wrapper.pub_transition(alice.get_transition().unwrap());
    match accepted {
        Ok((SwapWrapper::Bob(b), _, None)) => assert!(matches!(b.state, bob::State::WithAliceKey(_))),
        _ => panic!("Msg0 was not accepted"),
    }
}
