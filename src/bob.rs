use vstd::prelude::*;

use crate::adaptor_signature::AdaptorSignature;
use crate::alice::one;
use crate::contract::{copy_bytes, ContractPair, MAX_PUSH_LEN};
use crate::crypto::{
    decrypted_of, dleq_valid_of, ecdsa_valid_of, ed_scalar_add, ed_scalar_sum_of, enc_sig_of, opt_bytes,
    recovered_of, xmr_address, xmr_address_of,
};
use crate::dleq;
use crate::hashes::{sha256d, sha256d_of};
use crate::keys::{KeyPublic, KeyPublicWithoutProof};
use crate::protocol::{Action, Checks, Error, Findings, KeyPair, Swap, Transition, ViewPair, MINING_FEE};

verus! {

/// Bob's view of the trade once Alice's keys are known.
#[derive(Debug, Clone)]
pub struct Value0 {
    pub alice_keys: KeyPublicWithoutProof,
    pub alice_bch_recv: Vec<u8>,
    pub contract_pair: ContractPair,
    pub shared_keypair: ViewPair,
    pub xmr_restore_height: u64,
}

/// Bob's view of the trade once the Monero side is locked.
#[derive(Debug, Clone)]
pub struct Value2 {
    pub alice_keys: KeyPublicWithoutProof,
    pub alice_bch_recv: Vec<u8>,
    pub contract_pair: ContractPair,
    pub shared_keypair: ViewPair,
    pub xmr_restore_height: u64,
}

#[derive(Debug, Clone)]
pub enum State {
    Init,
    WithAliceKey(Value0),
    ContractMatch(Value0),
    VerifiedEncSig(Value0),
    MoneroLocked(Value2),
    /// The full Monero key pair of the shared wallet, and the height to restore it from.
    SwapSuccess(KeyPair, u64),
}

/// The BCH-sending party.
#[derive(Debug, Clone)]
pub struct Bob {
    pub state: State,
    pub swap: Swap,
}

pub type Outcome = (Bob, Vec<Action>, Option<Error>);

impl Value0 {
    pub open spec fn wf(&self) -> bool {
        &&& self.contract_pair.wf()
        &&& self.alice_bch_recv@.len() < MAX_PUSH_LEN
    }

    /// The state Bob builds from Alice's `Msg0`.
    pub open spec fn made_from(&self, swap: Swap, keys: KeyPublic, receiving: Seq<u8>) -> bool {
        &&& self.alice_keys.same_keys(keys)
        &&& self.alice_bch_recv@ == receiving
        &&& swap.shared_with(keys, self.shared_keypair)
        &&& self.contract_pair.built_from(MINING_FEE, swap.bch_recv@, swap.spec_ves_public(), receiving,
            keys.ves@, swap.timelock1, swap.timelock2, swap.bch_network, swap.bch_amount)
        &&& self.xmr_restore_height == 0
    }
}

impl Value2 {
    pub open spec fn wf(&self) -> bool {
        &&& self.contract_pair.wf()
        &&& self.alice_bch_recv@.len() < MAX_PUSH_LEN
    }

    pub open spec fn extends(&self, v: Value0) -> bool {
        &&& self.alice_keys == v.alice_keys
        &&& self.alice_bch_recv == v.alice_bch_recv
        &&& self.contract_pair == v.contract_pair
        &&& self.shared_keypair == v.shared_keypair
        &&& self.xmr_restore_height == v.xmr_restore_height
    }
}

/// The state with its restore height set, where it holds one.
pub open spec fn with_height(s: State, h: u64) -> State {
    match s {
        State::WithAliceKey(v) => State::WithAliceKey(Value0 { xmr_restore_height: h, ..v }),
        State::ContractMatch(v) => State::ContractMatch(Value0 { xmr_restore_height: h, ..v }),
        State::VerifiedEncSig(v) => State::VerifiedEncSig(Value0 { xmr_restore_height: h, ..v }),
        State::MoneroLocked(v) => State::MoneroLocked(Value2 { xmr_restore_height: h, ..v }),
        _ => s,
    }
}

impl Bob {
    pub open spec fn wf(&self) -> bool {
        &&& self.swap.wf()
        &&& match self.state {
            State::WithAliceKey(v) => v.wf(),
            State::ContractMatch(v) => v.wf(),
            State::VerifiedEncSig(v) => v.wf(),
            State::MoneroLocked(v) => v.wf(),
            _ => true,
        }
    }

    pub open spec fn refused(&self, r: Outcome, actions: Seq<Action>, e: Error) -> bool {
        r.0 == *self && r.1@ == actions && r.2 == Some(e)
    }

    pub open spec fn xmr_address_for(&self, v: ViewPair) -> Option<Seq<char>> {
        xmr_address_of(self.swap.xmr_network.spec_code(), v.spend@, v.view@)
    }

    /// What Bob does on `t`, given what the outside cryptography found.
    pub open spec fn step(&self, t: Transition, c: Findings, r: Outcome) -> bool {
        match t {
            Transition::SetXmrRestoreHeight(h) => {
                &&& r.0.swap == self.swap
                &&& r.0.state == with_height(self.state, h)
                &&& r.1@.len() == 0
                &&& r.2 is None
            },
            Transition::Msg0 { keys, receiving } => match self.state {
                State::Init => if !c.0 || !self.swap.accepts_peer(keys, receiving@) {
                    self.refused(r, seq![Action::SafeDelete], Error::InvalidProof)
                } else if !self.swap.timelocks_fit() {
                    self.refused(r, seq![], Error::InvalidTimelock)
                } else {
                    &&& r.0.swap == self.swap
                    &&& r.0.state matches State::WithAliceKey(v) && v.made_from(self.swap, keys, receiving@)
                        && r.1@.len() == 1 && (r.1@[0] matches Action::CreateXmrView(p)
                        && p.spend@ == v.shared_keypair.spend@ && p.view@ == v.shared_keypair.view@)
                    &&& r.2 is None
                },
                _ => self.refused(r, seq![], Error::InvalidStateTransition),
            },
            Transition::Contract { bch_address, xmr_address } => match self.state {
                State::WithAliceKey(v) => if bch_address@ != v.contract_pair.swaplock.spec_cash_address() {
                    self.refused(r, seq![], Error::InvalidBchAddress)
                } else if self.xmr_address_for(v.shared_keypair) != Some(xmr_address@) {
                    self.refused(r, seq![], Error::InvalidXmrAddress)
                } else {
                    &&& r.0.swap == self.swap
                    &&& r.0.state == State::ContractMatch(v)
                    &&& r.1@.len() == 0
                    &&& r.2 is None
                },
                _ => self.refused(r, seq![], Error::InvalidStateTransition),
            },
            Transition::EncSig(_) => match self.state {
                State::ContractMatch(v) => if !(c.1 matches Some(d)
                    && ecdsa_valid_of(v.alice_keys.ves@, sha256d_of(self.swap.bch_recv@), d)) {
                    self.refused(r, seq![Action::SafeDelete], Error::InvalidSignature)
                } else if self.xmr_address_for(v.shared_keypair) is None {
                    self.refused(r, seq![], Error::InvalidXmrAddress)
                } else {
                    &&& r.0.swap == self.swap
                    &&& r.0.state == State::VerifiedEncSig(v)
                    &&& r.1@.len() == 2
                    &&& r.1@[0] matches Action::LockBch(amount, address)
                        && amount == self.swap.bch_amount && address@ == v.contract_pair.swaplock.spec_cash_address()
                    &&& r.1@[1] matches Action::WatchXmr(address) && self.xmr_address_for(v.shared_keypair) == Some(address@)
                    &&& r.2 is None
                },
                _ => self.refused(r, seq![], Error::InvalidStateTransition),
            },
            Transition::XmrLockVerified(amount) => match self.state {
                State::VerifiedEncSig(v) => if amount != self.swap.xmr_amount {
                    self.refused(r, seq![], Error::InvalidXmrAmount)
                } else {
                    &&& r.0.swap == self.swap
                    &&& r.0.state matches State::MoneroLocked(w) && w.extends(v)
                    &&& r.1@.len() == 1
                    &&& r.1@[0] matches Action::WatchBchAddress { swaplock, refund }
                        && swaplock@ == v.contract_pair.swaplock.spec_cash_address()
                        && refund@ == v.contract_pair.refund.spec_cash_address()
                    &&& r.2 is None
                },
                _ => self.refused(r, seq![], Error::InvalidStateTransition),
            },
            Transition::DecSig(_) => match self.state {
                State::MoneroLocked(v) => if !(c.2 matches Some(k)
                    && ed_scalar_sum_of(self.swap.keys.monero_spend@, k) is Some) {
                    self.refused(r, seq![], Error::InvalidSignature)
                } else {
                    &&& r.0.swap == self.swap
                    &&& r.0.state matches State::SwapSuccess(pair, height)
                        && pair.view@ == v.shared_keypair.view@
                        && Some(pair.spend@) == ed_scalar_sum_of(self.swap.keys.monero_spend@, c.2->Some_0)
                        && height == v.xmr_restore_height
                    &&& r.1@ == seq![Action::TradeSuccess]
                    &&& r.2 is None
                },
                _ => self.refused(r, seq![], Error::InvalidStateTransition),
            },
            _ => self.refused(r, seq![], Error::InvalidStateTransition),
        }
    }

    pub fn new(swap: Swap) -> (r: Self)
        ensures
            r.state is Init,
            r.swap == swap,
    {
        Bob { state: State::Init, swap }
    }

    fn refuse(self, actions: Vec<Action>, e: Error) -> (r: Outcome)
        ensures
            r.0 == self && r.1 == actions && r.2 == Some(e),
    {
        (self, actions, Some(e))
    }

    /// Moves Bob on `transition`, given what the outside cryptography found
    /// for it in `checks`.
    pub fn apply(self, transition: Transition, checks: Checks) -> (r: Outcome)
        requires
            self.wf(),
        ensures
            self.step(transition, checks.findings(), r),
            r.0.wf(),
    {
        match transition {
            Transition::SetXmrRestoreHeight(height) => {
                let Bob { state, swap } = self;
                let state = match state {
                    State::WithAliceKey(v) => State::WithAliceKey(Value0 { xmr_restore_height: height, ..v }),
                    State::ContractMatch(v) => State::ContractMatch(Value0 { xmr_restore_height: height, ..v }),
                    State::VerifiedEncSig(v) => State::VerifiedEncSig(Value0 { xmr_restore_height: height, ..v }),
                    State::MoneroLocked(v) => State::MoneroLocked(Value2 { xmr_restore_height: height, ..v }),
                    other => other,
                };
                (Bob { state, swap }, Vec::new(), None)
            },
            Transition::Msg0 { keys, receiving } => {
                match &self.state {
                    State::Init => {},
                    _ => return self.refuse(Vec::new(), Error::InvalidStateTransition),
                }
                if !checks.proof_valid {
                    return self.refuse(one(Action::SafeDelete), Error::InvalidProof);
                }
                let (shared_keypair, ves) = match self.swap.check_peer(&keys, &receiving) {
                    Some(p) => p,
                    None => return self.refuse(one(Action::SafeDelete), Error::InvalidProof),
                };
                let contract_pair = match ContractPair::create(
                    MINING_FEE,
                    self.swap.bch_recv.clone(),
                    ves,
                    receiving.clone(),
                    keys.ves.clone(),
                    self.swap.timelock1,
                    self.swap.timelock2,
                    self.swap.bch_network,
                    self.swap.bch_amount,
                ) {
                    Some(p) => p,
                    None => return self.refuse(Vec::new(), Error::InvalidTimelock),
                };
                let view = ViewPair { spend: copy_bytes(&shared_keypair.spend), view: copy_bytes(&shared_keypair.view) };
                let Bob { state: _, swap } = self;
                let state = State::WithAliceKey(Value0 {
                    alice_keys: KeyPublicWithoutProof::from_public(keys),
                    alice_bch_recv: receiving,
                    contract_pair,
                    shared_keypair,
                    xmr_restore_height: 0,
                });
                (Bob { state, swap }, one(Action::CreateXmrView(view)), None)
            },
            Transition::Contract { bch_address, xmr_address: xmr_claimed } => {
                let Bob { state, swap } = self;
                match state {
                    State::WithAliceKey(props) => {
                        let swaplock = props.contract_pair.swaplock.cash_address();
                        if swaplock != bch_address {
                            return Bob { state: State::WithAliceKey(props), swap }.refuse(
                                Vec::new(), Error::InvalidBchAddress);
                        }
                        let derived = xmr_address(swap.xmr_network.code(),
                            props.shared_keypair.spend.as_slice(), props.shared_keypair.view.as_slice());
                        let matches_claim = match &derived {
                            Some(d) => *d == xmr_claimed,
                            None => false,
                        };
                        if !matches_claim {
                            return Bob { state: State::WithAliceKey(props), swap }.refuse(
                                Vec::new(), Error::InvalidXmrAddress);
                        }
                        (Bob { state: State::ContractMatch(props), swap }, Vec::new(), None)
                    },
                    other => Bob { state: other, swap }.refuse(Vec::new(), Error::InvalidStateTransition),
                }
            },
            Transition::EncSig(_) => {
                let Bob { state, swap } = self;
                match state {
                    State::ContractMatch(props) => {
                        let dec_sig = match checks.decrypted {
                            Some(d) => d,
                            None => return Bob { state: State::ContractMatch(props), swap }.refuse(
                                one(Action::SafeDelete), Error::InvalidSignature),
                        };
                        let recv_hash = sha256d(swap.bch_recv.as_slice());
                        if !AdaptorSignature::verify(props.alice_keys.ves.as_slice(), recv_hash.as_slice(), dec_sig.as_slice()) {
                            return Bob { state: State::ContractMatch(props), swap }.refuse(
                                one(Action::SafeDelete), Error::InvalidSignature);
                        }
                        let xmr = match xmr_address(swap.xmr_network.code(),
                            props.shared_keypair.spend.as_slice(), props.shared_keypair.view.as_slice()) {
                            Some(a) => a,
                            None => return Bob { state: State::ContractMatch(props), swap }.refuse(
                                Vec::new(), Error::InvalidXmrAddress),
                        };
                        let bch = props.contract_pair.swaplock.cash_address();
                        let mut actions: Vec<Action> = Vec::new();
                        actions.push(Action::LockBch(swap.bch_amount, bch));
                        actions.push(Action::WatchXmr(xmr));
                        (Bob { state: State::VerifiedEncSig(props), swap }, actions, None)
                    },
                    other => Bob { state: other, swap }.refuse(Vec::new(), Error::InvalidStateTransition),
                }
            },
            Transition::XmrLockVerified(amount) => {
                let Bob { state, swap } = self;
                match state {
                    State::VerifiedEncSig(props) => {
                        if amount != swap.xmr_amount {
                            return Bob { state: State::VerifiedEncSig(props), swap }.refuse(
                                Vec::new(), Error::InvalidXmrAmount);
                        }
                        let swaplock = props.contract_pair.swaplock.cash_address();
                        let refund = props.contract_pair.refund.cash_address();
                        let state = State::MoneroLocked(Value2 {
                            alice_keys: props.alice_keys,
                            alice_bch_recv: props.alice_bch_recv,
                            contract_pair: props.contract_pair,
                            shared_keypair: props.shared_keypair,
                            xmr_restore_height: props.xmr_restore_height,
                        });
                        (Bob { state, swap }, one(Action::WatchBchAddress { swaplock, refund }), None)
                    },
                    other => Bob { state: other, swap }.refuse(Vec::new(), Error::InvalidStateTransition),
                }
            },
            Transition::DecSig(_) => {
                let Bob { state, swap } = self;
                match state {
                    State::MoneroLocked(props) => {
                        let alice_spend = match checks.recovered {
                            Some(k) => k,
                            None => return Bob { state: State::MoneroLocked(props), swap }.refuse(
                                Vec::new(), Error::InvalidSignature),
                        };
                        let spend = match ed_scalar_add(swap.keys.monero_spend.as_slice(), alice_spend.as_slice()) {
                            Some(s) => s,
                            None => return Bob { state: State::MoneroLocked(props), swap }.refuse(
                                Vec::new(), Error::InvalidSignature),
                        };
                        let key_pair = KeyPair { view: copy_bytes(&props.shared_keypair.view), spend };
                        let state = State::SwapSuccess(key_pair, props.xmr_restore_height);
                        (Bob { state, swap }, one(Action::TradeSuccess), None)
                    },
                    other => Bob { state: other, swap }.refuse(Vec::new(), Error::InvalidStateTransition),
                }
            },
            _ => self.refuse(Vec::new(), Error::InvalidStateTransition),
        }
    }
}

impl Bob {
    /// What the outside cryptography finds for `t` in Bob's state: the
    /// peer's cross-curve proof on `Msg0` in `Init`, the signature decrypted
    /// from Alice's adaptor signature on `EncSig` in `ContractMatch`, and the
    /// key recovered from a completed signature and Bob's own SwapLock adaptor
    /// signature on `DecSig` in `MoneroLocked`.
    pub open spec fn findings_for(&self, t: Transition) -> Findings {
        match (self.state, t) {
            (State::Init, Transition::Msg0 { keys, .. }) =>
                (dleq_valid_of(keys.proof@, keys.spend_bch@, keys.monero_spend@), None, None),
            (State::ContractMatch(_), Transition::EncSig(e)) =>
                (false, decrypted_of(self.swap.keys.monero_spend@, e@), None),
            (State::MoneroLocked(v), Transition::DecSig(sig)) => (false, None, match self.swaplock_enc_sig() {
                Some(e) => recovered_of(v.alice_keys.spend_bch@, sig@, e),
                None => None,
            }),
            _ => (false, None, None),
        }
    }

    /// The SwapLock adaptor signature: made with Bob's VES key, encrypted to
    /// Alice's spend point, over the double SHA-256 of Alice's receiving script.
    pub open spec fn swaplock_enc_sig(&self) -> Option<Seq<u8>> {
        match self.state {
            State::MoneroLocked(v) => enc_sig_of(self.swap.keys.ves@, v.alice_keys.spend_bch@, sha256d_of(v.alice_bch_recv@)),
            _ => None,
        }
    }

    /// The message Bob has for Alice: his keys in `WithAliceKey`, the
    /// addresses in `ContractMatch`, the SwapLock adaptor signature in `MoneroLocked`.
    pub open spec fn outbound(&self, r: Option<Transition>) -> bool {
        match self.state {
            State::WithAliceKey(_) => match r {
                Some(Transition::Msg0 { keys, receiving }) => crate::keys::public_derivable(self.swap.keys)
                    && keys.derived_from(self.swap.keys) && receiving@ == self.swap.bch_recv@,
                None => !crate::keys::public_derivable(self.swap.keys),
                _ => false,
            },
            State::ContractMatch(v) => match r {
                Some(Transition::Contract { bch_address, xmr_address }) =>
                    bch_address@ == v.contract_pair.swaplock.spec_cash_address()
                    && self.xmr_address_for(v.shared_keypair) == Some(xmr_address@),
                None => self.xmr_address_for(v.shared_keypair) is None,
                _ => false,
            },
            State::MoneroLocked(_) => match r {
                Some(Transition::EncSig(e)) => self.swaplock_enc_sig() == Some(e@),
                None => self.swaplock_enc_sig() is None,
                _ => false,
            },
            _ => r is None,
        }
    }

    /// Moves Bob on `transition`. The outside cryptography is consulted where
    /// the state calls for it: the peer's cross-curve proof on `Msg0` in `Init`,
    /// the decryption of Alice's adaptor signature on `EncSig` in
    /// `ContractMatch`, and the recovery of Alice's spend key from a completed
    /// signature on `DecSig` in `MoneroLocked`.
    pub fn transition(self, transition: Transition) -> (r: Outcome)
        requires
            self.wf(),
        ensures
            self.step(transition, self.findings_for(transition), r),
            r.0.wf(),
    {
        let checks = match (&self.state, &transition) {
            (State::Init, Transition::Msg0 { keys, .. }) => Checks {
                proof_valid: dleq::verify(keys.proof.as_slice(), keys.spend_bch.as_slice(), keys.monero_spend.as_slice()),
                decrypted: None,
                recovered: None,
            },
            (State::ContractMatch(_), Transition::EncSig(enc)) => Checks {
                proof_valid: false,
                decrypted: AdaptorSignature::decrypt_signature(self.swap.keys.monero_spend.as_slice(), enc.as_slice()),
                recovered: None,
            },
            (State::MoneroLocked(props), Transition::DecSig(sig)) => {
                let recovered = match self.get_swaplock_enc_sig() {
                    Some(enc) => AdaptorSignature::recover_decryption_key(
                        props.alice_keys.spend_bch.as_slice(), sig.as_slice(), enc.as_slice()),
                    None => None,
                };
                Checks { proof_valid: false, decrypted: None, recovered }
            },
            _ => Checks { proof_valid: false, decrypted: None, recovered: None },
        };
        self.apply(transition, checks)
    }

    /// Bob's public keys with a fresh proof.
    pub fn get_public_keys(&self) -> (r: Option<KeyPublic>)
        ensures
            r is Some <==> crate::keys::public_derivable(self.swap.keys),
            r matches Some(p) ==> p.derived_from(self.swap.keys),
    {
        KeyPublic::from_private(&self.swap.keys)
    }

    /// The SwapLock cash address and the shared Monero address, from the time
    /// Alice's keys are known until the contract is agreed.
    pub fn get_contract(&self) -> (r: Option<(String, String)>)
        requires
            self.wf(),
        ensures
            r is Some <==> match self.state {
                State::WithAliceKey(v) => self.xmr_address_for(v.shared_keypair) is Some,
                State::ContractMatch(v) => self.xmr_address_for(v.shared_keypair) is Some,
                _ => false,
            },
            r matches Some((b, x)) ==> match self.state {
                State::WithAliceKey(v) => b@ == v.contract_pair.swaplock.spec_cash_address()
                    && self.xmr_address_for(v.shared_keypair) == Some(x@),
                State::ContractMatch(v) => b@ == v.contract_pair.swaplock.spec_cash_address()
                    && self.xmr_address_for(v.shared_keypair) == Some(x@),
                _ => false,
            },
    {
        let props = match &self.state {
            State::WithAliceKey(props) => props,
            State::ContractMatch(props) => props,
            _ => return None,
        };
        let xmr = match xmr_address(self.swap.xmr_network.code(),
            props.shared_keypair.spend.as_slice(), props.shared_keypair.view.as_slice()) {
            Some(a) => a,
            None => return None,
        };
        Some((props.contract_pair.swaplock.cash_address(), xmr))
    }

    /// The adaptor signature for the SwapLock spend, encrypted to Alice's spend
    /// point and made over the double SHA-256 of Alice's receiving script.
    pub fn get_swaplock_enc_sig(&self) -> (r: Option<Vec<u8>>)
        ensures
            opt_bytes(r) == self.swaplock_enc_sig(),
    {
        match &self.state {
            State::MoneroLocked(props) => {
                let hash = sha256d(props.alice_bch_recv.as_slice());
                AdaptorSignature::encrypted_sign(self.swap.keys.ves.as_slice(),
                    props.alice_keys.spend_bch.as_slice(), hash.as_slice())
            },
            _ => None,
        }
    }

    /// The message Bob has for Alice in his current state, if any.
    pub fn get_transition(&self) -> (r: Option<Transition>)
        requires
            self.wf(),
        ensures
            self.outbound(r),
            r matches Some(t) ==> (t is Msg0 || t is Contract || t is EncSig),
    {
        match &self.state {
            State::WithAliceKey(_) => {
                let keys = match self.get_public_keys() {
                    Some(k) => k,
                    None => return None,
                };
                Some(Transition::Msg0 { keys, receiving: self.swap.bch_recv.clone() })
            },
            State::ContractMatch(_) => match self.get_contract() {
                Some((bch_address, xmr_address)) => Some(Transition::Contract { bch_address, xmr_address }),
                None => None,
            },
            State::MoneroLocked(_) => match self.get_swaplock_enc_sig() {
                Some(e) => Some(Transition::EncSig(e)),
                None => None,
            },
            _ => None,
        }
    }
}

/// Delivering the same event twice leaves Bob where the first delivery left
/// him, each delivery with what the outside cryptography finds for it.
pub proof fn lemma_redelivery_keeps_state(a: Bob, t: Transition, r1: Outcome, r2: Outcome)
    requires
        a.step(t, a.findings_for(t), r1),
        r1.0.step(t, r1.0.findings_for(t), r2),
    ensures
        r2.0 == r1.0,
{
}

impl Bob {
    /// Whether Bob satisfies what his transitions require.
    pub fn check_wf(&self) -> (r: bool)
        ensures
            r == self.wf(),
    {
        self.swap.check_wf() && match &self.state {
            State::WithAliceKey(v) => v.contract_pair.check_wf() && v.alice_bch_recv.len() < MAX_PUSH_LEN,
            State::ContractMatch(v) => v.contract_pair.check_wf() && v.alice_bch_recv.len() < MAX_PUSH_LEN,
            State::VerifiedEncSig(v) => v.contract_pair.check_wf() && v.alice_bch_recv.len() < MAX_PUSH_LEN,
            State::MoneroLocked(v) => v.contract_pair.check_wf() && v.alice_bch_recv.len() < MAX_PUSH_LEN,
            _ => true,
        }
    }
}


/// Bob asks for BCH to be locked only when he leaves `ContractMatch` on an
/// adaptor signature that decrypts to a valid signature, under Alice's VES
/// key, of the double SHA-256 of his receiving script.
pub proof fn lemma_lock_bch_needs_valid_encsig(b: Bob, t: Transition, c: Findings, r: Outcome, i: int)
    requires
        b.step(t, c, r),
        0 <= i < r.1@.len(),
        r.1@[i] is LockBch,
    ensures
        t is EncSig,
        b.state matches State::ContractMatch(v) && c.1 matches Some(d)
            && ecdsa_valid_of(v.alice_keys.ves@, sha256d_of(b.swap.bch_recv@), d),
        r.0.state is VerifiedEncSig,
{
}

} // verus!
