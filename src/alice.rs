use vstd::prelude::*;

use crate::adaptor_signature::AdaptorSignature;
use crate::contract::{ContractPair, TransactionType, MAX_PUSH_LEN};
use crate::crypto::{
    compact_to_der, decrypted_of, der_of_compact, dleq_valid_of, ecdsa_valid_of, enc_sig_of, opt_bytes, xmr_address,
    xmr_address_of,
};
use crate::dleq;
use crate::hashes::{sha256d, sha256d_of};
use crate::keys::{KeyPublic, KeyPublicWithoutProof};
use crate::protocol::{Action, Checks, Error, Findings, Swap, Transition, ViewPair, MINING_FEE};
use crate::script::push_data;
use crate::transaction::{txid_of, OutPoint, Transaction, TxIn, TxOut};

verus! {

/// Alice's view of the trade once Bob's keys are known.
#[derive(Debug, Clone)]
pub struct Value0 {
    pub bob_keys: KeyPublicWithoutProof,
    pub bob_bch_recv: Vec<u8>,
    pub contract_pair: ContractPair,
    pub shared_keypair: ViewPair,
}

/// As `Value0`, with the SwapLock deposit found on chain.
#[derive(Debug, Clone)]
pub struct Value1 {
    pub bob_keys: KeyPublicWithoutProof,
    pub bob_bch_recv: Vec<u8>,
    pub contract_pair: ContractPair,
    pub shared_keypair: ViewPair,
    pub outpoint: OutPoint,
}

/// As `Value1`, with Bob's decrypted signature in DER form.
#[derive(Debug, Clone)]
pub struct Value2 {
    pub bob_keys: KeyPublicWithoutProof,
    pub bob_bch_recv: Vec<u8>,
    pub contract_pair: ContractPair,
    pub shared_keypair: ViewPair,
    pub outpoint: OutPoint,
    pub dec_sig: Vec<u8>,
}

#[derive(Debug, Clone)]
pub enum State {
    Init,
    WithBobKeys(Value0),
    ContractMatch(Value0),
    BchLocked(Value1),
    ValidEncSig(Value2),
}

impl State {
    /// The name of the state.
    pub fn to_string(&self) -> (r: String)
        ensures
            r@ == match self {
                State::Init => "AliceState:Init"@,
                State::WithBobKeys(_) => "AliceState:WithBobKeys"@,
                State::ContractMatch(_) => "AliceState:ContractMatch"@,
                State::BchLocked(_) => "AliceState:BchLocked"@,
                State::ValidEncSig(_) => "AliceState:ValidEncSig"@,
            },
    {
        let s = match self {
            State::Init => "AliceState:Init",
            State::WithBobKeys(_) => "AliceState:WithBobKeys",
            State::ContractMatch(_) => "AliceState:ContractMatch",
            State::BchLocked(_) => "AliceState:BchLocked",
            State::ValidEncSig(_) => "AliceState:ValidEncSig",
        };
        String::from_str(s)
    }
}

/// The XMR-sending party.
#[derive(Debug, Clone)]
pub struct Alice {
    pub state: State,
    pub swap: Swap,
}

impl Value0 {
    pub open spec fn wf(&self) -> bool {
        &&& self.contract_pair.wf()
        &&& self.bob_bch_recv@.len() < MAX_PUSH_LEN
    }

    /// The state Alice builds from Bob's `Msg0`.
    pub open spec fn made_from(&self, swap: Swap, keys: KeyPublic, receiving: Seq<u8>) -> bool {
        &&& self.bob_keys.same_keys(keys)
        &&& self.bob_bch_recv@ == receiving
        &&& swap.shared_with(keys, self.shared_keypair)
        &&& self.contract_pair.built_from(MINING_FEE, receiving, keys.ves@, swap.bch_recv@,
            swap.spec_ves_public(), swap.timelock1, swap.timelock2, swap.bch_network, swap.bch_amount)
    }
}

impl Value1 {
    pub open spec fn wf(&self) -> bool {
        &&& self.contract_pair.wf()
        &&& self.bob_bch_recv@.len() < MAX_PUSH_LEN
    }

    pub open spec fn extends(&self, v: Value0) -> bool {
        &&& self.bob_keys == v.bob_keys
        &&& self.bob_bch_recv == v.bob_bch_recv
        &&& self.contract_pair == v.contract_pair
        &&& self.shared_keypair == v.shared_keypair
    }
}

impl Value2 {
    pub open spec fn wf(&self) -> bool {
        &&& self.contract_pair.wf()
        &&& self.bob_bch_recv@.len() < MAX_PUSH_LEN
        &&& self.dec_sig@.len() <= 72
    }

    pub open spec fn extends(&self, v: Value1) -> bool {
        &&& self.bob_keys == v.bob_keys
        &&& self.bob_bch_recv == v.bob_bch_recv
        &&& self.contract_pair == v.contract_pair
        &&& self.shared_keypair == v.shared_keypair
        &&& self.outpoint == v.outpoint
    }
}

/// The result of a transition: the role, the actions to perform, and the error if any.
pub type Outcome = (Alice, Vec<Action>, Option<Error>);

impl Alice {
    pub open spec fn wf(&self) -> bool {
        &&& self.swap.wf()
        &&& match self.state {
            State::Init => true,
            State::WithBobKeys(v) => v.wf(),
            State::ContractMatch(v) => v.wf(),
            State::BchLocked(v) => v.wf(),
            State::ValidEncSig(v) => v.wf(),
        }
    }

    /// The transition was refused: Alice is unchanged.
    pub open spec fn refused(&self, r: Outcome, actions: Seq<Action>, e: Error) -> bool {
        r.0 == *self && r.1@ == actions && r.2 == Some(e)
    }

    pub open spec fn xmr_address_for(&self, v: ViewPair) -> Option<Seq<char>> {
        xmr_address_of(self.swap.xmr_network.spec_code(), v.spend@, v.view@)
    }

    /// What Alice does on `t`, given what the outside cryptography found.
    pub open spec fn step(&self, t: Transition, c: Findings, r: Outcome) -> bool {
        match t {
            Transition::Msg0 { keys, receiving } => match self.state {
                State::Init => if !c.0 || !self.swap.accepts_peer(keys, receiving@) {
                    self.refused(r, seq![Action::SafeDelete], Error::InvalidProof)
                } else if !self.swap.timelocks_fit() {
                    self.refused(r, seq![], Error::InvalidTimelock)
                } else {
                    &&& r.0.swap == self.swap
                    &&& r.0.state matches State::WithBobKeys(v) && v.made_from(self.swap, keys, receiving@)
                    &&& r.1@.len() == 0
                    &&& r.2 is None
                },
                _ => self.refused(r, seq![], Error::InvalidStateTransition),
            },
            Transition::Contract { bch_address, xmr_address } => match self.state {
                State::WithBobKeys(v) => if bch_address@ != v.contract_pair.swaplock.spec_cash_address() {
                    self.refused(r, seq![], Error::InvalidBchAddress)
                } else if self.xmr_address_for(v.shared_keypair) != Some(xmr_address@) {
                    self.refused(r, seq![], Error::InvalidXmrAddress)
                } else {
                    &&& r.0.swap == self.swap
                    &&& r.0.state == State::ContractMatch(v)
                    &&& r.1@.len() == 1
                    &&& r.1@[0] matches Action::WatchBchAddress { swaplock, refund }
                        && swaplock@ == bch_address@ && refund@ == v.contract_pair.refund.spec_cash_address()
                    &&& r.2 is None
                },
                _ => self.refused(r, seq![], Error::InvalidStateTransition),
            },
            Transition::BchConfirmedTx(tx) => match self.state {
                State::ContractMatch(v) => if !tx.wf() || !(v.contract_pair.classify(tx) matches Some((TransactionType::ToSwapLock, _))) {
                    self.refused(r, seq![], Error::InvalidTransaction)
                } else if self.xmr_address_for(v.shared_keypair) is None {
                    self.refused(r, seq![], Error::InvalidXmrAddress)
                } else {
                    &&& r.0.swap == self.swap
                    &&& r.0.state matches State::BchLocked(w) && w.extends(v)
                        && w.outpoint.vout == v.contract_pair.classify(tx)->Some_0.1
                        && w.outpoint.txid@ == txid_of(tx@)
                    &&& r.1@.len() == 1
                    &&& r.1@[0] matches Action::LockXmr(amount, address)
                        && amount == self.swap.xmr_amount && self.xmr_address_for(v.shared_keypair) == Some(address@)
                    &&& r.2 is None
                },
                _ => self.refused(r, seq![], Error::InvalidStateTransition),
            },
            Transition::EncSig(_) => match self.state {
                State::BchLocked(v) => if !(c.1 matches Some(d)
                    && ecdsa_valid_of(v.bob_keys.ves@, sha256d_of(self.swap.bch_recv@), d)
                    && der_of_compact(d) is Some) {
                    self.refused(r, seq![Action::Refund], Error::InvalidSignature)
                } else {
                    &&& r.0.swap == self.swap
                    &&& r.0.state matches State::ValidEncSig(w) && w.extends(v)
                        && w.dec_sig@ == der_of_compact(c.1->Some_0)->Some_0
                    &&& r.1@ == seq![Action::UnlockBchNormal]
                    &&& r.2 is None
                },
                State::ValidEncSig(_) => r.0 == *self && r.1@.len() == 0 && r.2 is None,
                _ => self.refused(r, seq![], Error::InvalidStateTransition),
            },
            _ => self.refused(r, seq![], Error::InvalidStateTransition),
        }
    }

    fn refuse(self, actions: Vec<Action>, e: Error) -> (r: Outcome)
        ensures
            r.0 == self && r.1 == actions && r.2 == Some(e),
    {
        (self, actions, Some(e))
    }

    /// Moves Alice on `transition`, given what the outside cryptography found
    /// for it in `checks`.
    pub fn apply(self, transition: Transition, checks: Checks) -> (r: Outcome)
        requires
            self.wf(),
        ensures
            self.step(transition, checks.findings(), r),
            r.0.wf(),
    {
        match transition {
            Transition::Msg0 { keys, receiving } => {
                match &self.state {
                    State::Init => {},
                    _ => return self.refuse(Vec::new(), Error::InvalidStateTransition),
                }
                if !checks.proof_valid {
                    return self.refuse(one(Action::SafeDelete), Error::InvalidProof);
                }
                let (shared_keypair, ves) = match self.swap.check_peer(&keys, &receiving) {
                    Some(p) => p,
                    None => return self.refuse(one(Action::SafeDelete), Error::InvalidProof),
                };
                let contract_pair = match ContractPair::create(
                    MINING_FEE,
                    receiving.clone(),
                    keys.ves.clone(),
                    self.swap.bch_recv.clone(),
                    ves,
                    self.swap.timelock1,
                    self.swap.timelock2,
                    self.swap.bch_network,
                    self.swap.bch_amount,
                ) {
                    Some(p) => p,
                    None => return self.refuse(Vec::new(), Error::InvalidTimelock),
                };
                let Alice { state: _, swap } = self;
                let state = State::WithBobKeys(Value0 {
                    bob_keys: KeyPublicWithoutProof::from_public(keys),
                    bob_bch_recv: receiving,
                    contract_pair,
                    shared_keypair,
                });
                (Alice { state, swap }, Vec::new(), None)
            },
            Transition::Contract { bch_address, xmr_address: xmr_claimed } => {
                let Alice { state, swap } = self;
                match state {
                    State::WithBobKeys(props) => {
                        let swaplock = props.contract_pair.swaplock.cash_address();
                        if swaplock != bch_address {
                            return Alice { state: State::WithBobKeys(props), swap }.refuse(
                                Vec::new(), Error::InvalidBchAddress);
                        }
                        let derived = xmr_address(swap.xmr_network.code(),
                            props.shared_keypair.spend.as_slice(), props.shared_keypair.view.as_slice());
                        let matches_claim = match &derived {
                            Some(d) => *d == xmr_claimed,
                            None => false,
                        };
                        if !matches_claim {
                            return Alice { state: State::WithBobKeys(props), swap }.refuse(
                                Vec::new(), Error::InvalidXmrAddress);
                        }
                        let refund = props.contract_pair.refund.cash_address();
                        let actions = one(Action::WatchBchAddress { swaplock: bch_address, refund });
                        (Alice { state: State::ContractMatch(props), swap }, actions, None)
                    },
                    other => Alice { state: other, swap }.refuse(Vec::new(), Error::InvalidStateTransition),
                }
            },
            Transition::BchConfirmedTx(transaction) => {
                let Alice { state, swap } = self;
                match state {
                    State::ContractMatch(props) => {
                        if !transaction.check_wf() {
                            return Alice { state: State::ContractMatch(props), swap }.refuse(
                                Vec::new(), Error::InvalidTransaction);
                        }
                        let found = props.contract_pair.analyze_tx(&transaction);
                        let outpoint = match found {
                            Some((outpoint, TransactionType::ToSwapLock)) => outpoint,
                            _ => return Alice { state: State::ContractMatch(props), swap }.refuse(
                                Vec::new(), Error::InvalidTransaction),
                        };
                        let address = match xmr_address(swap.xmr_network.code(),
                            props.shared_keypair.spend.as_slice(), props.shared_keypair.view.as_slice()) {
                            Some(a) => a,
                            None => return Alice { state: State::ContractMatch(props), swap }.refuse(
                                Vec::new(), Error::InvalidXmrAddress),
                        };
                        let xmr_amount = swap.xmr_amount;
                        let state = State::BchLocked(Value1 {
                            bob_keys: props.bob_keys,
                            bob_bch_recv: props.bob_bch_recv,
                            contract_pair: props.contract_pair,
                            shared_keypair: props.shared_keypair,
                            outpoint,
                        });
                        (Alice { state, swap }, one(Action::LockXmr(xmr_amount, address)), None)
                    },
                    other => Alice { state: other, swap }.refuse(Vec::new(), Error::InvalidStateTransition),
                }
            },
            Transition::EncSig(_) => {
                let Alice { state, swap } = self;
                match state {
                    State::ValidEncSig(props) => (Alice { state: State::ValidEncSig(props), swap }, Vec::new(), None),
                    State::BchLocked(props) => {
                        let dec_sig = match checks.decrypted {
                            Some(d) => d,
                            None => return Alice { state: State::BchLocked(props), swap }.refuse(
                                one(Action::Refund), Error::InvalidSignature),
                        };
                        let recv_hash = sha256d(swap.bch_recv.as_slice());
                        if !AdaptorSignature::verify(props.bob_keys.ves.as_slice(), recv_hash.as_slice(), dec_sig.as_slice()) {
                            return Alice { state: State::BchLocked(props), swap }.refuse(
                                one(Action::Refund), Error::InvalidSignature);
                        }
                        let der = match compact_to_der(dec_sig.as_slice()) {
                            Some(d) => d,
                            None => return Alice { state: State::BchLocked(props), swap }.refuse(
                                one(Action::Refund), Error::InvalidSignature),
                        };
                        let state = State::ValidEncSig(Value2 {
                            bob_keys: props.bob_keys,
                            bob_bch_recv: props.bob_bch_recv,
                            contract_pair: props.contract_pair,
                            shared_keypair: props.shared_keypair,
                            outpoint: props.outpoint,
                            dec_sig: der,
                        });
                        (Alice { state, swap }, one(Action::UnlockBchNormal), None)
                    },
                    other => Alice { state: other, swap }.refuse(Vec::new(), Error::InvalidStateTransition),
                }
            },
            _ => self.refuse(Vec::new(), Error::InvalidStateTransition),
        }
    }
}

impl Alice {
    /// What the outside cryptography finds for `t` in Alice's state: the
    /// peer's cross-curve proof on `Msg0` in `Init`, and the signature
    /// decrypted from Bob's adaptor signature on `EncSig` in `BchLocked`.
    pub open spec fn findings_for(&self, t: Transition) -> Findings {
        match (self.state, t) {
            (State::Init, Transition::Msg0 { keys, .. }) =>
                (dleq_valid_of(keys.proof@, keys.spend_bch@, keys.monero_spend@), None, None),
            (State::BchLocked(_), Transition::EncSig(e)) =>
                (false, decrypted_of(self.swap.keys.monero_spend@, e@), None),
            _ => (false, None, None),
        }
    }

    /// The refund adaptor signature: made with Alice's VES key, encrypted to
    /// Bob's spend point, over the double SHA-256 of Bob's receiving script.
    pub open spec fn refund_enc_sig(&self) -> Option<Seq<u8>> {
        match self.state {
            State::ContractMatch(v) => enc_sig_of(self.swap.keys.ves@, v.bob_keys.spend_bch@, sha256d_of(v.bob_bch_recv@)),
            _ => None,
        }
    }

    /// The message Alice has for Bob: her keys in `Init`, the addresses in
    /// `WithBobKeys`, the refund adaptor signature in `ContractMatch`.
    pub open spec fn outbound(&self, r: Option<Transition>) -> bool {
        match self.state {
            State::Init => match r {
                Some(Transition::Msg0 { keys, receiving }) => crate::keys::public_derivable(self.swap.keys)
                    && keys.derived_from(self.swap.keys) && receiving@ == self.swap.bch_recv@,
                None => !crate::keys::public_derivable(self.swap.keys),
                _ => false,
            },
            State::WithBobKeys(v) => match r {
                Some(Transition::Contract { bch_address, xmr_address }) =>
                    bch_address@ == v.contract_pair.swaplock.spec_cash_address()
                    && self.xmr_address_for(v.shared_keypair) == Some(xmr_address@),
                None => self.xmr_address_for(v.shared_keypair) is None,
                _ => false,
            },
            State::ContractMatch(_) => match r {
                Some(Transition::EncSig(e)) => self.refund_enc_sig() == Some(e@),
                None => self.refund_enc_sig() is None,
                _ => false,
            },
            _ => r is None,
        }
    }

    /// Moves Alice on `transition`. The outside cryptography is consulted where
    /// the state calls for it: the peer's cross-curve proof on `Msg0` in `Init`,
    /// and the decryption of Bob's adaptor signature on `EncSig` in `BchLocked`.
    pub fn transition(self, transition: Transition) -> (r: Outcome)
        requires
            self.wf(),
        ensures
            self.step(transition, self.findings_for(transition), r),
            r.0.wf(),
    {
        let checks = match (&self.state, &transition) {
            (State::Init, Transition::Msg0 { keys, .. }) => Checks {
                proof_valid: dleq::verify(keys.proof.as_slice(), keys.spend_bch.as_slice(), keys.monero_spend.as_slice()),
                decrypted: None,
                recovered: None,
            },
            (State::BchLocked(_), Transition::EncSig(enc)) => Checks {
                proof_valid: false,
                decrypted: AdaptorSignature::decrypt_signature(self.swap.keys.monero_spend.as_slice(), enc.as_slice()),
                recovered: None,
            },
            _ => Checks { proof_valid: false, decrypted: None, recovered: None },
        };
        self.apply(transition, checks)
    }

    /// Alice's public keys with a fresh proof.
    pub fn get_public_keys(&self) -> (r: Option<KeyPublic>)
        ensures
            r is Some <==> crate::keys::public_derivable(self.swap.keys),
            r matches Some(p) ==> p.derived_from(self.swap.keys),
    {
        KeyPublic::from_private(&self.swap.keys)
    }

    /// The SwapLock cash address and the shared Monero address, while Bob's keys
    /// are known and the contract is not yet agreed.
    pub fn get_contract(&self) -> (r: Option<(String, String)>)
        requires
            self.wf(),
        ensures
            r is Some <==> (self.state matches State::WithBobKeys(v) && self.xmr_address_for(v.shared_keypair) is Some),
            r matches Some((b, x)) ==> self.state matches State::WithBobKeys(v)
                && b@ == v.contract_pair.swaplock.spec_cash_address()
                && self.xmr_address_for(v.shared_keypair) == Some(x@),
    {
        match &self.state {
            State::WithBobKeys(props) => {
                let xmr = match xmr_address(self.swap.xmr_network.code(),
                    props.shared_keypair.spend.as_slice(), props.shared_keypair.view.as_slice()) {
                    Some(a) => a,
                    None => return None,
                };
                Some((props.contract_pair.swaplock.cash_address(), xmr))
            },
            _ => None,
        }
    }

    /// The adaptor signature for the Refund spend, encrypted to Bob's spend point
    /// and made over the double SHA-256 of Bob's receiving script.
    pub fn get_refunc_enc_sig(&self) -> (r: Option<Vec<u8>>)
        ensures
            opt_bytes(r) == self.refund_enc_sig(),
    {
        match &self.state {
            State::ContractMatch(props) => {
                let hash = sha256d(props.bob_bch_recv.as_slice());
                AdaptorSignature::encrypted_sign(self.swap.keys.ves.as_slice(),
                    props.bob_keys.spend_bch.as_slice(), hash.as_slice())
            },
            _ => None,
        }
    }

    /// The covenants, once Bob's keys are known.
    pub fn get_contract_pair(&self) -> (r: Option<&ContractPair>)
        ensures
            r is None <==> self.state is Init,
            r matches Some(p) ==> match self.state {
                State::WithBobKeys(v) => *p == v.contract_pair,
                State::ContractMatch(v) => *p == v.contract_pair,
                State::BchLocked(v) => *p == v.contract_pair,
                State::ValidEncSig(v) => *p == v.contract_pair,
                State::Init => false,
            },
    {
        match &self.state {
            State::Init => None,
            State::WithBobKeys(v) => Some(&v.contract_pair),
            State::ContractMatch(v) => Some(&v.contract_pair),
            State::BchLocked(v) => Some(&v.contract_pair),
            State::ValidEncSig(v) => Some(&v.contract_pair),
        }
    }

    /// The transaction that spends the SwapLock deposit to Alice with Bob's
    /// signature: version 2, lock time 0, sequence 0, paying the trade amount
    /// less the mining fee to Alice's receiving script.
    pub fn get_unlock_normal_tx(&self) -> (r: Option<Transaction>)
        requires
            self.wf(),
        ensures
            r is Some <==> (self.state matches State::ValidEncSig(v) && self.swap.bch_amount >= v.contract_pair.swaplock.mining_fee),
            r matches Some(tx) ==> self.state matches State::ValidEncSig(v) && {
                &&& tx.version == 2
                &&& tx.lock_time == 0
                &&& tx.input@.len() == 1
                &&& tx.input@[0].sequence == 0
                &&& tx.input@[0].previous_output.txid@ == v.outpoint.txid@
                &&& tx.input@[0].previous_output.vout == v.outpoint.vout
                &&& tx.input@[0].script_sig@ == push_data(v.dec_sig@) + push_data(v.contract_pair.swaplock.spec_script())
                &&& tx.output@.len() == 1
                &&& tx.output@[0].value == self.swap.bch_amount - v.contract_pair.swaplock.mining_fee
                &&& tx.output@[0].script_pubkey@ == self.swap.bch_recv@
            },
    {
        match &self.state {
            State::ValidEncSig(props) => {
                let mining_fee = props.contract_pair.swaplock.mining_fee;
                if self.swap.bch_amount < mining_fee {
                    return None;
                }
                let unlocker = props.contract_pair.swaplock.unlocking_script(props.dec_sig.as_slice());
                let mut input: Vec<TxIn> = Vec::new();
                input.push(TxIn {
                    previous_output: OutPoint { txid: props.outpoint.txid.clone(), vout: props.outpoint.vout },
                    script_sig: unlocker,
                    sequence: 0,
                });
                let mut output: Vec<TxOut> = Vec::new();
                output.push(TxOut { value: self.swap.bch_amount - mining_fee, script_pubkey: self.swap.bch_recv.clone() });
                Some(Transaction { version: 2, lock_time: 0, input, output })
            },
            _ => None,
        }
    }

    /// The message Alice has for Bob in her current state, if any.
    pub fn get_transition(&self) -> (r: Option<Transition>)
        requires
            self.wf(),
        ensures
            self.outbound(r),
            r matches Some(t) ==> (t is Msg0 || t is Contract || t is EncSig),
    {
        match &self.state {
            State::Init => {
                let keys = match self.get_public_keys() {
                    Some(k) => k,
                    None => return None,
                };
                Some(Transition::Msg0 { keys, receiving: self.swap.bch_recv.clone() })
            },
            State::WithBobKeys(_) => match self.get_contract() {
                Some((bch_address, xmr_address)) => Some(Transition::Contract { bch_address, xmr_address }),
                None => None,
            },
            State::ContractMatch(_) => match self.get_refunc_enc_sig() {
                Some(e) => Some(Transition::EncSig(e)),
                None => None,
            },
            _ => None,
        }
    }
}

/// A list of one action.
pub fn one(a: Action) -> (r: Vec<Action>)
    ensures
        r@ == seq![a],
{
    let mut v: Vec<Action> = Vec::new();
    v.push(a);
    v
}

/// Delivering the same event twice leaves Alice where the first delivery left
/// her, each delivery with what the outside cryptography finds for it.
pub proof fn lemma_redelivery_keeps_state(a: Alice, t: Transition, r1: Outcome, r2: Outcome)
    requires
        a.step(t, a.findings_for(t), r1),
        r1.0.step(t, r1.0.findings_for(t), r2),
    ensures
        r2.0 == r1.0,
{
}

impl Alice {
    /// Whether Alice satisfies what her transitions require.
    pub fn check_wf(&self) -> (r: bool)
        ensures
            r == self.wf(),
    {
        self.swap.check_wf() && match &self.state {
            State::Init => true,
            State::WithBobKeys(v) => v.contract_pair.check_wf() && v.bob_bch_recv.len() < MAX_PUSH_LEN,
            State::ContractMatch(v) => v.contract_pair.check_wf() && v.bob_bch_recv.len() < MAX_PUSH_LEN,
            State::BchLocked(v) => v.contract_pair.check_wf() && v.bob_bch_recv.len() < MAX_PUSH_LEN,
            State::ValidEncSig(v) => v.contract_pair.check_wf() && v.bob_bch_recv.len() < MAX_PUSH_LEN
                && v.dec_sig.len() <= 72,
        }
    }
}


/// Alice asks for XMR to be locked only when a confirmed transaction funds
/// SwapLock with the trade amount.
pub proof fn lemma_lock_xmr_needs_deposit(a: Alice, t: Transition, c: Findings, r: Outcome, i: int)
    requires
        a.step(t, c, r),
        0 <= i < r.1@.len(),
        r.1@[i] is LockXmr,
    ensures
        t matches Transition::BchConfirmedTx(tx) && a.state matches State::ContractMatch(v)
            && v.contract_pair.classify(tx) matches Some((TransactionType::ToSwapLock, _)),
        r.0.state is BchLocked,
{
}

} // verus!
