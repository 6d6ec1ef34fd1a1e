use vstd::prelude::*;

use crate::contract::MAX_PUSH_LEN;
use crate::crypto::{
    dleq_valid_of, opt_bytes,
    ed_point_add, ed_point_sum_of, ed_public, ed_public_of, ed_scalar_add, ed_scalar_sum_of, secp_public,
    secp_public_of,
};
use crate::keys::{KeyPrivate, KeyPublic, Network};
use crate::alice::Alice;
use crate::bob::Bob;
use crate::transaction::Transaction;

verus! {

/// The mining fee, in satoshis, that each covenant spend pays.
pub const MINING_FEE: u64 = 1000;

#[derive(Debug, Clone, Copy, PartialEq, Eq, Structural)]
pub enum Error {
    InvalidProof,
    InvalidStateTransition,
    InvalidTransaction,
    InvalidBchAddress,
    InvalidXmrAddress,
    InvalidSignature,
    InvalidXmrAmount,
    InvalidTimelock,
}

impl Error {
    /// The name of the error kind.
    pub fn to_string(&self) -> (r: String)
        ensures
            r@ == match self {
                Error::InvalidProof => "InvalidProof"@,
                Error::InvalidStateTransition => "InvalidStateTransition"@,
                Error::InvalidTransaction => "InvalidTransaction"@,
                Error::InvalidBchAddress => "InvalidBchAddress"@,
                Error::InvalidXmrAddress => "InvalidXmrAddress"@,
                Error::InvalidSignature => "InvalidSignature"@,
                Error::InvalidXmrAmount => "InvalidXmrAmount"@,
                Error::InvalidTimelock => "InvalidTimelock"@,
            },
    {
        let s = match self {
            Error::InvalidProof => "InvalidProof",
            Error::InvalidStateTransition => "InvalidStateTransition",
            Error::InvalidTransaction => "InvalidTransaction",
            Error::InvalidBchAddress => "InvalidBchAddress",
            Error::InvalidXmrAddress => "InvalidXmrAddress",
            Error::InvalidSignature => "InvalidSignature",
            Error::InvalidXmrAmount => "InvalidXmrAmount",
            Error::InvalidTimelock => "InvalidTimelock",
        };
        String::from_str(s)
    }
}

/// The Monero network of a trade.
#[derive(Debug, Clone, Copy, PartialEq, Eq, Structural)]
pub enum XmrNetwork {
    Mainnet,
    Testnet,
    Stagenet,
}

impl XmrNetwork {
    pub open spec fn spec_code(&self) -> u8 {
        match self {
            XmrNetwork::Mainnet => 0,
            XmrNetwork::Testnet => 1,
            XmrNetwork::Stagenet => 2,
        }
    }

    pub fn code(&self) -> (r: u8)
        ensures
            r == self.spec_code(),
            r < 3,
    {
        match self {
            XmrNetwork::Mainnet => 0,
            XmrNetwork::Testnet => 1,
            XmrNetwork::Stagenet => 2,
        }
    }
}

/// A Monero view pair: a public spend key and a private view key.
#[derive(Debug, Clone)]
pub struct ViewPair {
    pub spend: Vec<u8>,
    pub view: Vec<u8>,
}

/// A full Monero key pair: private view and spend keys.
#[derive(Debug, Clone)]
pub struct KeyPair {
    pub view: Vec<u8>,
    pub spend: Vec<u8>,
}

/// An effect that the runner of a role carries out.
#[derive(Debug, Clone)]
pub enum Action {
    SafeDelete,
    /// No further transition is needed.
    TradeSuccess,
    /// Watch both addresses and report confirmed transactions to them.
    WatchBchAddress { swaplock: String, refund: String },
    Refund,
    LockBch(u64, String),
    LockXmr(u64, String),
    WatchXmr(String),
    CreateXmrView(ViewPair),
    UnlockBchNormal,
    UnlockBchFallback,
}

/// An event that moves a role: a message of the peer, or an observation that
/// only the runner makes.
#[derive(Debug, Clone)]
pub enum Transition {
    Msg0 { keys: KeyPublic, receiving: Vec<u8> },
    Contract { bch_address: String, xmr_address: String },
    /// A serialized adaptor signature.
    EncSig(Vec<u8>),
    /// A 64-byte compact signature.
    DecSig(Vec<u8>),
    /// A transaction confirmed on chain; only the runner may report one.
    BchConfirmedTx(Transaction),
    /// The unlocked balance, in piconero, of the shared view wallet.
    XmrLockVerified(u64),
    SetXmrRestoreHeight(u64),
}

impl Transition {
    /// Whether a peer may send this transition through the relay.
    pub open spec fn spec_is_public(&self) -> bool {
        self is Msg0 || self is Contract || self is EncSig
    }

    pub fn is_public(&self) -> (r: bool)
        ensures
            r == self.spec_is_public(),
    {
        match self {
            Transition::Msg0 { .. } => true,
            Transition::Contract { .. } => true,
            Transition::EncSig(_) => true,
            _ => false,
        }
    }

    /// The name of the transition's kind.
    pub fn to_string(&self) -> (r: String)
        ensures
            r@ == match self {
                Transition::Msg0 { .. } => "Transition::Msg0"@,
                Transition::Contract { .. } => "Transition::Contract"@,
                Transition::EncSig(_) => "Transition::EncSig"@,
                Transition::DecSig(_) => "Transition::DecSig"@,
                Transition::BchConfirmedTx(_) => "Transition::BchConfirmedTx"@,
                Transition::XmrLockVerified(_) => "Transition::XmrLockVerified"@,
                Transition::SetXmrRestoreHeight(_) => "Transition::SetXmrRestoreHeight"@,
            },
    {
        let s = match self {
            Transition::Msg0 { .. } => "Transition::Msg0",
            Transition::Contract { .. } => "Transition::Contract",
            Transition::EncSig(_) => "Transition::EncSig",
            Transition::DecSig(_) => "Transition::DecSig",
            Transition::BchConfirmedTx(_) => "Transition::BchConfirmedTx",
            Transition::XmrLockVerified(_) => "Transition::XmrLockVerified",
            Transition::SetXmrRestoreHeight(_) => "Transition::SetXmrRestoreHeight",
        };
        String::from_str(s)
    }
}

/// What the outside cryptography found for one transition: whether the
/// peer's cross-curve proof holds, the signature decrypted from a received
/// adaptor signature, and the key recovered from a completed signature.
#[derive(Debug, Clone)]
pub struct Checks {
    pub proof_valid: bool,
    pub decrypted: Option<Vec<u8>>,
    pub recovered: Option<Vec<u8>>,
}

/// What the outside cryptography found, as plain values: whether the proof
/// holds, the decrypted signature, the recovered key.
pub type Findings = (bool, Option<Seq<u8>>, Option<Seq<u8>>);

impl Checks {
    pub open spec fn findings(&self) -> Findings {
        (self.proof_valid, opt_bytes(self.decrypted), opt_bytes(self.recovered))
    }
}

/// The parameters of one trade.
#[derive(Debug, Clone)]
pub struct Swap {
    pub id: String,
    pub xmr_network: XmrNetwork,
    pub bch_network: Network,
    pub keys: KeyPrivate,
    pub bch_recv: Vec<u8>,
    /// In piconero.
    pub xmr_amount: u64,
    /// In satoshis.
    pub bch_amount: u64,
    pub timelock1: u32,
    pub timelock2: u32,
}

impl Swap {
    pub open spec fn wf(&self) -> bool {
        &&& self.keys.wf()
        &&& self.bch_recv@.len() < MAX_PUSH_LEN
    }

    /// Whether a peer's `Msg0` carries keys this party can build the trade on:
    /// a compressed VES key, a receiving script of bounded size, and the shared
    /// view pair derivable from both parties' halves.
    pub open spec fn accepts_peer(&self, keys: KeyPublic, receiving: Seq<u8>) -> bool {
        &&& keys.ves@.len() == 33
        &&& receiving.len() < MAX_PUSH_LEN
        &&& secp_public_of(self.keys.ves@) is Some
        &&& ed_public_of(self.keys.monero_spend@) is Some
        &&& ed_scalar_sum_of(self.keys.monero_view@, keys.monero_view@) is Some
        &&& ed_point_sum_of(ed_public_of(self.keys.monero_spend@)->Some_0, keys.monero_spend@) is Some
    }

    /// The shared view pair: the sum of both public spend keys and of both private view halves.
    pub open spec fn shared_with(&self, keys: KeyPublic, v: ViewPair) -> bool {
        &&& ed_scalar_sum_of(self.keys.monero_view@, keys.monero_view@) == Some(v.view@)
        &&& ed_point_sum_of(ed_public_of(self.keys.monero_spend@)->Some_0, keys.monero_spend@) == Some(v.spend@)
    }

    pub open spec fn timelocks_fit(&self) -> bool {
        self.timelock1 <= 0xffff && self.timelock2 <= 0xffff
    }

    /// This party's VES public key.
    pub open spec fn spec_ves_public(&self) -> Seq<u8> {
        secp_public_of(self.keys.ves@)->Some_0
    }

    /// Whether the peer's keys and script can be accepted, and if so the shared
    /// view pair and this party's VES public key.
    pub fn check_peer(&self, keys: &KeyPublic, receiving: &Vec<u8>) -> (r: Option<(ViewPair, Vec<u8>)>)
        ensures
            r is Some <==> self.accepts_peer(*keys, receiving@),
            r matches Some((v, ves)) ==> {
                &&& self.shared_with(*keys, v)
                &&& ves@ == self.spec_ves_public()
                &&& ves@.len() == 33
                &&& v.spend@.len() == 32
                &&& v.view@.len() == 32
            },
    {
        if keys.ves.len() != 33 || receiving.len() >= MAX_PUSH_LEN {
            return None;
        }
        let ves = match secp_public(self.keys.ves.as_slice()) {
            Some(v) => v,
            None => return None,
        };
        let own_spend = match ed_public(self.keys.monero_spend.as_slice()) {
            Some(v) => v,
            None => return None,
        };
        let view = match ed_scalar_add(self.keys.monero_view.as_slice(), keys.monero_view.as_slice()) {
            Some(v) => v,
            None => return None,
        };
        let spend = match ed_point_add(own_spend.as_slice(), keys.monero_spend.as_slice()) {
            Some(v) => v,
            None => return None,
        };
        Some((ViewPair { spend, view }, ves))
    }
}

/// Either role of a trade.
pub enum SwapWrapper {
    Alice(Alice),
    Bob(Bob),
}

pub type WrapperOutcome = (SwapWrapper, Vec<Action>, Option<Error>);

impl SwapWrapper {
    pub open spec fn wf(&self) -> bool {
        match self {
            SwapWrapper::Alice(a) => a.wf(),
            SwapWrapper::Bob(b) => b.wf(),
        }
    }

    /// The role moved as its own transition moves it.
    pub open spec fn moved(&self, t: Transition, r: WrapperOutcome) -> bool {
        match self {
            SwapWrapper::Alice(a) => r.0 matches SwapWrapper::Alice(a2)
                && a.step(t, a.findings_for(t), (a2, r.1, r.2)),
            SwapWrapper::Bob(b) => r.0 matches SwapWrapper::Bob(b2)
                && b.step(t, b.findings_for(t), (b2, r.1, r.2)),
        }
    }

    pub fn transition(self, transition: Transition) -> (r: WrapperOutcome)
        requires
            self.wf(),
        ensures
            self.moved(transition, r),
            r.0.wf(),
    {
        match self {
            SwapWrapper::Alice(a) => {
                let (a, actions, error) = a.transition(transition);
                (SwapWrapper::Alice(a), actions, error)
            },
            SwapWrapper::Bob(b) => {
                let (b, actions, error) = b.transition(transition);
                (SwapWrapper::Bob(b), actions, error)
            },
        }
    }

    /// A transition received from the relay: only `Msg0`, `Contract` and
    /// `EncSig` may come from a peer; any other is handed back refused.
    pub fn pub_transition(self, transition: Transition) -> (r: Result<WrapperOutcome, SwapWrapper>)
        requires
            self.wf(),
        ensures
            r is Err <==> !transition.spec_is_public(),
            r matches Err(s) ==> s == self,
            r matches Ok(o) ==> self.moved(transition, o) && o.0.wf(),
    {
        if !transition.is_public() {
            return Err(self);
        }
        Ok(self.transition(transition))
    }

    pub fn get_transition(&self) -> (r: Option<Transition>)
        requires
            self.wf(),
        ensures
            match self {
                SwapWrapper::Alice(a) => a.outbound(r),
                SwapWrapper::Bob(b) => b.outbound(r),
            },
            r matches Some(t) ==> (t is Msg0 || t is Contract || t is EncSig),
    {
        match self {
            SwapWrapper::Alice(a) => a.get_transition(),
            SwapWrapper::Bob(b) => b.get_transition(),
        }
    }
}


impl Swap {
    pub fn check_wf(&self) -> (r: bool)
        ensures
            r == self.wf(),
    {
        self.keys.monero_spend.len() == 32 && self.keys.monero_view.len() == 32 && self.keys.ves.len() == 32
            && self.bch_recv.len() < MAX_PUSH_LEN
    }
}

impl SwapWrapper {
    /// Whether the role satisfies what its transitions require.
    pub fn check_wf(&self) -> (r: bool)
        ensures
            r == self.wf(),
    {
        match self {
            SwapWrapper::Alice(a) => a.check_wf(),
            SwapWrapper::Bob(b) => b.check_wf(),
        }
    }
}


/// Alice and Bob, each building the covenants from the other's `Msg0` on the
/// same trade parameters, arrive at the same two covenants, and so at the
/// same SwapLock and Refund addresses.
pub proof fn lemma_parties_agree_on_contracts(
    alice_swap: Swap,
    bob_swap: Swap,
    alice_keys: KeyPublic,
    bob_keys: KeyPublic,
    at_alice: crate::alice::Value0,
    at_bob: crate::bob::Value0,
)
    requires
        alice_keys.derived_from(alice_swap.keys),
        bob_keys.derived_from(bob_swap.keys),
        at_alice.made_from(alice_swap, bob_keys, bob_swap.bch_recv@),
        at_bob.made_from(bob_swap, alice_keys, alice_swap.bch_recv@),
        alice_swap.timelock1 == bob_swap.timelock1,
        alice_swap.timelock2 == bob_swap.timelock2,
        alice_swap.bch_network == bob_swap.bch_network,
        alice_swap.bch_amount == bob_swap.bch_amount,
    ensures
        at_alice.contract_pair.swaplock.spec_script() == at_bob.contract_pair.swaplock.spec_script(),
        at_alice.contract_pair.refund.spec_script() == at_bob.contract_pair.refund.spec_script(),
        at_alice.contract_pair.swaplock.spec_cash_address() == at_bob.contract_pair.swaplock.spec_cash_address(),
        at_alice.contract_pair.refund.spec_cash_address() == at_bob.contract_pair.refund.spec_cash_address(),
{
}


/// The keys a party sends in its `Msg0` carry a proof that passes the peer's
/// check: the two spend points share their discrete logarithm.
pub proof fn lemma_own_keys_pass_proof_check(k: KeyPrivate, p: KeyPublic)
    requires
        p.derived_from(k),
    ensures
        dleq_valid_of(p.proof@, p.spend_bch@, p.monero_spend@),
{
}

/// Bob in `Init` takes the `Msg0` that Alice in `Init` sends: he moves to
/// `WithAliceKey` with no error, where her keys and script fit the trade and
/// its timelocks fit 16 bits.
pub proof fn lemma_bob_takes_alice_msg0(bob: Bob, alice: Alice, t: Transition, r: crate::bob::Outcome)
    requires
        bob.state is Init,
        alice.state is Init,
        alice.outbound(Some(t)),
        bob.step(t, bob.findings_for(t), r),
        bob.swap.timelocks_fit(),
        t matches Transition::Msg0 { keys, receiving } && bob.swap.accepts_peer(keys, receiving@),
    ensures
        r.2 is None,
        r.0.state is WithAliceKey,
{
}

/// Alice in `Init` takes the `Msg0` that Bob in `WithAliceKey` sends: she moves
/// to `WithBobKeys` with no error, where his keys and script fit the trade and
/// its timelocks fit 16 bits.
pub proof fn lemma_alice_takes_bob_msg0(alice: Alice, bob: Bob, t: Transition, r: crate::alice::Outcome)
    requires
        alice.state is Init,
        bob.state is WithAliceKey,
        bob.outbound(Some(t)),
        alice.step(t, alice.findings_for(t), r),
        alice.swap.timelocks_fit(),
        t matches Transition::Msg0 { keys, receiving } && alice.swap.accepts_peer(keys, receiving@),
    ensures
        r.2 is None,
        r.1@.len() == 0,
        r.0.state is WithBobKeys,
{
}

} // verus!
