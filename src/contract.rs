use vstd::prelude::*;

use crate::cashaddr::{encode, spec_encode};
use crate::hashes::{hash160, hash160_of};
use crate::keys::Network;
use crate::script::{
    append_push_int, append_push_slice, last_push, last_push_of, p2sh, p2sh_of, p2sh_of_script,
    lemma_push_data_len, lemma_push_int_len, push_data, push_int,
};
use crate::transaction::{txid, txid_of, OutPoint, Transaction, TxOut};

verus! {

/// The relative lock time mask of BIP-68: a timelock must fit in 16 bits.
pub const SEQUENCE_LOCKTIME_MASK: u32 = 0x0000ffff;

/// The largest length accepted for an output script or key pushed into a contract.
pub const MAX_PUSH_LEN: usize = 0x1000_0000;

/// The fixed script tail shared by both covenants.
pub open spec fn contract_tail() -> Seq<u8> {
    seq![
        0xc3u8, 0x51, 0x9d, 0xc4, 0x51, 0x9d, 0x00, 0xc6, 0x00, 0xcc, 0x94, 0x9d, 0x00, 0xcb, 0x00, 0x9c,
        0x63, 0x00, 0xcd, 0x78, 0x88, 0x54, 0x79, 0x78, 0xa8, 0x53, 0x79, 0xbb, 0x67, 0x52, 0x79, 0xb2,
        0x75, 0x00, 0xcd, 0x54, 0x79, 0x88, 0x54, 0x79, 0x00, 0x88, 0x68, 0x6d, 0x6d, 0x75, 0x51,
    ]
}

/// The cash-address prefix of each network.
pub open spec fn network_prefix(n: Network) -> &'static str {
    match n {
        Network::Mainnet => "bitcoincash",
        Network::Testnet => "bchtest",
        Network::Regtest => "bchreg",
    }
}

#[derive(Debug)]
pub enum TransactionType {
    ToSwapLock,
    ToRefund,
    ToBob,
    SwapLockToAlice,
    RefundToAlice,
}

/// A covenant: within the timelock a VES-signed spend pays the success output,
/// after it the coins go to the failed output.
#[derive(Debug, Clone)]
pub struct Contract {
    pub mining_fee: u64,
    pub success_output: Vec<u8>,
    pub pubkey_ves: Vec<u8>,
    pub timelock: u32,
    pub failed_output: Vec<u8>,
    pub bch_network: Network,
}

impl Contract {
    pub open spec fn wf(&self) -> bool {
        &&& self.mining_fee <= 0x7fff_ffff_ffff_ffff
        &&& self.success_output@.len() < MAX_PUSH_LEN
        &&& self.failed_output@.len() < MAX_PUSH_LEN
        &&& self.pubkey_ves@.len() < MAX_PUSH_LEN
    }

    proof fn lemma_script_len(&self)
        requires
            self.wf(),
        ensures
            self.spec_script().len() < 4 * MAX_PUSH_LEN,
    {
        lemma_push_data_len(self.failed_output@);
        lemma_push_data_len(self.pubkey_ves@);
        lemma_push_data_len(self.success_output@);
        lemma_push_int_len(self.timelock as nat);
        lemma_push_int_len(self.mining_fee as nat);
    }

    /// The redeem script: the five parameters pushed in order, then the fixed tail.
    pub open spec fn spec_script(&self) -> Seq<u8> {
        push_data(self.failed_output@) + push_int(self.timelock as nat) + push_data(self.pubkey_ves@)
            + push_data(self.success_output@) + push_int(self.mining_fee as nat) + contract_tail()
    }

    pub open spec fn spec_script_hash(&self) -> Seq<u8> {
        hash160_of(self.spec_script())
    }

    pub open spec fn spec_locking_script(&self) -> Seq<u8> {
        p2sh_of(self.spec_script_hash())
    }

    pub open spec fn spec_cash_address(&self) -> Seq<char> {
        spec_encode(self.spec_script_hash(), network_prefix(self.bch_network), 8)
    }

    pub fn script(&self) -> (r: Vec<u8>)
        requires
            self.wf(),
        ensures
            r@ == self.spec_script(),
    {
        let v: Vec<u8> = Vec::new();
        let v = append_push_slice(v, self.failed_output.as_slice());
        let v = append_push_int(v, self.timelock as u64);
        let v = append_push_slice(v, self.pubkey_ves.as_slice());
        let v = append_push_slice(v, self.success_output.as_slice());
        let mut v = append_push_int(v, self.mining_fee);
        let ghost head = v@;
        let tail: [u8; 47] = [
            0xc3, 0x51, 0x9d, 0xc4, 0x51, 0x9d, 0x00, 0xc6, 0x00, 0xcc, 0x94, 0x9d, 0x00, 0xcb, 0x00, 0x9c,
            0x63, 0x00, 0xcd, 0x78, 0x88, 0x54, 0x79, 0x78, 0xa8, 0x53, 0x79, 0xbb, 0x67, 0x52, 0x79, 0xb2,
            0x75, 0x00, 0xcd, 0x54, 0x79, 0x88, 0x54, 0x79, 0x00, 0x88, 0x68, 0x6d, 0x6d, 0x75, 0x51,
        ];
        assert(tail@ == contract_tail());
        let mut i: usize = 0;
        while i < 47
            invariant
                i <= 47,
                tail@ == contract_tail(),
                v@ == head + contract_tail().subrange(0, i as int),
            decreases 47 - i,
        {
            v.push(tail[i]);
            i = i + 1;
            assert(v@ =~= head + contract_tail().subrange(0, i as int));
        }
        assert(contract_tail().subrange(0, 47) == contract_tail());
        v
    }

    #[inline]
    pub fn script_hash(&self) -> (r: Vec<u8>)
        requires
            self.wf(),
        ensures
            r@ == self.spec_script_hash(),
            r@.len() == 20,
    {
        let s = self.script();
        hash160(s.as_slice())
    }

    /// The pay-to-script-hash locking script of the redeem script.
    pub fn locking_script(&self) -> (r: Vec<u8>)
        requires
            self.wf(),
        ensures
            r@ == self.spec_locking_script(),
            r@.len() == 23,
    {
        let h = self.script_hash();
        p2sh(h.as_slice())
    }

    /// The unlocking script: a push of `unlocker`, then a push of the redeem script.
    pub fn unlocking_script(&self, unlocker: &[u8]) -> (r: Vec<u8>)
        requires
            self.wf(),
            unlocker@.len() < MAX_PUSH_LEN,
        ensures
            r@ == push_data(unlocker@) + push_data(self.spec_script()),
    {
        let locking = self.script();
        proof {
            self.lemma_script_len();
        }
        let v: Vec<u8> = Vec::new();
        let v = append_push_slice(v, unlocker);
        let v = append_push_slice(v, locking.as_slice());
        assert(v@ =~= push_data(unlocker@) + push_data(self.spec_script()));
        v
    }

    /// The cash address of the contract on its network, with the P2SH version bit.
    pub fn cash_address(&self) -> (r: String)
        requires
            self.wf(),
        ensures
            r@ == self.spec_cash_address(),
    {
        let hash = self.script_hash();
        match self.bch_network {
            Network::Mainnet => encode(hash.as_slice(), "bitcoincash", 8),
            Network::Testnet => encode(hash.as_slice(), "bchtest", 8),
            Network::Regtest => encode(hash.as_slice(), "bchreg", 8),
        }
    }
}


/// Both covenants of one trade, with what is needed to classify transactions.
#[derive(Debug, Clone)]
pub struct ContractPair {
    pub swaplock: Contract,
    pub refund: Contract,
    pub alice_receiving: Vec<u8>,
    pub bob_receiving: Vec<u8>,
    pub swaplock_in_sats: u64,
    pub mining_fee: u64,
    pub bch_network: Network,
}

/// The locking script that an input with the given unlocking script spends, read
/// as pay-to-script-hash: the hash of its last push, the redeem script; `None`
/// when the unlocking script does not end in a push.
pub open spec fn effective_lock_of(script_sig: Seq<u8>) -> Option<Seq<u8>> {
    match last_push_of(script_sig) {
        Some(d) => Some(p2sh_of(hash160_of(d))),
        None => None,
    }
}

impl ContractPair {
    /// The pair as built from the trade's parameters, both timelocks fitting the mask.
    pub open spec fn built_from(
        &self,
        mining_fee: u64,
        bob_receiving: Seq<u8>,
        bob_pubkey_ves: Seq<u8>,
        alice_receiving: Seq<u8>,
        alice_pubkey_ves: Seq<u8>,
        timelock0: u32,
        timelock1: u32,
        bch_network: Network,
        swaplock_in: u64,
    ) -> bool {
        &&& self.refund.mining_fee == mining_fee
        &&& self.refund.success_output@ == bob_receiving
        &&& self.refund.pubkey_ves@ == alice_pubkey_ves
        &&& self.refund.timelock == timelock1
        &&& self.refund.failed_output@ == alice_receiving
        &&& self.refund.bch_network == bch_network
        &&& self.swaplock.mining_fee == mining_fee
        &&& self.swaplock.success_output@ == alice_receiving
        &&& self.swaplock.pubkey_ves@ == bob_pubkey_ves
        &&& self.swaplock.timelock == timelock0
        &&& self.swaplock.failed_output@ == self.refund.spec_locking_script()
        &&& self.swaplock.bch_network == bch_network
        &&& self.alice_receiving@ == alice_receiving
        &&& self.bob_receiving@ == bob_receiving
        &&& self.swaplock_in_sats == swaplock_in
        &&& self.mining_fee == mining_fee
        &&& self.bch_network == bch_network
    }

    pub open spec fn wf(&self) -> bool {
        &&& self.swaplock.wf()
        &&& self.refund.wf()
        &&& self.swaplock.mining_fee == self.mining_fee
        &&& self.refund.mining_fee == self.mining_fee
    }

    /// The index of the first output from `i` on that pays exactly the SwapLock
    /// amount to the SwapLock locking script.
    pub open spec fn first_swaplock_output(&self, outputs: Seq<TxOut>, i: int) -> Option<int>
        decreases outputs.len() - i,
    {
        if i < 0 || i >= outputs.len() {
            None
        } else if outputs[i].script_pubkey@ == self.swaplock.spec_locking_script()
            && outputs[i].value == self.swaplock_in_sats {
            Some(i)
        } else {
            self.first_swaplock_output(outputs, i + 1)
        }
    }

    /// What a spend of exactly one input into exactly one output is, if anything.
    pub open spec fn spend_kind(&self, tx: Transaction) -> Option<TransactionType> {
        let swaplock = self.swaplock.spec_locking_script();
        let refund = self.refund.spec_locking_script();
        let spent = effective_lock_of(tx.input@[0].script_sig@)->Some_0;
        let out = tx.output@[0];
        if effective_lock_of(tx.input@[0].script_sig@) is None {
            None
        } else if spent == swaplock && out.value == self.swaplock_in_sats - self.mining_fee
            && out.script_pubkey@ == self.alice_receiving@ {
            Some(TransactionType::SwapLockToAlice)
        } else if spent == swaplock && out.script_pubkey@ == refund {
            Some(TransactionType::ToRefund)
        } else if spent == refund && out.value == self.swaplock_in_sats - 2 * self.mining_fee
            && out.script_pubkey@ == self.bob_receiving@ {
            Some(TransactionType::ToBob)
        } else if spent == refund && out.script_pubkey@ == self.alice_receiving@ {
            Some(TransactionType::RefundToAlice)
        } else {
            None
        }
    }

    /// The classification of `tx` with the index of the output it concerns.
    pub open spec fn classify(&self, tx: Transaction) -> Option<(TransactionType, int)> {
        let single = tx.input@.len() == 1 && tx.output@.len() == 1;
        if single && self.spend_kind(tx) is Some {
            Some((self.spend_kind(tx)->Some_0, 0))
        } else {
            match self.first_swaplock_output(tx.output@, 0) {
                Some(i) => Some((TransactionType::ToSwapLock, i)),
                None => None,
            }
        }
    }

    /// Builds both covenants; `None` when a timelock does not fit the BIP-68 mask.
    pub fn create(
        mining_fee: u64,
        bob_receiving: Vec<u8>,
        bob_pubkey_ves: Vec<u8>,
        alice_receiving: Vec<u8>,
        alice_pubkey_ves: Vec<u8>,
        timelock0: u32,
        timelock1: u32,
        bch_network: Network,
        swaplock_in: u64,
    ) -> (r: Option<ContractPair>)
        requires
            mining_fee <= 0x7fff_ffff_ffff_ffff,
            bob_receiving@.len() < MAX_PUSH_LEN,
            alice_receiving@.len() < MAX_PUSH_LEN,
            bob_pubkey_ves@.len() < MAX_PUSH_LEN,
            alice_pubkey_ves@.len() < MAX_PUSH_LEN,
        ensures
            r is Some <==> (timelock0 <= SEQUENCE_LOCKTIME_MASK && timelock1 <= SEQUENCE_LOCKTIME_MASK),
            r matches Some(p) ==> p.wf() && p.built_from(mining_fee, bob_receiving@, bob_pubkey_ves@,
                alice_receiving@, alice_pubkey_ves@, timelock0, timelock1, bch_network, swaplock_in),
    {
        if timelock0 > SEQUENCE_LOCKTIME_MASK || timelock1 > SEQUENCE_LOCKTIME_MASK {
            return None;
        }
        let refund = Contract {
            mining_fee,
            success_output: copy_bytes(&bob_receiving),
            pubkey_ves: alice_pubkey_ves,
            timelock: timelock1,
            failed_output: copy_bytes(&alice_receiving),
            bch_network,
        };
        let refund_lock = refund.locking_script();
        let swaplock = Contract {
            mining_fee,
            success_output: copy_bytes(&alice_receiving),
            pubkey_ves: bob_pubkey_ves,
            timelock: timelock0,
            failed_output: refund_lock,
            bch_network,
        };
        Some(ContractPair {
            swaplock,
            refund,
            alice_receiving,
            bob_receiving,
            swaplock_in_sats: swaplock_in,
            mining_fee,
            bch_network,
        })
    }

    /// Classifies a transaction against the two covenants: a spend of SwapLock or
    /// Refund with one input and one output, else the first output that funds
    /// SwapLock with the trade amount.
    pub fn analyze_tx(&self, transaction: &Transaction) -> (r: Option<(OutPoint, TransactionType)>)
        requires
            self.wf(),
            transaction.wf(),
        ensures
            r is None <==> self.classify(*transaction) is None,
            r matches Some((op, k)) ==> {
                &&& self.classify(*transaction) == Some((k, op.vout as int))
                &&& op.txid@ == txid_of(transaction@)
                &&& op.vout < transaction.output@.len()
            },
    {
        let swaplock = self.swaplock.locking_script();
        let refund = self.refund.locking_script();
        if transaction.input.len() == 1 && transaction.output.len() == 1 {
            let input = &transaction.input[0];
            let output = &transaction.output[0];
            let redeem = last_push(input.script_sig.as_slice());
            let input_bytes = match &redeem {
                Some(bytes) => p2sh_of_script(bytes.as_slice()),
                None => Vec::new(),
            };
            let in_sats = self.swaplock_in_sats as u128;
            let fee = self.mining_fee as u128;
            let value = output.value as u128;
            let kind: Option<TransactionType> = if redeem.is_none() {
                None
            } else if bytes_eq(&input_bytes, &swaplock)
                && value + fee == in_sats && bytes_eq(&output.script_pubkey, &self.alice_receiving) {
                Some(TransactionType::SwapLockToAlice)
            } else if bytes_eq(&input_bytes, &swaplock) && bytes_eq(&output.script_pubkey, &refund) {
                Some(TransactionType::ToRefund)
            } else if bytes_eq(&input_bytes, &refund) && value + 2 * fee == in_sats
                && bytes_eq(&output.script_pubkey, &self.bob_receiving) {
                Some(TransactionType::ToBob)
            } else if bytes_eq(&input_bytes, &refund) && bytes_eq(&output.script_pubkey, &self.alice_receiving) {
                Some(TransactionType::RefundToAlice)
            } else {
                None
            };
            assert(kind == self.spend_kind(*transaction));
            if let Some(k) = kind {
                let id = txid(transaction);
                return Some((OutPoint { txid: id, vout: 0 }, k));
            }
        }
        let mut vout: usize = 0;
        while vout < transaction.output.len()
            invariant
                self.wf(),
                transaction.wf(),
                swaplock@ == self.swaplock.spec_locking_script(),
                vout <= transaction.output@.len(),
                !(transaction.input@.len() == 1 && transaction.output@.len() == 1
                    && self.spend_kind(*transaction) is Some),
                self.first_swaplock_output(transaction.output@, 0)
                    == self.first_swaplock_output(transaction.output@, vout as int),
            decreases transaction.output@.len() - vout,
        {
            let out = &transaction.output[vout];
            if bytes_eq(&out.script_pubkey, &swaplock) && out.value == self.swaplock_in_sats {
                let id = txid(transaction);
                return Some((OutPoint { txid: id, vout: vout as u32 }, TransactionType::ToSwapLock));
            }
            vout = vout + 1;
        }
        None
    }
}

/// Whether two byte strings are equal.
pub fn bytes_eq(a: &Vec<u8>, b: &Vec<u8>) -> (r: bool)
    ensures
        r == (a@ == b@),
{
    if a.len() != b.len() {
        return false;
    }
    let mut i: usize = 0;
    while i < a.len()
        invariant
            a@.len() == b@.len(),
            i <= a@.len(),
            forall|k: int| 0 <= k < i ==> a@[k] == b@[k],
        decreases a@.len() - i,
    {
        if a[i] != b[i] {
            return false;
        }
        i = i + 1;
    }
    assert(a@ =~= b@);
    true
}

/// A fresh copy of a byte string.
pub fn copy_bytes(a: &Vec<u8>) -> (r: Vec<u8>)
    ensures
        r@ == a@,
{
    let mut out: Vec<u8> = Vec::new();
    let mut i: usize = 0;
    while i < a.len()
        invariant
            i <= a@.len(),
            out@ == a@.subrange(0, i as int),
        decreases a@.len() - i,
    {
        out.push(a[i]);
        i = i + 1;
        assert(out@ =~= a@.subrange(0, i as int));
    }
    assert(a@.subrange(0, a@.len() as int) == a@);
    out
}


impl Contract {
    /// Whether the contract's fields are within the sizes its script accepts.
    pub fn check_wf(&self) -> (r: bool)
        ensures
            r == self.wf(),
    {
        self.mining_fee <= 0x7fff_ffff_ffff_ffff && self.success_output.len() < MAX_PUSH_LEN
            && self.failed_output.len() < MAX_PUSH_LEN && self.pubkey_ves.len() < MAX_PUSH_LEN
    }
}

impl ContractPair {
    pub fn check_wf(&self) -> (r: bool)
        ensures
            r == self.wf(),
    {
        self.swaplock.check_wf() && self.refund.check_wf() && self.swaplock.mining_fee == self.mining_fee
            && self.refund.mining_fee == self.mining_fee
    }
}

} // verus!
