use vstd::prelude::*;
use bitcoincash::hashes::Hash as HashBytes;
use bitcoincash::{OutPoint as Op, Script, Sequence, TxIn as In, TxOut as Out};

verus! {

/// A reference to an output of an earlier transaction: its 32-byte id and index.
#[derive(Debug, Clone)]
pub struct OutPoint {
    pub txid: Vec<u8>,
    pub vout: u32,
}

#[derive(Debug, Clone)]
pub struct TxIn {
    pub previous_output: OutPoint,
    pub script_sig: Vec<u8>,
    pub sequence: u32,
}

#[derive(Debug, Clone)]
pub struct TxOut {
    pub value: u64,
    pub script_pubkey: Vec<u8>,
}

/// A BCH transaction as the swap logic reads it.
#[derive(Debug, Clone)]
pub struct Transaction {
    pub version: i32,
    pub lock_time: u32,
    pub input: Vec<TxIn>,
    pub output: Vec<TxOut>,
}

/// A transaction as plain values: version, lock time, the inputs as
/// (previous txid, previous index, unlocking script, sequence), and the outputs
/// as (value, locking script).
pub type TxValue = (int, int, Seq<(Seq<u8>, int, Seq<u8>, int)>, Seq<(int, Seq<u8>)>);

impl View for Transaction {
    type V = TxValue;

    open spec fn view(&self) -> TxValue {
        (
            self.version as int,
            self.lock_time as int,
            self.input@.map_values(
                |i: TxIn| (i.previous_output.txid@, i.previous_output.vout as int, i.script_sig@, i.sequence as int),
            ),
            self.output@.map_values(|o: TxOut| (o.value as int, o.script_pubkey@)),
        )
    }
}

/// The transaction id: the double SHA-256 of the transaction's consensus encoding.
pub uninterp spec fn txid_of(tx: TxValue) -> Seq<u8>;

impl Transaction {
    /// Every input names a 32-byte transaction id, and every output index fits in 32 bits.
    pub open spec fn wf(&self) -> bool {
        &&& forall|i: int| 0 <= i < self.input@.len() ==> (#[trigger] self.input@[i]).previous_output.txid@.len() == 32
        &&& self.output@.len() <= u32::MAX
    }
}

impl Transaction {
    /// Whether every input names a 32-byte id and every output index fits in 32 bits.
    pub fn check_wf(&self) -> (r: bool)
        ensures
            r == self.wf(),
    {
        if self.output.len() > 0xffff_ffff {
            return false;
        }
        let mut i: usize = 0;
        while i < self.input.len()
            invariant
                i <= self.input@.len(),
                forall|k: int| 0 <= k < i ==> (#[trigger] self.input@[k]).previous_output.txid@.len() == 32,
            decreases self.input@.len() - i,
        {
            if self.input[i].previous_output.txid.len() != 32 {
                return false;
            }
            i = i + 1;
        }
        true
    }
}

/// Relies on bitcoincash::Transaction::txid: the id that the consensus encoding
/// of the same fields hashes to.
#[verifier::external_body]
pub(crate) fn txid(tx: &Transaction) -> (r: Vec<u8>)
    requires
        tx.wf(),
    ensures
        r@ == txid_of(tx@),
        r@.len() == 32,
{
    let input = tx.input.iter().map(|i| In {
        previous_output: Op::new(HashBytes::from_slice(&i.previous_output.txid).unwrap(), i.previous_output.vout),
        script_sig: Script::from(i.script_sig.clone()), sequence: Sequence(i.sequence), witness: Default::default(),
    }).collect();
    let output = tx.output.iter()
        .map(|o| Out { value: o.value, script_pubkey: Script::from(o.script_pubkey.clone()), token: None }).collect();
    let t = bitcoincash::Transaction { version: tx.version, lock_time: bitcoincash::PackedLockTime(tx.lock_time), input, output };
    HashBytes::into_inner(t.txid()).to_vec()
}

} // verus!
