use vstd::prelude::*;

verus! {

/// A transaction as an Electrum server reports it: its confirmations and its raw bytes.
pub struct TxInfo0 {
    pub confirmations: u32,
    pub hex: Vec<u8>,
}

/// The answer to a transaction request.
pub struct TxInfo {
    pub result: TxInfo0,
}

/// An entry of an address's history: the block height, zero while in the mempool.
pub struct Root2 {
    pub height: u64,
    pub tx_hash: String,
}

impl TxInfo0 {
    /// Whether the transaction has at least `min_conf` confirmations.
    pub fn is_confirmed(&self, min_conf: u32) -> (r: bool)
        ensures
            r == (self.confirmations >= min_conf),
    {
        self.confirmations >= min_conf
    }
}

/// The ids of the mined transactions of a history, in order.
pub open spec fn mined_of(history: Seq<Root2>) -> Seq<Seq<char>>
    decreases history.len(),
{
    if history.len() == 0 {
        seq![]
    } else {
        let rest = mined_of(history.drop_last());
        if history.last().height == 0 {
            rest
        } else {
            rest.push(history.last().tx_hash@)
        }
    }
}

/// The ids of the transactions of `history` that are in a block, in order.
pub fn mined_tx_hashes(history: &Vec<Root2>) -> (r: Vec<String>)
    ensures
        r@.len() == mined_of(history@).len(),
        forall|i: int| 0 <= i < r@.len() ==> #[trigger] r@[i]@ == mined_of(history@)[i],
{
    let mut out: Vec<String> = Vec::new();
    let mut i: usize = 0;
    while i < history.len()
        invariant
            i <= history@.len(),
            out@.len() == mined_of(history@.subrange(0, i as int)).len(),
            forall|k: int| 0 <= k < out@.len() ==> #[trigger] out@[k]@ == mined_of(history@.subrange(0, i as int))[k],
        decreases history@.len() - i,
    {
        assert(history@.subrange(0, i + 1).drop_last() == history@.subrange(0, i as int));
        if history[i].height != 0 {
            out.push(history[i].tx_hash.clone());
        }
        i = i + 1;
    }
    assert(history@.subrange(0, history@.len() as int) == history@);
    out
}

} // verus!
