use vstd::prelude::*;
use bitcoincash::blockdata::script::Instruction;

use crate::crypto::opt_bytes;
use crate::hashes::{hash160, hash160_of};

verus! {

pub const OP_PUSHDATA1: u8 = 0x4c;
pub const OP_PUSHDATA2: u8 = 0x4d;
pub const OP_PUSHDATA4: u8 = 0x4e;
pub const OP_HASH160: u8 = 0xa9;
pub const OP_EQUAL: u8 = 0x87;

/// The instruction that pushes `data`: a length prefix sized to the data, then the data.
pub open spec fn push_data(data: Seq<u8>) -> Seq<u8> {
    let n = data.len();
    if n < 76 {
        seq![n as u8] + data
    } else if n < 0x100 {
        seq![OP_PUSHDATA1, n as u8] + data
    } else if n < 0x10000 {
        seq![OP_PUSHDATA2, (n % 0x100) as u8, (n / 0x100) as u8] + data
    } else {
        seq![OP_PUSHDATA4, (n % 0x100) as u8, ((n / 0x100) % 0x100) as u8,
            ((n / 0x10000) % 0x100) as u8, (n / 0x1000000) as u8] + data
    }
}

/// The little-endian bytes of `n`, without trailing zero bytes.
pub open spec fn le_bytes(n: nat) -> Seq<u8>
    decreases n,
{
    if n == 0 {
        seq![]
    } else {
        seq![(n % 0x100) as u8] + le_bytes(n / 0x100)
    }
}

/// The script-number encoding of a non-negative `n`: its minimal little-endian
/// bytes, with a zero byte added where the top bit would read as a sign.
pub open spec fn script_num(n: nat) -> Seq<u8> {
    let b = le_bytes(n);
    if b.len() > 0 && b.last() >= 0x80 {
        b.push(0u8)
    } else {
        b
    }
}

/// The instruction that pushes the non-negative integer `n`.
pub open spec fn push_int(n: nat) -> Seq<u8> {
    if n == 0 {
        seq![0u8]
    } else if n <= 16 {
        seq![(0x50 + n) as u8]
    } else {
        push_data(script_num(n))
    }
}

pub open spec fn pow256(k: nat) -> nat
    decreases k,
{
    if k == 0 {
        1
    } else {
        256 * pow256((k - 1) as nat)
    }
}

proof fn lemma_le_bytes_len(n: nat, k: nat)
    requires
        n < pow256(k),
    ensures
        le_bytes(n).len() <= k,
    decreases k,
{
    if n != 0 {
        assert(k > 0);
        let p = pow256((k - 1) as nat);
        assert(n / 256 < p) by (nonlinear_arith)
            requires n < 256 * p;
        lemma_le_bytes_len(n / 256, (k - 1) as nat);
    }
}

/// A pushed integer below 2^63 takes at most eleven bytes.
pub proof fn lemma_push_int_len(n: nat)
    requires
        n < 0x8000_0000_0000_0000,
    ensures
        push_int(n).len() <= 11,
{
    reveal_with_fuel(pow256, 9);
    assert(pow256(8) == 0x1_0000_0000_0000_0000);
    lemma_le_bytes_len(n, 8);
}

/// A push adds at most five bytes to its data.
pub proof fn lemma_push_data_len(d: Seq<u8>)
    ensures
        push_data(d).len() <= d.len() + 5,
{
}

/// The pay-to-script-hash locking script for a 20-byte script hash.
pub open spec fn p2sh_of(hash: Seq<u8>) -> Seq<u8> {
    seq![OP_HASH160] + push_data(hash) + seq![OP_EQUAL]
}

/// The data of the last instruction of `script` when that instruction is a push,
/// as a non-minimal parse reads it; `None` where the last instruction is an
/// opcode, the parse fails, or the script is empty.
pub uninterp spec fn last_push_of(script: Seq<u8>) -> Option<Seq<u8>>;

/// The instructions of `script` read with minimal pushes enforced, one entry
/// each, in order: the data of a push, `None` for an opcode or for the parse
/// error that ends the reading.
pub uninterp spec fn minimal_pushes_of(script: Seq<u8>) -> Seq<Option<Seq<u8>>>;

/// Relies on bitcoincash::blockdata::script::Builder::push_slice: the length
/// prefix is chosen by the data's size and the data follows it.
#[verifier::external_body]
pub(crate) fn append_push_slice(script: Vec<u8>, data: &[u8]) -> (r: Vec<u8>)
    requires
        data@.len() < 0x100000000,
    ensures
        r@ == script@ + push_data(data@),
{
    bitcoincash::blockdata::script::Builder::from(script).push_slice(data).into_script().into_bytes()
}

/// Relies on bitcoincash::blockdata::script::Builder::push_int: zero and 1 to 16
/// are single opcodes, other values are pushed as script numbers.
#[verifier::external_body]
pub(crate) fn append_push_int(script: Vec<u8>, n: u64) -> (r: Vec<u8>)
    requires
        n <= 0x7fff_ffff_ffff_ffff,
    ensures
        r@ == script@ + push_int(n as nat),
{
    bitcoincash::blockdata::script::Builder::from(script).push_int(n as i64).into_script().into_bytes()
}

/// Relies on bitcoincash::Script::instructions and Iterator::last: the data of
/// the last instruction when it is a push.
#[verifier::external_body]
pub(crate) fn last_push(script: &[u8]) -> (r: Option<Vec<u8>>)
    ensures
        r matches Some(d) ==> last_push_of(script@) == Some(d@),
        r is None ==> last_push_of(script@) is None,
{
    let script = bitcoincash::Script::from(script.to_vec());
    match script.instructions().last() {
        Some(Ok(Instruction::PushBytes(bytes))) => Some(bytes.to_vec()),
        _ => None,
    }
}

/// Relies on bitcoincash::Script::instructions_minimal: one entry for each
/// item of the iteration, which ends after the first error.
#[verifier::external_body]
pub(crate) fn minimal_pushes(script: &[u8]) -> (r: Vec<Option<Vec<u8>>>)
    ensures
        r@.len() == minimal_pushes_of(script@).len(),
        forall|i: int| 0 <= i < r@.len() ==> opt_bytes(#[trigger] r@[i]) == minimal_pushes_of(script@)[i],
{
    let script = bitcoincash::Script::from(script.to_vec());
    script
        .instructions_minimal()
        .map(|i| match i {
            Ok(Instruction::PushBytes(bytes)) => Some(bytes.to_vec()),
            Ok(Instruction::Op(_)) => None,
            Err(_) => None,
        })
        .collect()
}

/// The pay-to-script-hash locking script of a script hash.
pub fn p2sh(hash: &[u8]) -> (r: Vec<u8>)
    requires
        hash@.len() == 20,
    ensures
        r@ == p2sh_of(hash@),
        r@.len() == 23,
{
    let mut v: Vec<u8> = Vec::new();
    v.push(OP_HASH160);
    let mut v = append_push_slice(v, hash);
    v.push(OP_EQUAL);
    assert(v@ =~= p2sh_of(hash@));
    v
}

/// The pay-to-public-key-hash locking script for a 20-byte key hash.
pub open spec fn p2pkh_of(hash: Seq<u8>) -> Seq<u8> {
    seq![0x76u8, OP_HASH160] + push_data(hash) + seq![0x88u8, 0xacu8]
}

/// The pay-to-public-key-hash locking script of a key hash.
pub fn p2pkh(hash: &[u8]) -> (r: Vec<u8>)
    requires
        hash@.len() == 20,
    ensures
        r@ == p2pkh_of(hash@),
        r@.len() == 25,
{
    let mut v: Vec<u8> = Vec::new();
    v.push(0x76);
    v.push(OP_HASH160);
    let mut v = append_push_slice(v, hash);
    v.push(0x88);
    v.push(0xac);
    assert(v@ =~= p2pkh_of(hash@));
    v
}

/// The pay-to-script-hash locking script of a redeem script.
pub fn p2sh_of_script(script: &[u8]) -> (r: Vec<u8>)
    ensures
        r@ == p2sh_of(hash160_of(script@)),
{
    let h = hash160(script);
    p2sh(h.as_slice())
}

} // verus!
