use vstd::prelude::*;

use crate::crypto::{
    dleq_secp_point_of, dleq_valid_of, ed_public, reversed, ed_public_of, fits_252_bits, has_nonzero_byte, nonzero_bytes,
    random_ed_scalar, random_secp_scalar, secp_public, secp_public_of,
};
use crate::dleq::prove;
use crate::hashes::{hash160, hash160_of};

verus! {

/// The BCH network a contract address is encoded for.
#[derive(Debug, Clone, Copy, PartialEq, Eq, Structural)]
pub enum Network {
    Mainnet,
    Testnet,
    Regtest,
}

/// A party's three secrets: its halves of the Monero spend and view keys
/// (32-byte little-endian ed25519 scalars) and its VES key (a 32-byte
/// big-endian secp256k1 scalar).
#[derive(Debug, Clone)]
pub struct KeyPrivate {
    pub monero_spend: Vec<u8>,
    pub monero_view: Vec<u8>,
    pub ves: Vec<u8>,
}

impl KeyPrivate {
    pub open spec fn wf(&self) -> bool {
        &&& self.monero_spend@.len() == 32
        &&& self.monero_view@.len() == 32
        &&& self.ves@.len() == 32
    }

    /// Draws three fresh secrets.
    pub fn random(network: Network) -> (r: KeyPrivate)
        ensures
            r.wf(),
            ed_public_of(r.monero_spend@) is Some,
            ed_public_of(r.monero_view@) is Some,
            secp_public_of(r.ves@) is Some,
    {
        KeyPrivate {
            monero_spend: random_ed_scalar(),
            monero_view: random_ed_scalar(),
            ves: random_private_key(network),
        }
    }
}

/// What a party shows its peer: its public Monero spend key, its private
/// Monero view half, its VES public key, the secp256k1 point of its Monero
/// spend scalar, and a serialized proof that both points share that scalar.
#[derive(Debug, Clone)]
pub struct KeyPublic {
    pub monero_spend: Vec<u8>,
    pub monero_view: Vec<u8>,
    pub ves: Vec<u8>,
    pub spend_bch: Vec<u8>,
    pub proof: Vec<u8>,
}

/// Whether the public keys of `k` can be derived: the spend scalar fits the
/// proof's 252 bits and is not zero, and both secret keys are valid.
pub open spec fn public_derivable(k: KeyPrivate) -> bool {
    &&& fits_252_bits(k.monero_spend@)
    &&& nonzero_bytes(k.monero_spend@)
    &&& ed_public_of(k.monero_spend@) is Some
    &&& secp_public_of(k.ves@) is Some
}

impl KeyPublic {
    /// The public keys are those of `k`, and the proof shows that the two spend
    /// points share their discrete logarithm.
    pub open spec fn derived_from(&self, k: KeyPrivate) -> bool {
        &&& ed_public_of(k.monero_spend@) == Some(self.monero_spend@)
        &&& self.monero_view@ == k.monero_view@
        &&& secp_public_of(k.ves@) == Some(self.ves@)
        &&& self.spend_bch@ == dleq_secp_point_of(k.monero_spend@)
        &&& secp_public_of(reversed(k.monero_spend@)) == Some(self.spend_bch@)
        &&& dleq_valid_of(self.proof@, self.spend_bch@, self.monero_spend@)
    }

    /// The public projection of `k`, with a fresh proof; `None` when it cannot be derived.
    pub fn from_private(k: &KeyPrivate) -> (r: Option<KeyPublic>)
        ensures
            r is Some <==> public_derivable(*k),
            r matches Some(p) ==> p.derived_from(*k),
    {
        if k.monero_spend.len() != 32 || k.monero_spend[31] & 0x10 != 0 || !has_nonzero_byte(k.monero_spend.as_slice()) {
            return None;
        }
        let monero_spend = match ed_public(k.monero_spend.as_slice()) {
            Some(p) => p,
            None => return None,
        };
        let ves = match secp_public(k.ves.as_slice()) {
            Some(p) => p,
            None => return None,
        };
        let (proof, spend_bch) = prove(k.monero_spend.as_slice());
        Some(KeyPublic { monero_spend, monero_view: k.monero_view.clone(), ves, spend_bch, proof })
    }
}

/// The public keys of a peer once its proof has been checked.
#[derive(Debug, Clone)]
pub struct KeyPublicWithoutProof {
    pub monero_spend: Vec<u8>,
    pub monero_view: Vec<u8>,
    pub ves: Vec<u8>,
    pub spend_bch: Vec<u8>,
}

impl KeyPublicWithoutProof {
    pub open spec fn same_keys(&self, k: KeyPublic) -> bool {
        &&& self.monero_spend@ == k.monero_spend@
        &&& self.monero_view@ == k.monero_view@
        &&& self.ves@ == k.ves@
        &&& self.spend_bch@ == k.spend_bch@
    }

    /// The keys of `value`, without its proof.
    pub fn from_public(value: KeyPublic) -> (r: KeyPublicWithoutProof)
        ensures
            r.same_keys(value),
    {
        KeyPublicWithoutProof {
            monero_spend: value.monero_spend,
            monero_view: value.monero_view,
            ves: value.ves,
            spend_bch: value.spend_bch,
        }
    }
}

/// A fresh secp256k1 secret key, 32 bytes big-endian.
pub fn random_private_key(network: Network) -> (r: Vec<u8>)
    ensures
        r@.len() == 32,
        secp_public_of(r@) is Some,
{
    random_secp_scalar()
}

/// A secp256k1 secret key: 32 bytes big-endian.
pub struct PrivateKey(pub Vec<u8>);

impl PrivateKey {
    /// A fresh secret key drawn uniformly.
    pub fn random() -> (r: Self)
        ensures
            r.0@.len() == 32,
            secp_public_of(r.0@) is Some,
    {
        PrivateKey(random_secp_scalar())
    }

    /// The compressed public key; `None` when the bytes are no valid secret key.
    pub fn public_key(&self) -> (r: Option<PublicKey>)
        ensures
            r matches Some(p) ==> secp_public_of(self.0@) == Some(p.0@),
            r is None ==> secp_public_of(self.0@) is None,
    {
        match secp_public(self.0.as_slice()) {
            Some(p) => Some(PublicKey(p)),
            None => None,
        }
    }

    pub fn to_bytes(&self) -> (r: Vec<u8>)
        ensures
            r@ == self.0@,
    {
        self.0.clone()
    }
}

/// A compressed secp256k1 public key.
pub struct PublicKey(pub Vec<u8>);

impl PublicKey {
    pub fn from_point(point: Vec<u8>) -> (r: Self)
        ensures
            r.0@ == point@,
    {
        PublicKey(point)
    }

    /// The HASH160 of the key's bytes.
    pub fn pubkey_hash(&self) -> (r: PublicKeyHash)
        ensures
            r.0@ == hash160_of(self.0@),
            r.0@.len() == 20,
    {
        PublicKeyHash(hash160(self.0.as_slice()))
    }

    pub fn to_bytes(&self) -> (r: Vec<u8>)
        ensures
            r@ == self.0@,
    {
        self.0.clone()
    }
}

/// The HASH160 of a public key.
pub struct PublicKeyHash(pub Vec<u8>);

/// The two lowercase hexadecimal digits of each byte, in order.
pub open spec fn hex_of(b: Seq<u8>) -> Seq<char>
    decreases b.len(),
{
    if b.len() == 0 {
        seq![]
    } else {
        hex_of(b.drop_last()) + seq![hex_digit(b.last() / 16), hex_digit(b.last() % 16)]
    }
}

pub open spec fn hex_digit(n: u8) -> char {
    if n < 10 {
        (('0' as u8) + n) as char
    } else {
        (('a' as u8) + n - 10) as char
    }
}

/// Relies on hex::encode: two lowercase digits for each byte.
#[verifier::external_body]
fn to_hex(b: &[u8]) -> (r: String)
    ensures
        r@ == hex_of(b@),
{
    hex::encode(b)
}

impl PublicKeyHash {
    pub fn to_bytes(&self) -> (r: Vec<u8>)
        ensures
            r@ == self.0@,
    {
        self.0.clone()
    }

    /// The hex text of the pay-to-public-key-hash locking script of this hash.
    #[allow(non_snake_case)]
    pub fn get_P2PKH(&self) -> (r: String)
        ensures
            r@ == "76a914"@ + hex_of(self.0@) + "88ac"@,
    {
        let mut out = String::from_str("76a914");
        let h = to_hex(self.0.as_slice());
        out.append(h.as_str());
        out.append("88ac");
        out
    }
}

} // verus!
