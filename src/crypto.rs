use vstd::prelude::*;

verus! {

/// An optional byte string as plain values.
pub open spec fn opt_bytes(o: Option<Vec<u8>>) -> Option<Seq<u8>> {
    match o {
        Some(v) => Some(v@),
        None => None,
    }
}

/// The ed25519 public key (compressed point) of a 32-byte little-endian scalar;
/// `None` when the bytes are no canonical scalar.
pub uninterp spec fn ed_public_of(sk: Seq<u8>) -> Option<Seq<u8>>;

/// The sum of two ed25519 scalars; `None` when either is no canonical scalar.
pub uninterp spec fn ed_scalar_sum_of(a: Seq<u8>, b: Seq<u8>) -> Option<Seq<u8>>;

/// The sum of two compressed ed25519 points; `None` when either is no valid point.
pub uninterp spec fn ed_point_sum_of(a: Seq<u8>, b: Seq<u8>) -> Option<Seq<u8>>;

/// The standard Monero address of a public spend key and a private view key on
/// a network (0 main, 1 test, 2 stage); `None` when a key does not parse.
pub uninterp spec fn xmr_address_of(network: u8, spend: Seq<u8>, view: Seq<u8>) -> Option<Seq<char>>;

/// The compressed secp256k1 public key of a 32-byte big-endian secret key;
/// `None` when the bytes are no valid secret key.
pub uninterp spec fn secp_public_of(sk: Seq<u8>) -> Option<Seq<u8>>;

/// The secp256k1 point that the cross-curve proof of an ed25519 scalar claims.
pub uninterp spec fn dleq_secp_point_of(sk: Seq<u8>) -> Seq<u8>;

/// Whether a 64-byte compact ECDSA signature is valid for a 32-byte message
/// under a compressed secp256k1 public key.
pub uninterp spec fn ecdsa_valid_of(pk: Seq<u8>, msg: Seq<u8>, sig: Seq<u8>) -> bool;

/// The DER form of a 64-byte compact ECDSA signature; `None` when it does not parse.
pub uninterp spec fn der_of_compact(sig: Seq<u8>) -> Option<Seq<u8>>;

/// The 64-byte compact form of a DER ECDSA signature; `None` when it does not parse.
pub uninterp spec fn compact_of_der(der: Seq<u8>) -> Option<Seq<u8>>;

/// Whether a serialized cross-curve proof shows that a compressed secp256k1
/// point and a compressed ed25519 point share their discrete logarithm.
pub uninterp spec fn dleq_valid_of(proof: Seq<u8>, secp: Seq<u8>, ed: Seq<u8>) -> bool;

/// The serialized adaptor signature of a 32-byte message under a 32-byte
/// secp256k1 secret key, encrypted to a compressed secp256k1 point; `None`
/// when the key or the point does not parse.
pub uninterp spec fn enc_sig_of(signer: Seq<u8>, encryption_key: Seq<u8>, msg: Seq<u8>) -> Option<Seq<u8>>;

/// The 64-byte compact signature decrypted from a serialized adaptor signature
/// with a 32-byte little-endian ed25519 scalar; `None` when the scalar is zero
/// or the adaptor signature does not parse.
pub uninterp spec fn decrypted_of(key: Seq<u8>, enc_sig: Seq<u8>) -> Option<Seq<u8>>;

/// The 32-byte little-endian scalar recovered from a compact signature and the
/// serialized adaptor signature it was decrypted from, for an encryption point;
/// `None` when an input does not parse or the signature is unrelated.
pub uninterp spec fn recovered_of(encryption_key: Seq<u8>, sig: Seq<u8>, enc_sig: Seq<u8>) -> Option<Seq<u8>>;

/// Whether an ed25519 scalar fits the 252 bits the cross-curve proof needs.
pub open spec fn fits_252_bits(sk: Seq<u8>) -> bool {
    sk.len() == 32 && sk[31] & 0x10u8 == 0
}

/// Whether a byte string has a byte that is not zero.
pub open spec fn nonzero_bytes(b: Seq<u8>) -> bool {
    exists|i: int| 0 <= i < b.len() && b[i] != 0
}

/// The bytes in reverse order.
pub open spec fn reversed(b: Seq<u8>) -> Seq<u8> {
    Seq::new(b.len(), |i: int| b[b.len() - 1 - i])
}

/// Whether some byte of `b` is not zero.
pub fn has_nonzero_byte(b: &[u8]) -> (r: bool)
    ensures
        r == nonzero_bytes(b@),
{
    let mut i: usize = 0;
    while i < b.len()
        invariant
            i <= b@.len(),
            forall|k: int| 0 <= k < i ==> b@[k] == 0,
        decreases b@.len() - i,
    {
        if b[i] != 0 {
            return true;
        }
        i = i + 1;
    }
    false
}

/// Relies on monero::PrivateKey::from_slice and monero::PublicKey::from_private_key.
#[verifier::external_body]
pub(crate) fn ed_public(sk: &[u8]) -> (r: Option<Vec<u8>>)
    ensures
        opt_bytes(r) == ed_public_of(sk@),
        r matches Some(v) ==> v@.len() == 32,
{
    let k = monero::PrivateKey::from_slice(sk).ok()?;
    Some(monero::PublicKey::from_private_key(&k).as_bytes().to_vec())
}

/// Relies on the addition of monero::PrivateKey values, a scalar addition,
/// which does not depend on the order of its arguments.
#[verifier::external_body]
pub(crate) fn ed_scalar_add(a: &[u8], b: &[u8]) -> (r: Option<Vec<u8>>)
    ensures
        opt_bytes(r) == ed_scalar_sum_of(a@, b@),
        opt_bytes(r) == ed_scalar_sum_of(b@, a@),
        r matches Some(v) ==> v@.len() == 32,
{
    let a = monero::PrivateKey::from_slice(a).ok()?;
    let b = monero::PrivateKey::from_slice(b).ok()?;
    Some((a + b).to_bytes().to_vec())
}

/// Relies on the addition of monero::PublicKey values, a group addition,
/// which does not depend on the order of its arguments.
#[verifier::external_body]
pub(crate) fn ed_point_add(a: &[u8], b: &[u8]) -> (r: Option<Vec<u8>>)
    ensures
        opt_bytes(r) == ed_point_sum_of(a@, b@),
        opt_bytes(r) == ed_point_sum_of(b@, a@),
        r matches Some(v) ==> v@.len() == 32,
{
    let a = monero::PublicKey::from_slice(a).ok()?;
    let b = monero::PublicKey::from_slice(b).ok()?;
    Some((a + b).as_bytes().to_vec())
}

/// Relies on monero::Address::from_viewpair and its string form.
#[verifier::external_body]
pub(crate) fn xmr_address(network: u8, spend: &[u8], view: &[u8]) -> (r: Option<String>)
    requires
        network < 3,
    ensures
        r matches Some(s) ==> xmr_address_of(network, spend@, view@) == Some(s@),
        r is None ==> xmr_address_of(network, spend@, view@) is None,
{
    let net = [monero::Network::Mainnet, monero::Network::Testnet, monero::Network::Stagenet];
    let spend = monero::PublicKey::from_slice(spend).ok()?;
    let view = monero::PrivateKey::from_slice(view).ok()?;
    let pair = monero::ViewPair { spend, view };
    Some(monero::Address::from_viewpair(net[network as usize], &pair).to_string())
}

/// Relies on bitcoincash::PrivateKey::from_slice and PrivateKey::public_key.
#[verifier::external_body]
pub(crate) fn secp_public(sk: &[u8]) -> (r: Option<Vec<u8>>)
    ensures
        opt_bytes(r) == secp_public_of(sk@),
        r matches Some(v) ==> v@.len() == 33,
{
    let k = bitcoincash::PrivateKey::from_slice(sk, bitcoincash::Network::Bitcoin).ok()?;
    let secp = bitcoincash::secp256k1::Secp256k1::signing_only();
    Some(k.public_key(&secp).inner.serialize().to_vec())
}

/// Relies on curve25519_dalek's Scalar::random with the thread's random number
/// generator: a uniformly drawn scalar, reduced and so canonical, 32 bytes
/// little-endian, which monero's PrivateKey accepts.
#[verifier::external_body]
pub(crate) fn random_ed_scalar() -> (r: Vec<u8>)
    ensures
        r@.len() == 32,
        ed_public_of(r@) is Some,
{
    let mut rng = rand::thread_rng();
    sigma_fun::ed25519::curve25519_dalek::scalar::Scalar::random(&mut rng).to_bytes().to_vec()
}

/// Relies on secp256kfun's Scalar::random with the thread's random number
/// generator: a uniformly drawn non-zero scalar below the group order, 32 bytes
/// big-endian, which bitcoincash's PrivateKey accepts.
#[verifier::external_body]
pub(crate) fn random_secp_scalar() -> (r: Vec<u8>)
    ensures
        r@.len() == 32,
        secp_public_of(r@) is Some,
{
    let mut rng = rand::thread_rng();
    ecdsa_fun::fun::Scalar::random(&mut rng).to_bytes().to_vec()
}

/// Relies on secp256k1's Signature::from_compact and Signature::serialize_der.
#[verifier::external_body]
pub(crate) fn compact_to_der(sig: &[u8]) -> (r: Option<Vec<u8>>)
    ensures
        opt_bytes(r) == der_of_compact(sig@),
        r matches Some(v) ==> v@.len() <= 72,
{
    let s = bitcoincash::secp256k1::ecdsa::Signature::from_compact(sig).ok()?;
    Some(s.serialize_der().to_vec())
}

/// Relies on secp256k1's Signature::from_der and Signature::serialize_compact.
#[verifier::external_body]
pub(crate) fn der_to_compact(der: &[u8]) -> (r: Option<Vec<u8>>)
    ensures
        opt_bytes(r) == compact_of_der(der@),
        r matches Some(v) ==> v@.len() == 64,
{
    let s = bitcoincash::secp256k1::ecdsa::Signature::from_der(der).ok()?;
    Some(s.serialize_compact().to_vec())
}

} // verus!
