use vstd::prelude::*;
use sigma_fun::ed25519::curve25519_dalek;
use sigma_fun::ext::dl_secp256k1_ed25519_eq::{CrossCurveDLEQ, CrossCurveDLEQProof};

use crate::crypto::{
    dleq_secp_point_of, dleq_valid_of, ed_public_of, fits_252_bits, nonzero_bytes, reversed, secp_public_of,
};

verus! {

/// Relies on sigma_fun's CrossCurveDLEQ::prove over SHA-256 and ChaCha20, with
/// the secp256k1 and ed25519 base points as generators: it panics on a scalar of
/// 253 bits or on zero, draws its blindings from the thread's random number
/// generator, and returns the secp256k1 point of the scalar (read big-endian)
/// with a proof that it shares its discrete logarithm with the ed25519 point of
/// the scalar. A canonical scalar is not changed by the reduction before the
/// call. The proof is returned serialized as JSON.
#[verifier::external_body]
pub fn prove(privkey: &[u8]) -> (r: (Vec<u8>, Vec<u8>))
    requires
        fits_252_bits(privkey@),
        nonzero_bytes(privkey@),
        ed_public_of(privkey@) is Some,
    ensures
        r.1@ == dleq_secp_point_of(privkey@),
        r.1@.len() == 33,
        secp_public_of(reversed(privkey@)) == Some(r.1@),
        dleq_valid_of(r.0@, r.1@, ed_public_of(privkey@)->Some_0),
{
    let system = CrossCurveDLEQ::<sigma_fun::HashTranscript<sha2::Sha256, rand_chacha::ChaCha20Rng>>::new(
        sigma_fun::secp256k1::fun::G.normalize(), curve25519_dalek::constants::ED25519_BASEPOINT_POINT);
    let mut bytes = [0u8; 32];
    bytes.copy_from_slice(privkey);
    let scalar = curve25519_dalek::scalar::Scalar::from_bytes_mod_order(bytes);
    let (proof, (point, _)) = system.prove(&scalar, &mut rand::thread_rng());
    (serde_json::to_vec(&proof).expect("a proof serialises"), point.to_bytes().to_vec())
}

/// Relies on sigma_fun's CrossCurveDLEQ::verify with the same proof system as
/// `prove`; a proof or point that does not parse fails.
#[verifier::external_body]
pub fn verify(proof: &[u8], bch: &[u8], xmr_pubkey: &[u8]) -> (r: bool)
    ensures
        r == dleq_valid_of(proof@, bch@, xmr_pubkey@),
{
    let system = CrossCurveDLEQ::<sigma_fun::HashTranscript<sha2::Sha256, rand_chacha::ChaCha20Rng>>::new(
        sigma_fun::secp256k1::fun::G.normalize(), curve25519_dalek::constants::ED25519_BASEPOINT_POINT);
    let proof = serde_json::from_slice::<CrossCurveDLEQProof>(proof).ok();
    let point = <[u8; 33]>::try_from(bch).ok().and_then(sigma_fun::secp256k1::fun::Point::from_bytes);
    let ed = <[u8; 32]>::try_from(xmr_pubkey).ok()
        .and_then(|b| curve25519_dalek::edwards::CompressedEdwardsY(b).decompress());
    match (proof, point, ed) {
        (Some(pr), Some(p), Some(e)) => system.verify(&pr, (p, e)),
        _ => false,
    }
}

} // verus!
