use vstd::prelude::*;
use ecdsa_fun::adaptor::{Adaptor, EncryptedSignature};

use crate::crypto::{decrypted_of, ecdsa_valid_of, enc_sig_of, recovered_of, reversed, secp_public_of};

verus! {

/// ECDSA adaptor signatures over secp256k1, with nonces drawn deterministically
/// from a SHA-256 transcript. An adaptor signature is carried serialized as JSON.
pub struct AdaptorSignature;

impl AdaptorSignature {
    /// Relies on ecdsa_fun's ECDSA::verify; a key or signature that does not parse fails.
    #[verifier::external_body]
    pub fn verify(signer: &[u8], message: &[u8], sig: &[u8]) -> (r: bool)
        ensures
            r == ecdsa_valid_of(signer@, message@, sig@),
    {
        let ecdsa = ecdsa_fun::ECDSA::<ecdsa_fun::nonce::Deterministic<sha2::Sha256>>::default();
        let key = <[u8; 33]>::try_from(signer).ok().and_then(ecdsa_fun::fun::Point::from_bytes);
        let msg = <[u8; 32]>::try_from(message).ok();
        let sig = <[u8; 64]>::try_from(sig).ok().and_then(ecdsa_fun::Signature::from_bytes);
        match (key, msg, sig) {
            (Some(k), Some(m), Some(s)) => ecdsa.verify(&k, &m, &s),
            _ => false,
        }
    }

    /// Relies on ecdsa_fun's Adaptor::encrypted_sign, whose nonce is derived
    /// deterministically from its arguments, so that the result depends on them
    /// alone; `None` when the signing key or the encryption key does not parse.
    #[verifier::external_body]
    pub fn encrypted_sign(signer: &[u8], encryption_key: &[u8], message: &[u8]) -> (r: Option<Vec<u8>>)
        requires
            message@.len() == 32,
        ensures
            r matches Some(e) ==> enc_sig_of(signer@, encryption_key@, message@) == Some(e@),
            r is None ==> enc_sig_of(signer@, encryption_key@, message@) is None,
    {
        let adaptor = Adaptor::<sigma_fun::HashTranscript<sha2::Sha256, rand_chacha::ChaCha20Rng>,
            ecdsa_fun::nonce::Deterministic<sha2::Sha256>>::default();
        let signer = ecdsa_fun::fun::Scalar::from_slice(signer)?.non_zero()?;
        let key = ecdsa_fun::fun::Point::from_bytes(<[u8; 33]>::try_from(encryption_key).ok()?)?;
        let msg = <[u8; 32]>::try_from(message).ok()?;
        serde_json::to_vec(&adaptor.encrypted_sign(&signer, &key, &msg)).ok()
    }

    /// Relies on ecdsa_fun's Adaptor::decrypt_signature. The decryption key is an
    /// ed25519 scalar, little-endian, read as a secp256k1 scalar by reversing its
    /// bytes; `None` when it is zero or the adaptor signature does not parse.
    /// The result is a 64-byte compact signature.
    #[verifier::external_body]
    pub fn decrypt_signature(decryption_key: &[u8], encrypted_sig: &[u8]) -> (r: Option<Vec<u8>>)
        requires
            decryption_key@.len() == 32,
        ensures
            r matches Some(v) ==> decrypted_of(decryption_key@, encrypted_sig@) == Some(v@) && v@.len() == 64,
            r is None ==> decrypted_of(decryption_key@, encrypted_sig@) is None,
    {
        let adaptor = Adaptor::<sigma_fun::HashTranscript<sha2::Sha256, rand_chacha::ChaCha20Rng>,
            ecdsa_fun::nonce::Deterministic<sha2::Sha256>>::default();
        let enc: EncryptedSignature = serde_json::from_slice(encrypted_sig).ok()?;
        let mut big_endian = [0u8; 32];
        big_endian.copy_from_slice(decryption_key);
        big_endian.reverse();
        let key: ecdsa_fun::fun::Scalar = ecdsa_fun::fun::Scalar::from_bytes_mod_order(big_endian).non_zero()?;
        Some(adaptor.decrypt_signature(&key, enc).to_bytes().to_vec())
    }

    /// Relies on ecdsa_fun's Adaptor::recover_decryption_key, which returns a
    /// key only when its point is the encryption key; the recovered secp256k1
    /// scalar is returned little-endian, as an ed25519 scalar. `None` when an
    /// input does not parse or the signature is unrelated.
    #[verifier::external_body]
    pub fn recover_decryption_key(pubkey: &[u8], sig: &[u8], enc_sig: &[u8]) -> (r: Option<Vec<u8>>)
        ensures
            r matches Some(v) ==> recovered_of(pubkey@, sig@, enc_sig@) == Some(v@) && v@.len() == 32
                && secp_public_of(reversed(v@)) == Some(pubkey@),
            r is None ==> recovered_of(pubkey@, sig@, enc_sig@) is None,
    {
        let adaptor = Adaptor::<sigma_fun::HashTranscript<sha2::Sha256, rand_chacha::ChaCha20Rng>,
            ecdsa_fun::nonce::Deterministic<sha2::Sha256>>::default();
        let enc: EncryptedSignature = serde_json::from_slice(enc_sig).ok()?;
        let key: ecdsa_fun::fun::Point = ecdsa_fun::fun::Point::from_bytes(<[u8; 33]>::try_from(pubkey).ok()?)?;
        let sig = ecdsa_fun::Signature::from_bytes(<[u8; 64]>::try_from(sig).ok()?)?;
        let mut bytes = adaptor.recover_decryption_key(&key, &sig, &enc)?.to_bytes();
        bytes.reverse();
        Some(bytes.to_vec())
    }
}

} // verus!
