use xmr_bch_swap::adaptor_signature::AdaptorSignature;
use xmr_bch_swap::dleq;
use xmr_bch_swap::cashaddr::{decode, encode};
use xmr_bch_swap::hashes::sha256d;
use xmr_bch_swap::keys::{self, KeyPrivate, KeyPublic, Network, PublicKey};
use xmr_bch_swap::my_monero;

fn fresh_keys() -> KeyPrivate {
    loop {
        let k = KeyPrivate::random(Network::Testnet);
        if k.monero_spend[31] & 0x10 == 0 {
            return k;
        }
    }
}

#[test]
fn adaptor_signature_test() {
    let bob = fresh_keys();
    let bobpub = KeyPublic::from_private(&bob).unwrap();
    let alice = fresh_keys();
    let alicepub = KeyPublic::from_private(&alice).unwrap();
    let message = [0u8; 32];

    let enc_sig = AdaptorSignature::encrypted_sign(&bob.ves, &alicepub.spend_bch, &message).unwrap();
    let dec_sig = AdaptorSignature::decrypt_signature(&alice.monero_spend, &enc_sig).unwrap();
    assert!(AdaptorSignature::verify(&bobpub.ves, &message, &dec_sig));

    let recovered = AdaptorSignature::recover_decryption_key(&alicepub.spend_bch, &dec_sig, &enc_sig).unwrap();
    assert_eq!(hex::encode(recovered), hex::encode(&alice.monero_spend));
}

#[test]
fn zero_spend_key_has_no_public_keys() {
    let mut k = fresh_keys();
    k.monero_spend = vec![0u8; 32];
    assert!(KeyPublic::from_private(&k).is_none());
}

#[test]
fn unrelated_signature_recovers_nothing() {
    let bob = fresh_keys();
    let alice = fresh_keys();
    let alicepub = KeyPublic::from_private(&alice).unwrap();
    let message = [1u8; 32];
    let enc_sig = AdaptorSignature::encrypted_sign(&bob.ves, &alicepub.spend_bch, &message).unwrap();
    let other_enc = AdaptorSignature::encrypted_sign(&alice.ves, &alicepub.spend_bch, &message).unwrap();
    let other_sig = AdaptorSignature::decrypt_signature(&alice.monero_spend, &other_enc).unwrap();
    assert!(AdaptorSignature::recover_decryption_key(&alicepub.spend_bch, &other_sig, &enc_sig).is_none());
    assert!(AdaptorSignature::decrypt_signature(&alice.monero_spend, b"not a signature").is_none());
}

#[test]
fn mod_test() {
    let bob = fresh_keys();
    let alice = fresh_keys();
    let bob_spend = monero::PrivateKey::from_slice(&bob.monero_spend).unwrap();
    let alice_spend = monero::PrivateKey::from_slice(&alice.monero_spend).unwrap();

    let add_priv_spend = bob_spend + alice_spend;
    let add_priv_spend_pub = monero::PublicKey::from_private_key(&add_priv_spend);
    let add_pub_spend =
        monero::PublicKey::from_private_key(&bob_spend) + monero::PublicKey::from_private_key(&alice_spend);
    assert_eq!(add_priv_spend_pub, add_pub_spend);

    // the library derives the same public key
    let derived = my_monero::PrivateKey(bob.monero_spend.clone()).public_key().unwrap();
    assert_eq!(derived.to_bytes(), monero::PublicKey::from_private_key(&bob_spend).as_bytes().to_vec());
}

#[test]
fn proof_of_own_keys_verifies() {
    let k = fresh_keys();
    let p = KeyPublic::from_private(&k).unwrap();
    assert!(dleq::verify(&p.proof, &p.spend_bch, &p.monero_spend));
    let other = keys::PrivateKey::random().public_key().unwrap().0;
    assert!(!dleq::verify(&p.proof, &other, &p.monero_spend));
}

#[test]
fn adaptor_signature_rejects_other_message() {
    let bob = fresh_keys();
    let alice = fresh_keys();
    let alicepub = KeyPublic::from_private(&alice).unwrap();
    let msg = sha256d(b"recipient");
    let enc = AdaptorSignature::encrypted_sign(&bob.ves, &alicepub.spend_bch, &msg).unwrap();
    let sig = AdaptorSignature::decrypt_signature(&alice.monero_spend, &enc).unwrap();
    let bob_ves = keys::PrivateKey(bob.ves.clone()).public_key().unwrap().to_bytes();
    assert!(AdaptorSignature::verify(&bob_ves, &msg, &sig));
    assert!(!AdaptorSignature::verify(&bob_ves, &sha256d(b"other"), &sig));
    let wrong = AdaptorSignature::decrypt_signature(&bob.monero_spend, &enc).unwrap();
    assert!(!AdaptorSignature::verify(&bob_ves, &msg, &wrong));
}

#[test]
fn digests_match_known_values() {
    assert_eq!(
        hex::encode(sha256d(b"")),
        "5df6e0e2761359d30a8275058e299fcc0381534545f55cf43e41983f5d4c9456"
    );
    // HASH160 of the compressed generator point
    let g = PublicKey::from_point(
        hex::decode("0279be667ef9dcbbac55a06295ce870b07029bfcdb2dce28d959f2815b16f81798").unwrap(),
    );
    assert_eq!(hex::encode(g.pubkey_hash().to_bytes()), "751e76e8199196d454941c45d1b3a323f1433bd6");
}

#[test]
fn cash_address_round_trip() {
    let hash: Vec<u8> = (0u8..20).collect();
    for prefix in ["bitcoincash", "bchtest", "bchreg"] {
        let address = encode(&hash, prefix, 8);
        let (p, v, h) = decode(&address).unwrap();
        assert_eq!(p, prefix);
        assert_eq!(v, 8);
        assert_eq!(h, hash);
    }
    let (p, v, h) = decode("bitcoincash:prmnwxmmaq58h22jt7qrjmutnkrmrfm4j57zy4cf45").unwrap();
    assert_eq!((p.as_str(), v, h.len()), ("bitcoincash", 8, 20));
}

#[test]
fn malformed_cash_addresses_are_refused() {
    assert!(decode("bitcoincash:prmnwxmmaq58h22jt7qrjmutnkrmrfm4j57zy4cf46").is_none());
    assert!(decode("bchtest:prmnwxmmaq58h22jt7qrjmutnkrmrfm4j57zy4cf45").is_none());
    assert!(decode("bitcoincash:prmnwxmmaq58h22jt7qrjmutnkrmrfm4j57zy4cfb5").is_none());
    assert!(decode("prmnwxmmaq58h22jt7qrjmutnkrmrfm4j57zy4cf45").is_none());
    assert!(decode("bitcoincash:qqqq").is_none());
}

#[test]
fn key_types_round_trip_bytes() {
    let k = keys::PrivateKey::random();
    assert_eq!(k.to_bytes().len(), 32);
    let p = k.public_key().unwrap();
    assert_eq!(p.to_bytes().len(), 33);
    let m = my_monero::PrivateKey::random();
    assert_eq!(m.to_bytes().len(), 32);
    assert!(keys::PrivateKey(vec![0u8; 32]).public_key().is_none());
}

#[test]
fn public_key_hash_text() {
    let pk = PublicKey::from_point(
        hex::decode("02ee2cbe75e3d2a9b5049ac73122c229627a49bd289f71e05075b2c60090766128").unwrap(),
    );
    let h = pk.pubkey_hash();
    assert_eq!(h.to_bytes().len(), 20);
    let text = h.get_P2PKH();
    assert_eq!(text, format!("76a914{}88ac", hex::encode(h.to_bytes())));
}
