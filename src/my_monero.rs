use vstd::prelude::*;

use crate::crypto::{ed_public, ed_public_of, random_ed_scalar};

verus! {

/// An ed25519 private key: a 32-byte little-endian scalar.
#[derive(Debug, Clone)]
pub struct PrivateKey(pub Vec<u8>);

/// An ed25519 public key: a 32-byte compressed point.
#[derive(Debug, Clone)]
pub struct PublicKey(pub Vec<u8>);

impl PrivateKey {
    /// A fresh scalar drawn uniformly.
    pub fn random() -> (r: Self)
        ensures
            r.0@.len() == 32,
            ed_public_of(r.0@) is Some,
    {
        PrivateKey(random_ed_scalar())
    }

    /// The public key of this scalar; `None` when it is no canonical scalar.
    pub fn public_key(&self) -> (r: Option<PublicKey>)
        ensures
            r matches Some(p) ==> ed_public_of(self.0@) == Some(p.0@),
            r is None ==> ed_public_of(self.0@) is None,
    {
        match ed_public(self.0.as_slice()) {
            Some(p) => Some(PublicKey(p)),
            None => None,
        }
    }

    pub fn to_bytes(&self) -> (r: Vec<u8>)
        ensures
            r@ == self.0@,
    {
        self.0.clone()
    }
}

impl PublicKey {
    pub fn to_bytes(&self) -> (r: Vec<u8>)
        ensures
            r@ == self.0@,
    {
        self.0.clone()
    }
}

} // verus!
