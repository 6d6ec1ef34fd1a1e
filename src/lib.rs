//! An atomic swap between BCH and Monero: the covenant contracts and their
//! addresses, the classifier of chain transactions, and the two role state
//! machines, with the cryptography they rely on behind stated contracts.

pub mod adaptor_signature;
pub mod alice;
pub mod bob;
pub mod cashaddr;
pub mod client;
pub mod contract;
pub mod crypto;
pub mod dleq;
pub mod electrum;
pub mod hashes;
pub mod keys;
pub mod my_monero;
pub mod protocol;
pub mod relay;
pub mod script;
pub mod transaction;
pub mod utils;
