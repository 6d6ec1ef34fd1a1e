use vstd::prelude::*;

use crate::bob::Bob;
use crate::keys::{KeyPrivate, Network};
use crate::protocol::{Swap, SwapWrapper, XmrNetwork};
use crate::script::{p2pkh, p2pkh_of};

verus! {

/// The amount, in satoshis, that the relay's counterparty offers to trade.
pub const OFFER_BCH_SATS: u64 = 100000;

/// The amount, in piconero, that the relay's counterparty offers to trade.
pub const OFFER_XMR_PICO: u64 = 100000;

/// The timelock, in blocks, that the relay's counterparty offers for both covenants.
pub const OFFER_TIMELOCK: i64 = 20;

/// Why the relay refuses to create a trade.
#[derive(Debug, Clone, Copy, PartialEq, Eq, Structural)]
pub enum CreateError {
    /// A timelock does not fit the 16 bits of a relative lock time.
    InvalidTimelock,
    /// The amounts are not those offered.
    InvalidAmount,
    /// The timelocks are not those offered.
    UnofferedTimelock,
    /// The trading direction is not served.
    UnknownPath,
}

impl CreateError {
    /// The HTTP status of the refusal.
    pub fn status(&self) -> (r: u16)
        ensures
            r == match self {
                CreateError::InvalidTimelock => 400u16,
                CreateError::InvalidAmount => 403u16,
                CreateError::UnofferedTimelock => 403u16,
                CreateError::UnknownPath => 501u16,
            },
    {
        match self {
            CreateError::InvalidTimelock => 400,
            CreateError::InvalidAmount => 403,
            CreateError::UnofferedTimelock => 403,
            CreateError::UnknownPath => 501,
        }
    }
}

pub open spec fn fits_timelock(t: i64) -> bool {
    0 <= t <= 0xffff
}

/// Where the relay keeps a trade.
pub fn get_file_path(trade_id: &str) -> (r: String)
    ensures
        r@ == "./.trades/ongoing/"@ + trade_id@ + "-server.json"@,
{
    let mut s = String::from_str("./.trades/ongoing/");
    s.append(trade_id);
    s.append("-server.json");
    s
}

/// Relies on rand's thread_rng sampled with the Alphanumeric distribution:
/// `len` characters drawn from ASCII letters and digits.
#[verifier::external_body]
fn sample_alphanumeric(len: usize) -> (r: String)
    ensures
        r@.len() == len,
        forall|i: int| 0 <= i < len ==> is_alphanumeric(#[trigger] r@[i]),
{
    rand::Rng::sample_iter(rand::thread_rng(), &rand::distributions::Alphanumeric)
        .take(len).map(char::from).collect()
}

pub open spec fn is_alphanumeric(c: char) -> bool {
    ('0' <= c <= '9') || ('a' <= c <= 'z') || ('A' <= c <= 'Z')
}

/// A random string of `len` ASCII letters and digits.
pub fn random_str(len: usize) -> (r: String)
    ensures
        r@.len() == len,
        forall|i: int| 0 <= i < len ==> is_alphanumeric(#[trigger] r@[i]),
{
    sample_alphanumeric(len)
}

/// Creates the relay's side of a trade requested by a client: checks the
/// request against the offer and builds Bob, who receives refunds at the
/// pay-to-public-key-hash script of `refund_key_hash`.
pub fn create_trade(
    path: &str,
    bch_amount: u64,
    xmr_amount: u64,
    timelock1: i64,
    timelock2: i64,
    id: String,
    keys: KeyPrivate,
    refund_key_hash: &[u8],
    xmr_network: XmrNetwork,
    bch_network: Network,
) -> (r: Result<SwapWrapper, CreateError>)
    requires
        refund_key_hash@.len() == 20,
    ensures
        !(fits_timelock(timelock1) && fits_timelock(timelock2)) ==> r == Err::<SwapWrapper, CreateError>(CreateError::InvalidTimelock),
        (fits_timelock(timelock1) && fits_timelock(timelock2) && (bch_amount != OFFER_BCH_SATS || xmr_amount != OFFER_XMR_PICO))
            ==> r == Err::<SwapWrapper, CreateError>(CreateError::InvalidAmount),
        (fits_timelock(timelock1) && fits_timelock(timelock2) && bch_amount == OFFER_BCH_SATS && xmr_amount == OFFER_XMR_PICO
            && (timelock1 != OFFER_TIMELOCK || timelock2 != OFFER_TIMELOCK))
            ==> r == Err::<SwapWrapper, CreateError>(CreateError::UnofferedTimelock),
        (bch_amount == OFFER_BCH_SATS && xmr_amount == OFFER_XMR_PICO && timelock1 == OFFER_TIMELOCK
            && timelock2 == OFFER_TIMELOCK && path@ != "xmr->bch"@)
            ==> r == Err::<SwapWrapper, CreateError>(CreateError::UnknownPath),
        r is Ok <==> (bch_amount == OFFER_BCH_SATS && xmr_amount == OFFER_XMR_PICO && timelock1 == OFFER_TIMELOCK
            && timelock2 == OFFER_TIMELOCK && path@ == "xmr->bch"@),
        r matches Ok(SwapWrapper::Bob(b)) ==> {
            &&& b.state is Init
            &&& b.swap.id@ == id@
            &&& b.swap.keys == keys
            &&& b.swap.bch_recv@ == p2pkh_of(refund_key_hash@)
            &&& b.swap.bch_amount == bch_amount
            &&& b.swap.xmr_amount == xmr_amount
            &&& b.swap.timelock1 == timelock1
            &&& b.swap.timelock2 == timelock2
            &&& b.swap.xmr_network == xmr_network
            &&& b.swap.bch_network == bch_network
        },
        r matches Ok(w) ==> w is Bob,
{
    if timelock1 < 0 || timelock1 > 0xffff || timelock2 < 0 || timelock2 > 0xffff {
        return Err(CreateError::InvalidTimelock);
    }
    if bch_amount != OFFER_BCH_SATS || xmr_amount != OFFER_XMR_PICO {
        return Err(CreateError::InvalidAmount);
    }
    if timelock1 != OFFER_TIMELOCK || timelock2 != OFFER_TIMELOCK {
        return Err(CreateError::UnofferedTimelock);
    }
    let served = String::from_str("xmr->bch");
    let asked = String::from_str(path);
    proof {
        reveal_strlit("xmr->bch");
    }
    if asked != served {
        return Err(CreateError::UnknownPath);
    }
    let swap = Swap {
        id,
        xmr_network,
        bch_network,
        keys,
        bch_recv: p2pkh(refund_key_hash),
        xmr_amount,
        bch_amount,
        timelock1: timelock1 as u32,
        timelock2: timelock2 as u32,
    };
    Ok(SwapWrapper::Bob(Bob::new(swap)))
}

} // verus!
