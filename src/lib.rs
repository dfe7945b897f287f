//! Payment facilitator core for the x402 micropayment protocol: Algorand
//! atomic-group verification, replay protection, discovery aggregation and
//! ERC-8004 proof-of-payment construction.
use vstd::prelude::*;

pub mod text;
pub mod types;
pub mod facilitator;
pub mod algorand;
pub mod nonce_store;
pub mod discovery_aggregator;
pub mod json;
pub mod erc8004;

verus! {

} // verus!
