//! Verified core of a bridge between a fixed-ABI trading host and the Tradier
//! brokerage API: the day-count date codec, bounded buffer marshaling, the
//! session store, the market-data and order adapters, and the decisions of the
//! host-facing entry points.

pub mod codec;
pub mod market;
pub mod marshal;
pub mod orders;
pub mod provider;
pub mod session;
pub mod surface;
