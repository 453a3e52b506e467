//! Verified core of a client that queries populated-tick liquidity data for a
//! Uniswap V3 pool through a deployed on-chain lens contract.
//!
//! The crate holds the decision logic of the single query operation: input
//! validation, resolution of the effective contract address, and the mapping
//! of a decoded contract response into typed records. The network call itself
//! is performed by the caller, between [`uni_obrv::prepare_tick_query`] and
//! [`uni_obrv::complete_tick_query`].

pub mod address;
pub mod error;
pub mod uni_obrv;
pub mod wide;
