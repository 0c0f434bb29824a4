//! Verified core logic of the Aleph Zero ticket marketplace, the substrate
//! chain-status queries, the node RPC argument handling and the client-side
//! block helpers.

pub mod arith;
pub mod types;
pub mod external;
pub mod marketplace;
pub mod chain_status;
pub mod rpc;
pub mod client;
