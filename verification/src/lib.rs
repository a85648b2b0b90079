//! A multi-hop token swap router: a route of swap "hops" is consumed one hop
//! at a time, each inbound transfer is authenticated against the persisted
//! route state, outbound swap instructions are synthesized per hop, and the
//! final amount is settled against the route's slippage bounds.

pub mod authentications;
pub mod authorize;
pub mod constants;
pub mod contract;
pub mod cosmos;
pub mod error;
pub mod msg;
pub mod rescue_tokens;
pub mod state;
pub mod wire;
