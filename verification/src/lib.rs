//! A read-only query facade over a snapshot-addressable AMM state store.
//!
//! Each remote procedure picks the snapshot to query, asks the query engine,
//! and hands back either the engine's answer or one stable error.
//!
//! - [`rpc`] holds the dispatcher and its four procedures.
//! - [`engine`] names the two capabilities the dispatcher is given.
//! - [`error`] holds the one error a caller can receive.
//! - [`types`] holds the values that cross the boundary.
//! - [`decimal`] and [`wire`] fix how amounts and payloads are written.

pub mod decimal;
pub mod engine;
pub mod error;
pub mod rpc;
pub mod types;
pub mod wire;

pub use engine::{HeadInfo, QueryEngine};
pub use error::{Error, Operation, RpcError};
pub use rpc::{AMMApi, AMM};
pub use types::{BalanceInfo, BalanceRequest};
