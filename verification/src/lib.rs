//! Error codes, error encoding, failover routing and request bookkeeping of an
//! RPC client/server framework, with their contracts proved by Verus.
use vstd::prelude::*;

pub mod text;
pub mod error;
pub mod codec;
pub mod rpc_error;
pub mod failover;
pub mod failover_task;
pub mod api_task;
pub mod config;
pub mod throttler;
pub mod cluster;
pub mod server;
pub mod facts;

verus! {

} // verus!
