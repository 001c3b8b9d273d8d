//! A verified engine that keeps a set of accounts topped up from a shared pool.
//!
//! The crate holds the decisions of the gas distributor: which accounts are
//! funded in a round and by how much, who may change the table of target
//! balances or withdraw from the pool, and how ownership changes hands. The
//! distributor is a function of plain values: the caller reads from the chain
//! what an invocation needs, hands it over, and carries out the answer.
//!
//! A companion contract, which creates a token of its own, is found in
//! [`lazy_staking`]; its one message to the host is encoded by `neutron_sdk`.

pub mod answer;
pub mod contract;
pub mod decimal;
pub mod distribute;
pub mod engine;
pub mod error;
pub mod host;
pub mod identity;
pub mod lazy_staking;
pub mod msg;
pub mod ownership;
pub mod table;
