//! Verified core of a transaction-flood pipeline for a remote ledger node.
//!
//! The pipeline signs transfers against a strictly monotonic per-account
//! sequence number (the nonce), submits them under a pool-capacity ceiling,
//! and recovers from local/on-chain nonce desynchronization by resetting the
//! tracker to the node-reported value. Everything here is pure logic over
//! plain values; connecting to a node, signing and the actual submission are
//! left to the surrounding program.

pub mod batch;
pub mod bulk;
pub mod nonce;
pub mod stream;
pub mod tx;
