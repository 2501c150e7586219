//! A custody-and-reissuance orchestrator for cw721 tokens.
//!
//! The contract accepts custody of an NFT, checks that it holds delegated
//! authority over it, and converts it: the original token is burned at its
//! source contract and an identical id is minted at the contract this
//! orchestrator provisioned, with fresh metadata. Burns and mints are
//! dispatched as submessages whose outcomes arrive later as tagged replies;
//! the reply handler keeps the local bookkeeping (configuration, custody
//! records, operation counters) consistent with the confirmed completions.

pub mod state;
pub mod error;
pub mod msg;
pub mod codec;
pub mod contract;
pub mod laws;
