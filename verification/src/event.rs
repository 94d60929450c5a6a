//! The events a collector emits and the choice of feed.

use alloy_consensus::{Block, TxEnvelope};
use vstd::prelude::*;

verus! {

/// Which of the two feeds a collector subscribes to.
#[derive(Clone, Copy, Debug, PartialEq, Eq, Structural)]
pub enum StreamType {
    /// Pending transactions as seen by the network.
    Transactions,
    /// Execution payloads: blocks with their full transaction data.
    ExecutionPayloads,
}

/// An event emitted by the collector.
#[derive(Clone, Debug)]
pub enum Event {
    /// A pending transaction.
    Transaction(TxEnvelope),
    /// A block with its full transaction data.
    ExecutionPayload(Block<TxEnvelope>),
}

impl Event {
    /// The feed that events of this variant come from.
    pub open spec fn kind(self) -> StreamType {
        match self {
            Event::Transaction(_) => StreamType::Transactions,
            Event::ExecutionPayload(_) => StreamType::ExecutionPayloads,
        }
    }
}

} // verus!
