//! What the vendor delivers, and the outside types that pass through the
//! collector unread.

use crate::event::{Event, StreamType};
use alloy_consensus::transaction::Recovered;
use alloy_consensus::{Block, TxEnvelope};
use vstd::prelude::*;

verus! {

/// `alloy_consensus::EthereumTxEnvelope`, the signed transaction of any type.
/// `TxEnvelope` is this type with its default blob variant. Opaque here.
#[verifier::external_type_specification]
#[verifier::external_body]
#[verifier::reject_recursive_types(Eip4844)]
pub struct ExEthereumTxEnvelope<Eip4844>(alloy_consensus::EthereumTxEnvelope<Eip4844>);

/// `alloy_consensus::TxEip4844Variant`, the blob transaction with or without
/// its sidecar: a type argument of `TxEnvelope`. Opaque here.
#[verifier::external_type_specification]
#[verifier::external_body]
#[verifier::reject_recursive_types(T)]
pub struct ExTxEip4844Variant<T>(alloy_consensus::TxEip4844Variant<T>);

/// `alloy_consensus::BlobTransactionSidecarVariant`, the sidecar of a blob
/// transaction: a type argument of `TxEnvelope`. Opaque here.
#[verifier::external_type_specification]
#[verifier::external_body]
pub struct ExBlobTransactionSidecarVariant(alloy_consensus::BlobTransactionSidecarVariant);

/// `alloy_consensus::Block`, a header with the block's body. Opaque here.
#[verifier::external_type_specification]
#[verifier::external_body]
#[verifier::reject_recursive_types(T)]
#[verifier::reject_recursive_types(H)]
pub struct ExBlock<T, H>(alloy_consensus::Block<T, H>);

/// `alloy_consensus::Header`, the header type a `Block` has by default.
/// Opaque here.
#[verifier::external_type_specification]
#[verifier::external_body]
pub struct ExHeader(alloy_consensus::Header);

/// `alloy_consensus::transaction::Recovered`, a signed object together with
/// the signer recovered from its signature. Opaque here.
#[verifier::external_type_specification]
#[verifier::external_body]
#[verifier::reject_recursive_types(T)]
pub struct ExRecovered<T>(alloy_consensus::transaction::Recovered<T>);

/// `Clone::clone` of `alloy_consensus::EthereumTxEnvelope`, which cloning an
/// [`Event`] calls. Nothing is claimed of the copy.
pub assume_specification<Eip4844>[ <alloy_consensus::EthereumTxEnvelope<Eip4844> as Clone>::clone ](
    tx: &alloy_consensus::EthereumTxEnvelope<Eip4844>,
) -> alloy_consensus::EthereumTxEnvelope<Eip4844> where Eip4844: Clone
;

/// `Clone::clone` of `alloy_consensus::Block`, which cloning an [`Event`]
/// calls. Nothing is claimed of the copy.
pub assume_specification<T, H>[ <alloy_consensus::Block<T, H> as Clone>::clone ](
    block: &alloy_consensus::Block<T, H>,
) -> alloy_consensus::Block<T, H> where H: Clone, T: Clone
;

/// The signed transaction inside a recovered transaction: the value that
/// `Recovered::into_inner` returns for it.
pub uninterp spec fn recovered_inner(item: Recovered<TxEnvelope>) -> TxEnvelope;

/// Calls `alloy_consensus::transaction::Recovered::into_inner`, which drops
/// the cached signer and hands out the wrapped transaction as it is. The
/// contract only gives that transaction its name.
#[verifier::external_body]
fn into_inner(item: Recovered<TxEnvelope>) -> (tx: TxEnvelope)
    ensures
        tx == recovered_inner(item),
{
    item.into_inner()
}

/// One item delivered by a vendor subscription.
pub enum VendorItem {
    /// A pending transaction, with its recovered signer, from the transaction feed.
    Transaction(Recovered<TxEnvelope>),
    /// A block with its transactions, from the execution payload feed.
    ExecutionPayload(Block<TxEnvelope>),
}

impl VendorItem {
    /// The feed that delivers items of this shape.
    pub open spec fn kind(self) -> StreamType {
        match self {
            VendorItem::Transaction(_) => StreamType::Transactions,
            VendorItem::ExecutionPayload(_) => StreamType::ExecutionPayloads,
        }
    }

    /// The event that stands for this item: a transaction is unwrapped to the
    /// signed transaction inside it, a block is taken whole.
    pub open spec fn event(self) -> Event {
        match self {
            VendorItem::Transaction(tx) => Event::Transaction(recovered_inner(tx)),
            VendorItem::ExecutionPayload(block) => Event::ExecutionPayload(block),
        }
    }

    /// The feed that delivers items of this shape.
    pub fn stream_type(&self) -> (ty: StreamType)
        ensures
            ty == self.kind(),
    {
        match self {
            VendorItem::Transaction(_) => StreamType::Transactions,
            VendorItem::ExecutionPayload(_) => StreamType::ExecutionPayloads,
        }
    }

    /// Maps the item to its event. Nothing is filtered and nothing can fail:
    /// every item has exactly one event, of the variant of the item's feed.
    pub fn into_event(self) -> (event: Event)
        ensures
            event == self.event(),
            event.kind() == self.kind(),
    {
        match self {
            VendorItem::Transaction(tx) => Event::Transaction(into_inner(tx)),
            VendorItem::ExecutionPayload(block) => Event::ExecutionPayload(block),
        }
    }
}

/// The events for a run of deliveries: one per item, in the order delivered.
pub open spec fn events_of(items: Seq<VendorItem>) -> Seq<Event> {
    items.map_values(|item: VendorItem| item.event())
}

/// No deliveries, no events.
pub proof fn lemma_events_of_empty()
    ensures
        events_of(Seq::<VendorItem>::empty()) == Seq::<Event>::empty(),
{
    assert(events_of(Seq::<VendorItem>::empty()) =~= Seq::<Event>::empty());
}

/// One more delivery adds its own event after those of the earlier ones.
pub proof fn lemma_events_of_push(items: Seq<VendorItem>, item: VendorItem)
    ensures
        events_of(items.push(item)) == events_of(items).push(item.event()),
{
    assert(events_of(items.push(item)) =~= events_of(items).push(item.event()));
}

} // verus!
