use vstd::prelude::*;

verus! {

/// A 20-byte account address.
pub type Address = [u8; 20];

/// A transaction request in the shape the relay submits it.
#[derive(Clone, Copy, Debug, PartialEq, Eq)]
pub struct TxRequest {
    pub to: Address,
    pub from: Address,
    /// Value transferred, in wei.
    pub value: u64,
    /// Gas price, in wei.
    pub gas_price: u128,
}

/// A pending transaction observed in the mempool.
#[derive(Clone, Copy, Debug, PartialEq, Eq)]
pub struct PendingTx {
    pub hash: [u8; 32],
    pub from: Address,
}

/// What a collector observes on chain.
#[derive(Clone, Copy, Debug, PartialEq, Eq)]
pub enum Event {
    /// A pending transaction seen in the mempool.
    Transaction(PendingTx),
    /// A new block header.
    Block { number: u64 },
    /// Anything else a collector may report.
    Other,
}

/// Block builders that accept bundles directly.
#[derive(Clone, Copy, Debug, PartialEq, Eq)]
pub enum BlockBuilder {
    Titan,
    Beaverbuild,
}

/// Options of a single transaction sent through the relay.
#[derive(Clone, Debug, PartialEq, Eq)]
pub struct SendPrivateTransactionArgs {
    pub tx: TxRequest,
    pub request_id: u64,
    pub await_receipt: bool,
    pub use_public_mempool: bool,
}

/// Options of a bundle sent to block builders.
#[derive(Clone, Debug, PartialEq, Eq)]
pub struct SendBundleArgs {
    pub txs: Vec<TxRequest>,
    pub request_id: u64,
    pub block_number: u64,
    pub await_receipt: bool,
    pub await_receipt_timeout_ms: u64,
    pub mev_builders: Vec<BlockBuilder>,
    pub refund_percent: u8,
    pub refund_index: usize,
}

/// An outbound effect for the executor to carry out.
#[derive(Clone, Debug, PartialEq, Eq)]
pub enum Action {
    SendPrivateTransaction(SendPrivateTransactionArgs),
    SendBundle(SendBundleArgs),
}

pub open spec fn is_transaction(e: Event) -> bool {
    e is Transaction
}

/// Tells whether an event is an observed pending transaction.
pub fn event_is_transaction(e: &Event) -> (r: bool)
    ensures
        r == is_transaction(*e),
{
    match e {
        Event::Transaction(_) => true,
        _ => false,
    }
}

} // verus!
