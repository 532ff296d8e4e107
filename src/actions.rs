use vstd::prelude::*;

use crate::request_id::RequestIdAllocator;
use crate::types::{
    Action, Address, BlockBuilder, SendBundleArgs, SendPrivateTransactionArgs, TxRequest,
};

verus! {

/// Value carried by the template transactions, in wei.
pub const TEMPLATE_VALUE: u64 = 42;

/// Gas price of the template transactions: 50 gwei.
pub const TEMPLATE_GAS_PRICE: u128 = 50_000_000_000;

/// How long the relay waits for a bundle's inclusion receipt.
pub const BUNDLE_RECEIPT_TIMEOUT_MS: u64 = 60_000;

/// Share of the builder's MEV refunded to the submitter, in percent.
pub const BUNDLE_REFUND_PERCENT: u8 = 90;

/// Position in the bundle of the transaction credited with the refund.
pub const BUNDLE_REFUND_INDEX: usize = 0;

/// The placeholder transaction sent from the signer to itself.
pub open spec fn template_tx(signer: Address) -> TxRequest {
    TxRequest { to: signer, from: signer, value: TEMPLATE_VALUE, gas_price: TEMPLATE_GAS_PRICE }
}

/// The builders that every bundle is sent to.
pub open spec fn bundle_builders() -> Seq<BlockBuilder> {
    seq![BlockBuilder::Titan, BlockBuilder::Beaverbuild]
}

/// The bundle options that do not depend on what is being bundled.
pub open spec fn bundle_terms_fixed(args: SendBundleArgs) -> bool {
    &&& args.await_receipt
    &&& args.await_receipt_timeout_ms == BUNDLE_RECEIPT_TIMEOUT_MS
    &&& args.refund_percent == BUNDLE_REFUND_PERCENT
    &&& args.refund_index == BUNDLE_REFUND_INDEX
    &&& args.mev_builders@ == bundle_builders()
}

/// `a` sends the template transaction through the relay and the public mempool.
pub open spec fn is_public_tx_action(a: Action, signer: Address, id: u64) -> bool {
    &&& a matches Action::SendPrivateTransaction(args)
    &&& args.tx == template_tx(signer)
    &&& args.request_id == id
    &&& args.await_receipt
    &&& args.use_public_mempool
}

/// `a` sends a bundle of the template transaction to the builders for `block`.
pub open spec fn is_bundle_action(a: Action, signer: Address, id: u64, block: u64) -> bool {
    &&& a matches Action::SendBundle(args)
    &&& args.txs@ == seq![template_tx(signer)]
    &&& args.request_id == id
    &&& args.block_number == block
    &&& bundle_terms_fixed(args)
}

/// The pair of actions emitted when the strategy acts: the public transaction
/// first, then the bundle, with consecutive request ids starting at `first_id`.
pub open spec fn is_action_pair(
    acts: Seq<Action>,
    signer: Address,
    first_id: u64,
    next_block: u64,
) -> bool {
    &&& acts.len() == 2
    &&& first_id < u64::MAX
    &&& is_public_tx_action(acts[0], signer, first_id)
    &&& is_bundle_action(acts[1], signer, (first_id + 1) as u64, next_block)
}

/// The request id an action carries.
pub open spec fn request_id_of(a: Action) -> u64 {
    match a {
        Action::SendPrivateTransaction(args) => args.request_id,
        Action::SendBundle(args) => args.request_id,
    }
}

/// In an emitted pair the public transaction comes first, the bundle second,
/// and their request ids are distinct and increase in that order.
pub proof fn lemma_pair_ids_increase(
    acts: Seq<Action>,
    signer: Address,
    first_id: u64,
    next_block: u64,
)
    requires
        is_action_pair(acts, signer, first_id, next_block),
    ensures
        acts[0] is SendPrivateTransaction,
        acts[1] is SendBundle,
        request_id_of(acts[0]) == first_id,
        request_id_of(acts[0]) < request_id_of(acts[1]),
        request_id_of(acts[1]) == request_id_of(acts[0]) + 1,
{
}

/// Builds the template transaction sent from `signer` to itself.
pub fn template_transaction(signer: &Address) -> (r: TxRequest)
    ensures
        r == template_tx(*signer),
{
    TxRequest { to: *signer, from: *signer, value: TEMPLATE_VALUE, gas_price: TEMPLATE_GAS_PRICE }
}

/// Builds the public transaction and the bundle for `next_block`, taking one
/// request id for each, in that order.
pub fn build_actions(signer: &Address, ids: &mut RequestIdAllocator, next_block: u64) -> (r: Vec<
    Action,
>)
    requires
        old(ids).peek() <= u64::MAX - 2,
    ensures
        is_action_pair(r@, *signer, old(ids).peek(), next_block),
        final(ids).peek() == old(ids).peek() + 2,
{
    let approval = template_transaction(signer);
    let swap = template_transaction(signer);

    let public_id = ids.next();
    let public_tx = Action::SendPrivateTransaction(
        SendPrivateTransactionArgs {
            tx: approval,
            request_id: public_id,
            await_receipt: true,
            use_public_mempool: true,
        },
    );

    let bundle_id = ids.next();
    let mut txs: Vec<TxRequest> = Vec::new();
    txs.push(swap);
    let mut builders: Vec<BlockBuilder> = Vec::new();
    builders.push(BlockBuilder::Titan);
    builders.push(BlockBuilder::Beaverbuild);
    let bundle = Action::SendBundle(
        SendBundleArgs {
            txs,
            request_id: bundle_id,
            block_number: next_block,
            await_receipt: true,
            await_receipt_timeout_ms: BUNDLE_RECEIPT_TIMEOUT_MS,
            mev_builders: builders,
            refund_percent: BUNDLE_REFUND_PERCENT,
            refund_index: BUNDLE_REFUND_INDEX,
        },
    );

    let mut r: Vec<Action> = Vec::new();
    r.push(public_tx);
    r.push(bundle);
    proof {
        assert(r@[1] == bundle);
        assert(txs@ =~= seq![template_tx(*signer)]);
        assert(builders@ =~= bundle_builders());
    }
    r
}

} // verus!
