use mev_strategy::actions::{
    build_actions, template_transaction, BUNDLE_RECEIPT_TIMEOUT_MS, BUNDLE_REFUND_INDEX,
    BUNDLE_REFUND_PERCENT, TEMPLATE_GAS_PRICE, TEMPLATE_VALUE,
};
use mev_strategy::request_id::RequestIdAllocator;
use mev_strategy::strategy::MevStrategy;
use mev_strategy::types::{event_is_transaction, Action, BlockBuilder, Event, PendingTx, TxRequest};

const SIGNER: [u8; 20] = [0xab; 20];

fn tx_event(tag: u8) -> Event {
    Event::Transaction(PendingTx { hash: [tag; 32], from: [tag; 20] })
}

fn expected_tx() -> TxRequest {
    TxRequest { to: SIGNER, from: SIGNER, value: 42, gas_price: 50_000_000_000 }
}

#[test]
fn allocator_counts_up_from_first() {
    let mut ids = RequestIdAllocator::new(5);
    assert_eq!(ids.next(), 5);
    assert_eq!(ids.next(), 6);
    assert_eq!(ids.current(), 7);
}

#[test]
fn template_is_self_addressed() {
    let tx = template_transaction(&SIGNER);
    assert_eq!(tx, expected_tx());
    assert_eq!(TEMPLATE_VALUE, 42);
    assert_eq!(TEMPLATE_GAS_PRICE, 50_000_000_000);
}

#[test]
fn build_actions_takes_two_ids_in_order() {
    let mut ids = RequestIdAllocator::new(10);
    let acts = build_actions(&SIGNER, &mut ids, 77);
    assert_eq!(ids.current(), 12);
    assert_eq!(acts.len(), 2);
    match &acts[0] {
        Action::SendPrivateTransaction(a) => assert_eq!(a.request_id, 10),
        other => panic!("unexpected first action {:?}", other),
    }
    match &acts[1] {
        Action::SendBundle(b) => {
            assert_eq!(b.request_id, 11);
            assert_eq!(b.block_number, 77);
        }
        other => panic!("unexpected second action {:?}", other),
    }
}

#[test]
fn first_transaction_emits_private_tx_then_bundle() {
    let mut s = MevStrategy::new(SIGNER, 1, true);
    assert!(s.needs_block_number(&tx_event(1)));
    let acts = s.process_event(&tx_event(1), Some(1000));
    assert_eq!(acts.len(), 2);
    match &acts[0] {
        Action::SendPrivateTransaction(a) => {
            assert_eq!(a.request_id, 1);
            assert!(a.await_receipt);
            assert!(a.use_public_mempool);
            assert_eq!(a.tx, expected_tx());
        }
        other => panic!("unexpected first action {:?}", other),
    }
    match &acts[1] {
        Action::SendBundle(b) => {
            assert_eq!(b.request_id, 2);
            assert_eq!(b.block_number, 1001);
            assert!(b.await_receipt);
            assert_eq!(b.await_receipt_timeout_ms, 60_000);
            assert_eq!(b.refund_percent, 90);
            assert_eq!(b.refund_index, 0);
            assert_eq!(b.txs, vec![expected_tx()]);
            assert_eq!(b.mev_builders, vec![BlockBuilder::Titan, BlockBuilder::Beaverbuild]);
        }
        other => panic!("unexpected second action {:?}", other),
    }
    assert!(s.has_acted());
    assert_eq!(s.request_id(), 3);
    assert!(s.process_event(&tx_event(2), Some(1001)).is_empty());
}

#[test]
fn public_id_precedes_bundle_id() {
    let mut s = MevStrategy::new(SIGNER, 40, true);
    let acts = s.process_event(&tx_event(3), Some(5));
    let ids: Vec<u64> = acts
        .iter()
        .map(|a| match a {
            Action::SendPrivateTransaction(x) => x.request_id,
            Action::SendBundle(x) => x.request_id,
        })
        .collect();
    assert_eq!(ids, vec![40, 41]);
}

#[test]
fn non_transaction_events_are_ignored() {
    let mut s = MevStrategy::new(SIGNER, 1, true);
    for n in 0..50u64 {
        assert!(!s.needs_block_number(&Event::Block { number: n }));
        assert!(s.process_event(&Event::Block { number: n }, Some(n)).is_empty());
        assert!(s.process_event(&Event::Other, None).is_empty());
    }
    assert!(!s.has_acted());
    assert_eq!(s.request_id(), 1);
    assert!(!event_is_transaction(&Event::Other));
    assert!(event_is_transaction(&tx_event(0)));
}

#[test]
fn nothing_after_acting_for_a_hundred_events() {
    let mut s = MevStrategy::new(SIGNER, 1, true);
    assert_eq!(s.process_event(&tx_event(0), Some(10)).len(), 2);
    for n in 0..100u64 {
        let ev = match n % 3 {
            0 => tx_event(n as u8),
            1 => Event::Block { number: n },
            _ => Event::Other,
        };
        assert!(!s.needs_block_number(&ev));
        assert!(s.process_event(&ev, Some(n)).is_empty());
    }
    assert!(s.has_acted());
    assert_eq!(s.request_id(), 3);
}

#[test]
fn failed_block_query_keeps_gate_open() {
    let mut s = MevStrategy::new(SIGNER, 1, true);
    assert!(s.process_event(&tx_event(1), None).is_empty());
    assert!(!s.has_acted());
    assert_eq!(s.request_id(), 1);
    let acts = s.process_event(&tx_event(2), Some(1000));
    assert_eq!(acts.len(), 2);
    assert!(s.has_acted());
}

#[test]
fn block_without_successor_is_not_used() {
    let mut s = MevStrategy::new(SIGNER, 1, true);
    assert!(s.process_event(&tx_event(1), Some(u64::MAX)).is_empty());
    assert!(!s.has_acted());
}

#[test]
fn closed_gate_at_construction_never_acts() {
    let mut s = MevStrategy::new(SIGNER, 1, false);
    assert!(s.has_acted());
    assert!(s.process_event(&tx_event(1), Some(3)).is_empty());
}

#[test]
fn largest_starting_id_still_acts() {
    let mut s = MevStrategy::new(SIGNER, u64::MAX - 2, true);
    let acts = s.process_event(&tx_event(1), Some(0));
    assert_eq!(acts.len(), 2);
    assert_eq!(s.request_id(), u64::MAX);
}

#[test]
fn sync_state_succeeds_and_is_idempotent() {
    let mut s = MevStrategy::new(SIGNER, 9, true);
    assert!(s.sync_state().is_ok());
    assert!(s.sync_state().is_ok());
    assert_eq!(s.request_id(), 9);
    assert!(!s.has_acted());
    assert_eq!(s.signer(), SIGNER);
}

#[test]
fn bundle_terms_do_not_depend_on_the_event() {
    for tag in [0u8, 7, 255] {
        let mut s = MevStrategy::new([tag; 20], 1, true);
        let acts = s.process_event(&tx_event(tag), Some(tag as u64));
        match &acts[1] {
            Action::SendBundle(b) => {
                assert_eq!(b.await_receipt_timeout_ms, BUNDLE_RECEIPT_TIMEOUT_MS);
                assert_eq!(b.refund_percent, BUNDLE_REFUND_PERCENT);
                assert_eq!(b.refund_index, BUNDLE_REFUND_INDEX);
                assert!(!b.mev_builders.is_empty());
            }
            other => panic!("unexpected second action {:?}", other),
        }
    }
}
