use vstd::prelude::*;

use crate::actions::{build_actions, is_action_pair};
use crate::request_id::RequestIdAllocator;
use crate::types::{event_is_transaction, is_transaction, Action, Address, Event};

verus! {

/// The mathematical state of a strategy.
pub struct StrategyState {
    /// Address of the key that signs the strategy's transactions.
    pub signer: Address,
    /// The request id that the next submission takes.
    pub next_id: u64,
    /// Whether the one-shot latch has closed.
    pub acted: bool,
}

/// Until the latch closes, two more request ids can be taken.
pub open spec fn state_wf(s: StrategyState) -> bool {
    s.acted || s.next_id <= u64::MAX - 2
}

/// The outcome of the block-number query can be used: it succeeded and the
/// block has a successor.
pub open spec fn usable_block(block_number: Option<u64>) -> bool {
    block_number matches Some(n) && n < u64::MAX
}

/// The strategy acts on `e`: it is a transaction, the latch is open and the
/// block-number query gave a usable answer.
pub open spec fn acts_on(s: StrategyState, e: Event, block_number: Option<u64>) -> bool {
    &&& is_transaction(e)
    &&& !s.acted
    &&& usable_block(block_number)
}

/// The state after one event. The latch closes only once the actions are built.
pub open spec fn step(s: StrategyState, e: Event, block_number: Option<u64>) -> StrategyState {
    if acts_on(s, e, block_number) {
        StrategyState { signer: s.signer, next_id: (s.next_id + 2) as u64, acted: true }
    } else {
        s
    }
}

/// Number of actions emitted on one event.
pub open spec fn emitted_on(s: StrategyState, e: Event, block_number: Option<u64>) -> nat {
    if acts_on(s, e, block_number) {
        2
    } else {
        0
    }
}

/// The state after a sequence of events, each with the outcome of its block query.
pub open spec fn run(s: StrategyState, evs: Seq<(Event, Option<u64>)>) -> StrategyState
    decreases evs.len(),
{
    if evs.len() == 0 {
        s
    } else {
        run(step(s, evs[0].0, evs[0].1), evs.drop_first())
    }
}

/// Number of actions emitted over a sequence of events.
pub open spec fn emitted(s: StrategyState, evs: Seq<(Event, Option<u64>)>) -> nat
    decreases evs.len(),
{
    if evs.len() == 0 {
        0
    } else {
        emitted_on(s, evs[0].0, evs[0].1) + emitted(step(s, evs[0].0, evs[0].1), evs.drop_first())
    }
}

/// A startup failure.
#[derive(Clone, Copy, Debug, PartialEq, Eq)]
pub enum StartupError {
    /// The warm state could not be loaded.
    SyncFailed,
}

/// The strategy core: a signer, a request-id counter and a one-shot latch.
#[derive(Debug)]
pub struct MevStrategy {
    tx_signer: Address,
    ids: RequestIdAllocator,
    can_send: bool,
}

impl View for MevStrategy {
    type V = StrategyState;

    closed spec fn view(&self) -> StrategyState {
        StrategyState { signer: self.tx_signer, next_id: self.ids.peek(), acted: !self.can_send }
    }
}

impl MevStrategy {
    /// Until the latch closes, two more request ids can be taken.
    #[verifier::type_invariant]
    closed spec fn inv(&self) -> bool {
        state_wf(self@)
    }

    /// A strategy signing with `tx_signer`, whose first submission takes
    /// `request_id`, with its latch open when `can_send` holds.
    pub fn new(tx_signer: Address, request_id: u64, can_send: bool) -> (r: Self)
        requires
            can_send ==> request_id <= u64::MAX - 2,
        ensures
            r@ == (StrategyState { signer: tx_signer, next_id: request_id, acted: !can_send }),
            state_wf(r@),
    {
        MevStrategy { tx_signer, ids: RequestIdAllocator::new(request_id), can_send }
    }

    /// Loads the warm state needed before the first event. Nothing is needed
    /// yet, so it always succeeds and changes nothing; calling it twice is the
    /// same as calling it once.
    pub fn sync_state(&mut self) -> (r: Result<(), StartupError>)
        ensures
            r is Ok,
            final(self)@ == old(self)@,
    {
        Ok(())
    }

    /// Whether `event` calls for the block-number query: only a transaction
    /// while the latch is open does.
    pub fn needs_block_number(&self, event: &Event) -> (r: bool)
        ensures
            r == (is_transaction(*event) && !self@.acted),
    {
        event_is_transaction(event) && self.can_send
    }

    /// Reacts to one event. `block_number` is the outcome of the chain-state
    /// query for the current block (`None` when it failed); it is read only
    /// when `needs_block_number` holds. On a transaction with the latch open and
    /// a usable block number, the latch closes and the public transaction and
    /// the bundle for the next block are returned. In every other case nothing
    /// is returned and the state is unchanged, so a failed query leaves the
    /// latch open for a later event.
    pub fn process_event(&mut self, event: &Event, block_number: Option<u64>) -> (r: Vec<Action>)
        ensures
            final(self)@ == step(old(self)@, *event, block_number),
            state_wf(final(self)@),
            r@.len() == emitted_on(old(self)@, *event, block_number),
            acts_on(old(self)@, *event, block_number) ==> is_action_pair(
                r@,
                old(self)@.signer,
                old(self)@.next_id,
                (block_number->0 + 1) as u64,
            ),
    {
        proof {
            use_type_invariant(&*self);
        }
        if !event_is_transaction(event) {
            return Vec::new();
        }
        if !self.can_send {
            return Vec::new();
        }
        let next_block = match block_number {
            Some(n) => {
                if n == u64::MAX {
                    return Vec::new();
                }
                n + 1
            },
            None => {
                return Vec::new();
            },
        };
        let mut ids = RequestIdAllocator::new(self.ids.current());
        let actions = build_actions(&self.tx_signer, &mut ids, next_block);
        *self = MevStrategy { tx_signer: self.tx_signer, ids, can_send: false };
        actions
    }

    /// The request id that the next submission takes.
    pub fn request_id(&self) -> (r: u64)
        ensures
            r == self@.next_id,
    {
        self.ids.current()
    }

    /// Whether the one-shot latch has closed.
    pub fn has_acted(&self) -> (r: bool)
        ensures
            r == self@.acted,
    {
        !self.can_send
    }

    /// Address of the signing key.
    pub fn signer(&self) -> (r: Address)
        ensures
            r == self@.signer,
    {
        self.tx_signer
    }
}

/// Events other than transactions never produce actions and never change the
/// state, however many of them arrive.
pub proof fn lemma_non_transaction_events_are_ignored(
    s: StrategyState,
    evs: Seq<(Event, Option<u64>)>,
)
    requires
        forall|i: int| 0 <= i < evs.len() ==> !is_transaction(#[trigger] evs[i].0),
    ensures
        run(s, evs) == s,
        emitted(s, evs) == 0,
    decreases evs.len(),
{
    if evs.len() > 0 {
        let rest = evs.drop_first();
        assert forall|i: int| 0 <= i < rest.len() implies !is_transaction(#[trigger] rest[i].0) by {
            assert(rest[i] == evs[i + 1]);
        }
        assert(!is_transaction(evs[0].0));
        lemma_non_transaction_events_are_ignored(s, rest);
    }
}

/// Once the latch has closed, no event of any kind produces an action or
/// changes the state.
pub proof fn lemma_acted_is_terminal(s: StrategyState, evs: Seq<(Event, Option<u64>)>)
    requires
        s.acted,
    ensures
        run(s, evs) == s,
        emitted(s, evs) == 0,
    decreases evs.len(),
{
    if evs.len() > 0 {
        lemma_acted_is_terminal(s, evs.drop_first());
    }
}

/// Over any sequence of events the strategy acts at most once: it emits at
/// most one pair of actions, it emits a pair exactly when the latch goes from
/// open to closed, and each emitted action took a request id of its own.
pub proof fn lemma_acts_at_most_once(s: StrategyState, evs: Seq<(Event, Option<u64>)>)
    requires
        state_wf(s),
    ensures
        emitted(s, evs) <= 2,
        emitted(s, evs) == 2 <==> (!s.acted && run(s, evs).acted),
        run(s, evs).next_id == s.next_id + emitted(s, evs),
        run(s, evs).signer == s.signer,
        s.acted ==> run(s, evs).acted,
    decreases evs.len(),
{
    if evs.len() > 0 {
        let t = step(s, evs[0].0, evs[0].1);
        lemma_acts_at_most_once(t, evs.drop_first());
        if acts_on(s, evs[0].0, evs[0].1) {
            lemma_acted_is_terminal(t, evs.drop_first());
        }
    }
}

/// A failed block-number query leaves the latch open and the state unchanged,
/// so the next transaction with a successful query still acts.
pub proof fn lemma_failed_query_allows_retry(s: StrategyState, e: Event, later: Event, n: u64)
    requires
        state_wf(s),
        !s.acted,
        is_transaction(e),
        is_transaction(later),
        n < u64::MAX,
    ensures
        step(s, e, None) == s,
        emitted_on(s, e, None) == 0,
        emitted_on(step(s, e, None), later, Some(n)) == 2,
        step(step(s, e, None), later, Some(n)).acted,
{
}

} // verus!
