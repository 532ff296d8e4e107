use vstd::prelude::*;

verus! {

/// A decoded JSON document, opaque to the proofs.
#[verifier::external_type_specification]
#[verifier::external_body]
pub struct ExJsonValue(serde_json::Value);

/// Whether a text parses as one JSON document.
pub uninterp spec fn parses_as_json(s: Seq<char>) -> bool;

/// Relies on `serde_json::from_str::<serde_json::Value>`: it returns `Ok`
/// exactly when the text is a single JSON value, which depends on the text
/// alone.
#[verifier::external_body]
fn parse_json(s: &str) -> (r: Option<serde_json::Value>)
    ensures
        r is Some <==> parses_as_json(s@),
{
    serde_json::from_str::<serde_json::Value>(s).ok()
}

/// What the receipt channel hands the listener.
#[derive(Clone, Debug, PartialEq, Eq)]
pub enum ReceiptMessage {
    /// A raw payload sent by the relay.
    Payload(String),
    /// The channel could not deliver a message (its sender is gone or the
    /// listener fell behind).
    ChannelFailed,
}

/// What the listener reports for one message.
#[derive(Debug)]
pub enum ReceiptEvent {
    /// The payload decoded as structured data: report it to the sink.
    Decoded(serde_json::Value),
    /// The payload is not structured data: log it and go on.
    Malformed,
    /// The channel failed: log it and go on.
    ChannelFailed,
}

/// `ev` is the listener's reaction to `m`.
pub open spec fn classifies(m: ReceiptMessage, ev: ReceiptEvent) -> bool {
    match m {
        ReceiptMessage::Payload(s) => if parses_as_json(s@) {
            ev is Decoded
        } else {
            ev is Malformed
        },
        ReceiptMessage::ChannelFailed => ev is ChannelFailed,
    }
}

/// Number of payloads among `msgs` that decode.
pub open spec fn well_formed_count(msgs: Seq<ReceiptMessage>) -> nat
    decreases msgs.len(),
{
    if msgs.len() == 0 {
        0
    } else {
        well_formed_count(msgs.drop_last()) + match msgs.last() {
            ReceiptMessage::Payload(s) => if parses_as_json(s@) {
                1nat
            } else {
                0nat
            },
            ReceiptMessage::ChannelFailed => 0nat,
        }
    }
}

/// Number of decoded receipts among `evs`.
pub open spec fn decoded_count(evs: Seq<ReceiptEvent>) -> nat
    decreases evs.len(),
{
    if evs.len() == 0 {
        0
    } else {
        decoded_count(evs.drop_last()) + if evs.last() is Decoded {
            1nat
        } else {
            0nat
        }
    }
}

/// Handles one message of the receipt channel. Neither a malformed payload
/// nor a channel failure ends the listener: each only yields an event to log.
pub fn handle_receipt(msg: &ReceiptMessage) -> (r: ReceiptEvent)
    ensures
        classifies(*msg, r),
{
    match msg {
        ReceiptMessage::Payload(s) => match parse_json(s.as_str()) {
            Some(v) => ReceiptEvent::Decoded(v),
            None => ReceiptEvent::Malformed,
        },
        ReceiptMessage::ChannelFailed => ReceiptEvent::ChannelFailed,
    }
}

/// Handles a run of messages in order, one event per message.
pub fn handle_receipts(msgs: &Vec<ReceiptMessage>) -> (r: Vec<ReceiptEvent>)
    ensures
        r@.len() == msgs@.len(),
        forall|i: int| 0 <= i < msgs@.len() ==> classifies(msgs@[i], #[trigger] r@[i]),
        decoded_count(r@) == well_formed_count(msgs@),
{
    let mut r: Vec<ReceiptEvent> = Vec::new();
    let mut i: usize = 0;
    while i < msgs.len()
        invariant
            i <= msgs@.len(),
            r@.len() == i,
            forall|j: int| 0 <= j < i ==> classifies(msgs@[j], #[trigger] r@[j]),
        decreases msgs@.len() - i,
    {
        let ev = handle_receipt(&msgs[i]);
        r.push(ev);
        i = i + 1;
    }
    proof {
        lemma_one_report_per_well_formed_payload(msgs@, r@);
    }
    r
}

/// Every message gets exactly one event, and the number of decoded receipts
/// reported is the number of well-formed payloads, whatever malformed
/// payloads or channel failures come between them.
pub proof fn lemma_one_report_per_well_formed_payload(
    msgs: Seq<ReceiptMessage>,
    evs: Seq<ReceiptEvent>,
)
    requires
        evs.len() == msgs.len(),
        forall|i: int| 0 <= i < msgs.len() ==> classifies(msgs[i], #[trigger] evs[i]),
    ensures
        decoded_count(evs) == well_formed_count(msgs),
    decreases msgs.len(),
{
    if msgs.len() > 0 {
        let n = msgs.len() - 1;
        assert forall|i: int| 0 <= i < n implies classifies(
            msgs.drop_last()[i],
            #[trigger] evs.drop_last()[i],
        ) by {
            assert(classifies(msgs[i], evs[i]));
        }
        lemma_one_report_per_well_formed_payload(msgs.drop_last(), evs.drop_last());
        assert(classifies(msgs[n], evs[n]));
    }
}

} // verus!
