//! An event-driven order-submission strategy: it watches chain events, emits a
//! public transaction and a private bundle once, and classifies the inclusion
//! receipts that the relay reports back.

pub mod types;
pub mod request_id;
pub mod actions;
pub mod strategy;
pub mod receipts;
