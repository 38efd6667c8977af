//! Bridges to the runtime environment: identifier generation, the clock, and
//! the event channel. Everything here is a thin trusted boundary around an
//! outside call; the logic that consumes the values is verified elsewhere.

use vstd::prelude::*;
use crate::models::event::ModelEvent;

verus! {

/// Relies on `uuid::Uuid::new_v4`: a freshly drawn 128-bit random
/// identifier. The value is random, so nothing is promised of it; callers
/// state what holds whatever comes back.
#[verifier::external_body]
pub(crate) fn fresh_id() -> u128 {
    uuid::Uuid::new_v4().as_u128()
}

/// Relies on `chrono::Utc::now`: the current UTC time in microseconds since
/// the epoch. The value depends on the clock, so nothing is promised of it.
#[verifier::external_body]
pub(crate) fn now_micros() -> i64 {
    chrono::Utc::now().timestamp_micros()
}

/// The sending half of the event channel, shared by every writer.
#[verifier::external_type_specification]
#[verifier::external_body]
#[verifier::reject_recursive_types(T)]
pub struct ExUnboundedSender<T>(tokio::sync::mpsc::UnboundedSender<T>);

/// Relies on `tokio::sync::mpsc::UnboundedSender::send`: the message is
/// queued, in order, unless the receiving half has been dropped; the result
/// says which of the two happened. Whether the receiver is still there
/// depends on the rest of the process, so no more is promised.
#[verifier::external_body]
pub(crate) fn channel_send(
    sender: &tokio::sync::mpsc::UnboundedSender<ModelEvent>,
    event: ModelEvent,
) -> (accepted: bool) {
    sender.send(event).is_ok()
}

} // verus!
