//! From a payment event to a notification in the queue.

use crate::amount::{extract_amount, extracted, ExtractionError};
use crate::event::json_view;
use crate::config::RelayConfig;
use crate::payload::{build_payload, payload_for, NotificationPayload};
use crate::queue::{DispatchQueue, EnqueueOutcome};
use vstd::prelude::*;

verus! {

/// Builds the notification for a payment event: the amount is taken from the
/// event and announced on the configured topic.
pub fn payment_notification(config: &RelayConfig, v: &serde_json::Value) -> (outcome: Result<
    NotificationPayload,
    ExtractionError,
>)
    ensures
        match extracted(json_view(*v)) {
            Ok(amount) => outcome matches Ok(payload) && payload@ == payload_for(
                amount,
                config@.topic,
            ),
            Err(error) => outcome matches Err(e) && e == error,
        },
{
    match extract_amount(v) {
        Ok(amount) => Ok(build_payload(amount, config.topic())),
        Err(error) => Err(error),
    }
}

/// Handles one payment event: builds its notification and offers it to the
/// queue. An event from which no amount can be taken leaves the queue as it
/// was.
pub fn invoice_payment_handler(
    config: &RelayConfig,
    queue: &mut DispatchQueue,
    v: &serde_json::Value,
) -> (outcome: Result<EnqueueOutcome, ExtractionError>)
    ensures
        match extracted(json_view(*v)) {
            Ok(amount) => {
                let payload = payload_for(amount, config@.topic);
                &&& final(queue)@ == old(queue)@.after_enqueue(payload)
                &&& outcome matches Ok(o) && o@ == old(queue)@.enqueue_outcome(payload)
            },
            Err(error) => {
                &&& final(queue)@ == old(queue)@
                &&& outcome matches Err(e) && e == error
            },
        },
{
    match payment_notification(config, v) {
        Ok(payload) => Ok(queue.enqueue(payload)),
        Err(error) => Err(error),
    }
}

} // verus!
