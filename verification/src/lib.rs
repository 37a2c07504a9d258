//! A relay that turns payment-received events into push notifications.
//!
//! An event comes in as a JSON document. [`amount`] finds the amount in it
//! and reduces it to whole units, [`payload`] words the notification,
//! [`queue`] holds notifications between the event handler and the delivery
//! worker, and [`worker`] decides what the worker does next. [`relay`] puts
//! the first three together for one event, and [`config`] resolves the
//! settings at startup. Waiting and sending are left to the caller.

pub mod amount;
pub mod config;
pub mod decimal;
pub mod event;
pub mod payload;
pub mod queue;
pub mod relay;
pub mod worker;
