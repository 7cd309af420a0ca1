//! Decision logic of a chat-platform administration bridge: dispatch of
//! scheduled messages, calendar reminders, notification fan-out and the
//! normalisation of inbound webhook events.

pub mod delivery;
pub mod dispatch;
pub mod models;
pub mod notify;
pub mod order;
pub mod reminder;
pub mod tick;
pub mod timing;
pub mod webhook;
