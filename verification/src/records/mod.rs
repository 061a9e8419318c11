//! Payjoins that are kept as one record each, without a log of events.
pub mod receiver;
pub mod sender;
