//! Payjoin sessions that are kept as a log of events.
pub mod db;
pub mod helpers;
pub mod types;
pub mod sender;
pub mod receiver;
