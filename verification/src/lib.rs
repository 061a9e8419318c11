//! Payjoin sessions of the wallet daemon.
pub mod psbt;
pub mod records;
pub mod sessions;
pub mod protocol;
pub mod wire;
