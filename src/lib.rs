//! Time-locked custody of liquidity positions held in an external pool engine.
//!
//! The library decides every step of locking and unlocking a position: it
//! validates requests against the deployment's configuration and the user's
//! lock record, derives the program addresses involved, and lays out the
//! engine and token calls to issue, in order. The host that runs those calls
//! applies the returned record change only when every call succeeded.

pub mod address;
pub mod duration;
pub mod engine;
pub mod vesting_lock;
pub mod lifecycle;
pub mod lock;
pub mod state;
