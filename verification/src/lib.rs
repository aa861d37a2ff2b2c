//! Idempotent synchronization of named configuration entries into a remote
//! parameter store.
//!
//! A [`Parameter`] describes one named configuration value. The sync engine
//! decides, entry by entry, whether the store needs a write: it fetches the
//! current value (always with decryption, so contents are compared as
//! plaintext), writes only when the value is absent or differs, and records a
//! per-entry outcome without aborting the batch. Store traffic itself is
//! carried out by the caller, which performs each requested action and hands
//! the store's answer back to the engine.

pub mod engine;
pub mod input;
pub mod laws;
pub mod parameter;

pub use parameter::Parameter;
