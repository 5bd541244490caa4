//! Core of a cross-chain message relay: it decodes attested-message payloads
//! into typed operations, guards them with an emitter registry and replay
//! latches, and authorizes locally staged transactions through deterministic
//! address derivation.

pub mod bytes;
pub mod codec;
pub mod decimal;
pub mod derive;
pub mod dispatch;
pub mod errors;
pub mod hash;
pub mod portal;
pub mod records;
pub mod registry;
pub mod state;
pub mod transaction;
pub mod vaa;
pub mod wide;
