//! The persistent records of the relay: the administrative configuration,
//! the inbound-message counter, the staged operation written by message
//! dispatch, the staged transaction of the two-phase execution model, and
//! the one-shot execution guards.

use vstd::prelude::*;

use crate::errors::MessengerError;

verus! {

/// Singleton administrative record: the owner identity and the nonce that
/// tags outbound cross-chain messages.
#[derive(Clone, Copy, Debug, PartialEq, Eq)]
pub struct Config {
    pub owner: [u8; 32],
    pub nonce: u32,
}

/// Monotonically increasing count of accepted inbound messages; kept for
/// observability and correlation only.
#[derive(Clone, Copy, Debug, PartialEq, Eq)]
pub struct TransactionCounter {
    pub count: u64,
}

/// One-shot guard of a logical action instance: once `executed` is set it is
/// never cleared, so the action can never be staged or run a second time.
#[derive(Clone, Copy, Debug, PartialEq, Eq)]
pub struct ExecutionStatus {
    pub executed: bool,
}

/// One entry of a staged transaction's ordered account list.
#[derive(Clone, Copy, Debug, PartialEq, Eq)]
pub struct TransactionAccount {
    pub pubkey: [u8; 32],
    pub is_signer: bool,
    pub is_writable: bool,
}

/// A staged, not-yet-executed local transaction. `did_execute` is a one-shot
/// latch: it is set before the transaction is invoked and never rolled back.
#[derive(Clone, Debug, PartialEq, Eq)]
pub struct StagedTransaction {
    pub program_id: [u8; 32],
    pub accounts: Vec<TransactionAccount>,
    pub data: Vec<u8>,
    pub did_execute: bool,
}

/// The decoded, validated fields of the most recent inbound message for one
/// identity pair. Each message dispatch overwrites the fields its operation
/// kind carries and leaves the rest unchanged.
#[derive(Clone, Debug, PartialEq, Eq)]
pub struct StagedOperation {
    pub amount: u64,
    pub sender: [u8; 32],
    pub receiver: [u8; 32],
    pub from_chain_id: u64,
    pub token_mint: [u8; 32],
    pub start_time: u64,
    pub end_time: u64,
    pub can_update: bool,
    pub can_cancel: bool,
    pub data_account: [u8; 32],
}

/// Sets the administrative owner and starts the outbound nonce at 1.
pub fn initialize(config: &mut Config, owner: &[u8; 32])
    ensures
        final(config).owner == *owner,
        final(config).nonce == 1,
{
    config.owner = *owner;
    config.nonce = 1;
}

/// Consumes one outbound nonce value after a portal invocation succeeded.
///
/// Succeeds exactly when the nonce is below its maximum, and then raises it
/// by exactly 1; at the maximum it fails with `Overflow` and leaves the
/// configuration unchanged.
pub fn advance_nonce(config: &mut Config) -> (r: Result<(), MessengerError>)
    ensures
        old(config).nonce < u32::MAX ==> r is Ok && final(config).nonce == old(config).nonce + 1,
        old(config).nonce == u32::MAX ==> r == Err::<(), MessengerError>(MessengerError::Overflow)
            && *final(config) == *old(config),
        final(config).owner == old(config).owner,
        final(config).nonce >= old(config).nonce,
{
    match config.nonce.checked_add(1) {
        None => Err(MessengerError::Overflow),
        Some(val) => {
            config.nonce = val;
            Ok(())
        },
    }
}

} // verus!
