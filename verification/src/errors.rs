//! The error taxonomy of the relay: every rejection is surfaced as one
//! specific, distinguishable kind, never a catch-all.

use vstd::prelude::*;

verus! {

/// Every way an operation of this library can fail.
///
/// Format errors (`InvalidPayload`), authenticity errors (`VAAKeyMismatch`,
/// `VAAEmitterMismatch`), authorization errors (the `*Mismatch` family),
/// state errors (`TransactionAlreadyCreated`, `AlreadyExecuted`,
/// `TransactionAlreadyExecuted`), arithmetic errors (`Overflow`) and
/// downstream-invocation errors (`InvalidCPI`).
#[derive(Clone, Copy, Debug, PartialEq, Eq, Structural)]
pub enum MessengerError {
    InvalidEmitterAddress,
    VAAKeyMismatch,
    VAAEmitterMismatch,
    InvalidPayload,
    InvalidSenderWallet,
    Overflow,
    MintKeyMismatch,
    PdaSenderMismatch,
    PdaReceiverMismatch,
    SenderDerivedKeyMismatch,
    ReceiverDerivedKeyMismatch,
    DataAccountMismatch,
    AmountMismatch,
    StartTimeMismatch,
    EndTimeMismatch,
    CanCancelMismatch,
    CanUpdateMismatch,
    TransactionAlreadyCreated,
    TransactionAlreadyExecuted,
    AlreadyExecuted,
    InvalidCPI,
    InvalidCaller,
}

} // verus!
