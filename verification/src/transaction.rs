//! The two-phase create/execute transaction model.
//!
//! Construction and execution are split because of payload-size ceilings:
//! a "create" call stages the transaction body and cross-checks every
//! semantically significant account against the staged operation; the
//! matching "execute" call (or a combined create-and-execute call) flips
//! the one-shot `did_execute` latch and hands back the invocation request
//! that the host performs under the derived signer. The latch is set
//! before the invocation is handed out and is never rolled back, so a
//! failed invocation cannot be retried.

use vstd::prelude::*;

use crate::bytes::{bytes32_equal, spec_le_u64_at};
use crate::derive::{
    derive_identity_address, derived_address_of, find_derived_address, spec_identity_address_matches,
};
use crate::errors::MessengerError;
use crate::records::{
    decode_stream, decode_stream_update, decode_token_amount, spec_stream_ok,
    spec_stream_update_ok, spec_token_amount_ok,
};
use crate::state::{ExecutionStatus, StagedOperation, StagedTransaction, TransactionAccount};

verus! {

/// The seed tuple under which the host signs a handed-out invocation:
/// identity bytes, then chain-id bytes, then the derivation bump.
#[derive(Clone, Debug, PartialEq, Eq)]
pub struct SignerSeeds {
    pub sender: [u8; 32],
    pub chain_id: Vec<u8>,
    pub bump: u8,
}

/// A fully validated invocation request: the staged transaction with the
/// derived signer's account marked, ready for the host to invoke.
#[derive(Clone, Debug, PartialEq, Eq)]
pub struct CpiRequest {
    pub program_id: [u8; 32],
    pub accounts: Vec<TransactionAccount>,
    pub data: Vec<u8>,
    pub signer: SignerSeeds,
}

/// The staged account list with the entry of the derived signer forced to
/// `is_signer`; every other entry is unchanged.
pub open spec fn spec_mark_signer(accs: Seq<TransactionAccount>, key: [u8; 32]) -> Seq<
    TransactionAccount,
> {
    accs.map_values(
        |a: TransactionAccount|
            if a.pubkey@ == key@ {
                TransactionAccount { is_signer: true, ..a }
            } else {
                a
            },
    )
}

/// Marks the derived signer's entry in a staged account list.
fn mark_signer(accs: &Vec<TransactionAccount>, key: &[u8; 32]) -> (r: Vec<TransactionAccount>)
    ensures
        r@ == spec_mark_signer(accs@, *key),
{
    let mut out: Vec<TransactionAccount> = Vec::new();
    let n = accs.len();
    let mut i: usize = 0;
    while i < n
        invariant
            i <= n,
            n == accs@.len(),
            out@.len() == i,
            forall|j: int| 0 <= j < i ==> out@[j] == spec_mark_signer(accs@, *key)[j],
        decreases n - i,
    {
        let a = accs[i];
        if bytes32_equal(&a.pubkey, key) {
            out.push(TransactionAccount { pubkey: a.pubkey, is_signer: true, is_writable: a.is_writable });
        } else {
            out.push(a);
        }
        i = i + 1;
    }
    assert(out@ =~= spec_mark_signer(accs@, *key));
    out
}

/// Copies a byte vector.
fn clone_bytes(src: &Vec<u8>) -> (r: Vec<u8>)
    ensures
        r@ == src@,
{
    let mut r: Vec<u8> = Vec::new();
    let n = src.len();
    let mut i: usize = 0;
    while i < n
        invariant
            i <= n,
            n == src@.len(),
            r@ == src@.subrange(0, i as int),
        decreases n - i,
    {
        r.push(src[i]);
        assert(r@ =~= src@.subrange(0, i + 1));
        i = i + 1;
    }
    assert(r@ =~= src@);
    r
}

/// Whether `req` is exactly the invocation request for `transaction`
/// signed by `(sender, chain_id, bump)` with the derived key's account
/// marked.
pub open spec fn spec_cpi_request_for(
    req: CpiRequest,
    transaction: StagedTransaction,
    sender: [u8; 32],
    chain_id: Seq<u8>,
    derived: ([u8; 32], u8),
) -> bool {
    &&& req.program_id == transaction.program_id
    &&& req.accounts@ == spec_mark_signer(transaction.accounts@, derived.0)
    &&& req.data@ == transaction.data@
    &&& req.signer.sender == sender
    &&& req.signer.chain_id@ == chain_id
    &&& req.signer.bump == derived.1
}

/// Builds the invocation request for a staged transaction: the signer's
/// derived account entry is marked, and the signer seeds carry the bump of
/// the derivation from `(sender, chain_id)`. Fails only when no viable
/// derivation exists.
fn build_cpi_request(
    transaction: &StagedTransaction,
    sender: [u8; 32],
    chain_id: Vec<u8>,
    program_id: &[u8; 32],
) -> (r: Option<CpiRequest>)
    ensures
        match derived_address_of(sender@, chain_id@, program_id@) {
            Some(p) => r matches Some(req) && spec_cpi_request_for(
                req,
                *transaction,
                sender,
                chain_id@,
                p,
            ),
            None => r is None,
        },
{
    match find_derived_address(sender.as_slice(), chain_id.as_slice(), program_id) {
        None => None,
        Some((pda_key, bump)) => {
            let accounts = mark_signer(&transaction.accounts, &pda_key);
            let data = clone_bytes(&transaction.data);
            Some(
                CpiRequest {
                    program_id: transaction.program_id,
                    accounts,
                    data,
                    signer: SignerSeeds { sender, chain_id, bump },
                },
            )
        },
    }
}

/// Runs a staged transaction exactly once.
///
/// The first successful call sets both one-shot latches and hands back the
/// invocation request; with the execution guard already spent the call
/// fails with `TransactionAlreadyExecuted` and changes nothing, and with
/// the guard fresh but the transaction already burnt it fails with
/// `AlreadyExecuted` — the guard is still spent, and neither latch ever
/// reverts.
pub fn execute_transaction(
    txn_status: &mut ExecutionStatus,
    transaction: &mut StagedTransaction,
    program_id: &[u8; 32],
    eth_add: [u8; 32],
    from_chain_id: Vec<u8>,
) -> (r: Result<CpiRequest, MessengerError>)
    ensures
        old(txn_status).executed ==> r == Err::<CpiRequest, MessengerError>(
            MessengerError::TransactionAlreadyExecuted,
        ) && *final(transaction) == *old(transaction),
        !old(txn_status).executed ==> final(txn_status).executed,
        old(txn_status).executed ==> final(txn_status).executed,
        old(transaction).did_execute ==> final(transaction).did_execute,
        !old(txn_status).executed && old(transaction).did_execute ==> r == Err::<
            CpiRequest,
            MessengerError,
        >(MessengerError::AlreadyExecuted) && *final(transaction) == *old(transaction),
        !old(txn_status).executed && !old(transaction).did_execute ==> *final(transaction) == (
        StagedTransaction { did_execute: true, ..*old(transaction) }) && match derived_address_of(
            eth_add@,
            from_chain_id@,
            program_id@,
        ) {
            Some(p) => r matches Ok(req) && spec_cpi_request_for(
                req,
                *final(transaction),
                eth_add,
                from_chain_id@,
                p,
            ),
            None => r == Err::<CpiRequest, MessengerError>(MessengerError::InvalidCPI),
        },
{
    if txn_status.executed {
        return Err(MessengerError::TransactionAlreadyExecuted);
    }
    txn_status.executed = true;
    if transaction.did_execute {
        return Err(MessengerError::AlreadyExecuted);
    }
    // Burn the transaction before handing out the invocation.
    transaction.did_execute = true;
    match build_cpi_request(transaction, eth_add, from_chain_id, program_id) {
        None => Err(MessengerError::InvalidCPI),
        Some(req) => Ok(req),
    }
}

/// The first check a deposit transaction fails, if any: the mint account
/// at position 6, the authenticated sender, the sender-derived address at
/// position 1, and the amount record against the staged operation.
pub open spec fn deposit_outcome(
    accs: Seq<TransactionAccount>,
    data: Seq<u8>,
    sender: [u8; 32],
    st: StagedOperation,
    program_id: Seq<u8>,
) -> Option<MessengerError> {
    if !(accs.len() > 6 && accs[6].pubkey@ == st.token_mint@) {
        Some(MessengerError::MintKeyMismatch)
    } else if sender@ != st.sender@ {
        Some(MessengerError::PdaSenderMismatch)
    } else if !spec_identity_address_matches(sender@, st.from_chain_id, program_id, accs[1].pubkey@) {
        Some(MessengerError::SenderDerivedKeyMismatch)
    } else if !spec_token_amount_ok(data) {
        Some(MessengerError::InvalidPayload)
    } else if spec_le_u64_at(data, 8) != st.amount {
        Some(MessengerError::AmountMismatch)
    } else {
        None
    }
}

/// Stages and immediately executes a deposit transaction.
///
/// With the execution guard fresh, the transaction body is staged first —
/// a later check failure leaves it staged, with the latch untouched. The
/// checks run in `deposit_outcome` order; when all pass the latch is set
/// and the invocation request is handed back under the derived signer.
pub fn transaction_deposit(
    txn_status: &ExecutionStatus,
    transaction: &mut StagedTransaction,
    data_storage: &StagedOperation,
    program_id: &[u8; 32],
    pid: [u8; 32],
    accs: Vec<TransactionAccount>,
    data: Vec<u8>,
    chain_id: Vec<u8>,
    sender: [u8; 32],
) -> (r: Result<CpiRequest, MessengerError>)
    ensures
        txn_status.executed ==> r == Err::<CpiRequest, MessengerError>(
            MessengerError::TransactionAlreadyCreated,
        ) && *final(transaction) == *old(transaction),
        !txn_status.executed ==> final(transaction).program_id == pid
            && final(transaction).accounts@ == accs@ && final(transaction).data@ == data@
            && match deposit_outcome(
            accs@,
            data@,
            sender,
            *data_storage,
            program_id@,
        ) {
            Some(e) => r == Err::<CpiRequest, MessengerError>(e) && final(transaction).did_execute
                == old(transaction).did_execute,
            None => final(transaction).did_execute && match derived_address_of(
                sender@,
                chain_id@,
                program_id@,
            ) {
                Some(p) => r matches Ok(req) && spec_cpi_request_for(
                    req,
                    *final(transaction),
                    sender,
                    chain_id@,
                    p,
                ),
                None => r == Err::<CpiRequest, MessengerError>(MessengerError::InvalidCPI),
            },
        },
{
    if txn_status.executed {
        return Err(MessengerError::TransactionAlreadyCreated);
    }
    // Stage the transaction body before any check.
    transaction.program_id = pid;
    transaction.accounts = accs;
    transaction.data = data;

    // The mint account must sit at position 6 and match the staged mint.
    if transaction.accounts.len() <= 6 {
        return Err(MessengerError::MintKeyMismatch);
    }
    let mint_acc = transaction.accounts[6];
    if !bytes32_equal(&mint_acc.pubkey, &data_storage.token_mint) {
        return Err(MessengerError::MintKeyMismatch);
    }
    // The caller-authenticated sender must be the staged sender.
    if !bytes32_equal(&sender, &data_storage.sender) {
        return Err(MessengerError::PdaSenderMismatch);
    }
    // The account at position 1 must be the sender-derived address.
    let sender_acc = transaction.accounts[1];
    match derive_identity_address(&sender, data_storage.from_chain_id, program_id) {
        None => {
            return Err(MessengerError::SenderDerivedKeyMismatch);
        },
        Some((derived_key, _bump)) => {
            if !bytes32_equal(&sender_acc.pubkey, &derived_key) {
                return Err(MessengerError::SenderDerivedKeyMismatch);
            }
        },
    }
    // The encoded record must agree with the staged amount.
    match decode_token_amount(transaction.data.as_slice()) {
        None => {
            return Err(MessengerError::InvalidPayload);
        },
        Some(record) => {
            if record.amount != data_storage.amount {
                return Err(MessengerError::AmountMismatch);
            }
        },
    }
    // Burn the transaction before handing out the invocation.
    transaction.did_execute = true;
    match build_cpi_request(transaction, sender, chain_id, program_id) {
        None => Err(MessengerError::InvalidCPI),
        Some(req) => Ok(req),
    }
}

/// The first check a stream-create transaction fails, if any: the mint at
/// position 9, the authenticated sender, the sender-derived address at
/// position 5, the receiver-derived address at position 6, and the stream
/// record against the staged operation.
pub open spec fn stream_create_outcome(
    accs: Seq<TransactionAccount>,
    data: Seq<u8>,
    sender: [u8; 32],
    st: StagedOperation,
    program_id: Seq<u8>,
) -> Option<MessengerError> {
    if !(accs.len() > 9 && accs[9].pubkey@ == st.token_mint@) {
        Some(MessengerError::MintKeyMismatch)
    } else if sender@ != st.sender@ {
        Some(MessengerError::PdaSenderMismatch)
    } else if !spec_identity_address_matches(sender@, st.from_chain_id, program_id, accs[5].pubkey@) {
        Some(MessengerError::SenderDerivedKeyMismatch)
    } else if !spec_identity_address_matches(
        st.receiver@,
        st.from_chain_id,
        program_id,
        accs[6].pubkey@,
    ) {
        Some(MessengerError::ReceiverDerivedKeyMismatch)
    } else if !spec_stream_ok(data) {
        Some(MessengerError::InvalidPayload)
    } else if spec_le_u64_at(data, 24) != st.amount {
        Some(MessengerError::AmountMismatch)
    } else if spec_le_u64_at(data, 8) != st.start_time {
        Some(MessengerError::StartTimeMismatch)
    } else if spec_le_u64_at(data, 16) != st.end_time {
        Some(MessengerError::EndTimeMismatch)
    } else if (data[32] == 1) != st.can_cancel {
        Some(MessengerError::CanCancelMismatch)
    } else if (data[33] == 1) != st.can_update {
        Some(MessengerError::CanUpdateMismatch)
    } else {
        None
    }
}

/// Stages a stream-create transaction for a later execute call.
///
/// With the execution guard fresh, the body is staged (latch cleared)
/// before the checks run, so a check failure leaves the transaction
/// staged; the checks run in `stream_create_outcome` order.
pub fn create_transaction_stream(
    txn_status: &ExecutionStatus,
    transaction: &mut StagedTransaction,
    data_storage: &StagedOperation,
    program_id: &[u8; 32],
    pid: [u8; 32],
    accs: Vec<TransactionAccount>,
    data: Vec<u8>,
    sender: [u8; 32],
) -> (r: Result<(), MessengerError>)
    ensures
        txn_status.executed ==> r == Err::<(), MessengerError>(
            MessengerError::TransactionAlreadyCreated,
        ) && *final(transaction) == *old(transaction),
        !txn_status.executed ==> *final(transaction) == (StagedTransaction {
            program_id: pid,
            accounts: accs,
            data,
            did_execute: false,
        }) && match stream_create_outcome(accs@, data@, sender, *data_storage, program_id@) {
            Some(e) => r == Err::<(), MessengerError>(e),
            None => r is Ok,
        },
{
    if txn_status.executed {
        return Err(MessengerError::TransactionAlreadyCreated);
    }
    // Stage the transaction body before any check.
    transaction.program_id = pid;
    transaction.accounts = accs;
    transaction.did_execute = false;
    transaction.data = data;

    if transaction.accounts.len() <= 9 {
        return Err(MessengerError::MintKeyMismatch);
    }
    let mint_acc = transaction.accounts[9];
    if !bytes32_equal(&mint_acc.pubkey, &data_storage.token_mint) {
        return Err(MessengerError::MintKeyMismatch);
    }
    if !bytes32_equal(&sender, &data_storage.sender) {
        return Err(MessengerError::PdaSenderMismatch);
    }
    let sender_acc = transaction.accounts[5];
    match derive_identity_address(&sender, data_storage.from_chain_id, program_id) {
        None => {
            return Err(MessengerError::SenderDerivedKeyMismatch);
        },
        Some((derived_key, _bump)) => {
            if !bytes32_equal(&sender_acc.pubkey, &derived_key) {
                return Err(MessengerError::SenderDerivedKeyMismatch);
            }
        },
    }
    let receiver_acc = transaction.accounts[6];
    match derive_identity_address(&data_storage.receiver, data_storage.from_chain_id, program_id) {
        None => {
            return Err(MessengerError::ReceiverDerivedKeyMismatch);
        },
        Some((derived_key, _bump)) => {
            if !bytes32_equal(&receiver_acc.pubkey, &derived_key) {
                return Err(MessengerError::ReceiverDerivedKeyMismatch);
            }
        },
    }
    match decode_stream(transaction.data.as_slice()) {
        None => {
            return Err(MessengerError::InvalidPayload);
        },
        Some(record) => {
            if record.amount != data_storage.amount {
                return Err(MessengerError::AmountMismatch);
            }
            if record.start_time != data_storage.start_time {
                return Err(MessengerError::StartTimeMismatch);
            }
            if record.end_time != data_storage.end_time {
                return Err(MessengerError::EndTimeMismatch);
            }
            if record.can_cancel != data_storage.can_cancel {
                return Err(MessengerError::CanCancelMismatch);
            }
            if record.can_update != data_storage.can_update {
                return Err(MessengerError::CanUpdateMismatch);
            }
        },
    }
    Ok(())
}

/// The first check a stream-update transaction fails, if any: the mint at
/// position 4, the data account at position 0, the authenticated sender,
/// the derived addresses at positions 2 and 3, and the stream-update
/// record against the staged operation.
pub open spec fn stream_update_outcome(
    accs: Seq<TransactionAccount>,
    data: Seq<u8>,
    sender: [u8; 32],
    st: StagedOperation,
    program_id: Seq<u8>,
) -> Option<MessengerError> {
    if !(accs.len() > 4 && accs[4].pubkey@ == st.token_mint@) {
        Some(MessengerError::MintKeyMismatch)
    } else if accs[0].pubkey@ != st.data_account@ {
        Some(MessengerError::DataAccountMismatch)
    } else if sender@ != st.sender@ {
        Some(MessengerError::PdaSenderMismatch)
    } else if !spec_identity_address_matches(sender@, st.from_chain_id, program_id, accs[2].pubkey@) {
        Some(MessengerError::SenderDerivedKeyMismatch)
    } else if !spec_identity_address_matches(
        st.receiver@,
        st.from_chain_id,
        program_id,
        accs[3].pubkey@,
    ) {
        Some(MessengerError::ReceiverDerivedKeyMismatch)
    } else if !spec_stream_update_ok(data) {
        Some(MessengerError::InvalidPayload)
    } else if spec_le_u64_at(data, 24) != st.amount {
        Some(MessengerError::AmountMismatch)
    } else if spec_le_u64_at(data, 8) != st.start_time {
        Some(MessengerError::StartTimeMismatch)
    } else if spec_le_u64_at(data, 16) != st.end_time {
        Some(MessengerError::EndTimeMismatch)
    } else {
        None
    }
}

/// Stages and immediately executes a stream-update transaction, under the
/// same staging-then-checks discipline as the deposit path.
pub fn transaction_stream_update(
    txn_status: &ExecutionStatus,
    transaction: &mut StagedTransaction,
    data_storage: &StagedOperation,
    program_id: &[u8; 32],
    pid: [u8; 32],
    accs: Vec<TransactionAccount>,
    data: Vec<u8>,
    chain_id: Vec<u8>,
    sender: [u8; 32],
) -> (r: Result<CpiRequest, MessengerError>)
    ensures
        txn_status.executed ==> r == Err::<CpiRequest, MessengerError>(
            MessengerError::TransactionAlreadyCreated,
        ) && *final(transaction) == *old(transaction),
        !txn_status.executed ==> final(transaction).program_id == pid
            && final(transaction).accounts@ == accs@ && final(transaction).data@ == data@
            && match stream_update_outcome(accs@, data@, sender, *data_storage, program_id@) {
            Some(e) => r == Err::<CpiRequest, MessengerError>(e) && final(transaction).did_execute
                == old(transaction).did_execute,
            None => final(transaction).did_execute && match derived_address_of(
                sender@,
                chain_id@,
                program_id@,
            ) {
                Some(p) => r matches Ok(req) && spec_cpi_request_for(
                    req,
                    *final(transaction),
                    sender,
                    chain_id@,
                    p,
                ),
                None => r == Err::<CpiRequest, MessengerError>(MessengerError::InvalidCPI),
            },
        },
{
    if txn_status.executed {
        return Err(MessengerError::TransactionAlreadyCreated);
    }
    // Stage the transaction body before any check.
    transaction.program_id = pid;
    transaction.accounts = accs;
    transaction.data = data;

    if transaction.accounts.len() <= 4 {
        return Err(MessengerError::MintKeyMismatch);
    }
    let mint_acc = transaction.accounts[4];
    if !bytes32_equal(&mint_acc.pubkey, &data_storage.token_mint) {
        return Err(MessengerError::MintKeyMismatch);
    }
    let data_acc = transaction.accounts[0];
    if !bytes32_equal(&data_acc.pubkey, &data_storage.data_account) {
        return Err(MessengerError::DataAccountMismatch);
    }
    if !bytes32_equal(&sender, &data_storage.sender) {
        return Err(MessengerError::PdaSenderMismatch);
    }
    let sender_acc = transaction.accounts[2];
    match derive_identity_address(&sender, data_storage.from_chain_id, program_id) {
        None => {
            return Err(MessengerError::SenderDerivedKeyMismatch);
        },
        Some((derived_key, _bump)) => {
            if !bytes32_equal(&sender_acc.pubkey, &derived_key) {
                return Err(MessengerError::SenderDerivedKeyMismatch);
            }
        },
    }
    let receiver_acc = transaction.accounts[3];
    match derive_identity_address(&data_storage.receiver, data_storage.from_chain_id, program_id) {
        None => {
            return Err(MessengerError::ReceiverDerivedKeyMismatch);
        },
        Some((derived_key, _bump)) => {
            if !bytes32_equal(&receiver_acc.pubkey, &derived_key) {
                return Err(MessengerError::ReceiverDerivedKeyMismatch);
            }
        },
    }
    match decode_stream_update(transaction.data.as_slice()) {
        None => {
            return Err(MessengerError::InvalidPayload);
        },
        Some(record) => {
            if record.amount != data_storage.amount {
                return Err(MessengerError::AmountMismatch);
            }
            if record.start_time != data_storage.start_time {
                return Err(MessengerError::StartTimeMismatch);
            }
            if record.end_time != data_storage.end_time {
                return Err(MessengerError::EndTimeMismatch);
            }
        },
    }
    // Burn the transaction before handing out the invocation.
    transaction.did_execute = true;
    match build_cpi_request(transaction, sender, chain_id, program_id) {
        None => Err(MessengerError::InvalidCPI),
        Some(req) => Ok(req),
    }
}

/// The first check a pause/resume transaction fails, if any: the data
/// account at position 2, the authenticated sender, and the derived
/// addresses at positions 0 and 1.
pub open spec fn pause_resume_outcome(
    accs: Seq<TransactionAccount>,
    sender: [u8; 32],
    st: StagedOperation,
    program_id: Seq<u8>,
) -> Option<MessengerError> {
    if !(accs.len() > 2 && accs[2].pubkey@ == st.data_account@) {
        Some(MessengerError::DataAccountMismatch)
    } else if sender@ != st.sender@ {
        Some(MessengerError::PdaSenderMismatch)
    } else if !spec_identity_address_matches(sender@, st.from_chain_id, program_id, accs[0].pubkey@) {
        Some(MessengerError::SenderDerivedKeyMismatch)
    } else if !spec_identity_address_matches(
        st.receiver@,
        st.from_chain_id,
        program_id,
        accs[1].pubkey@,
    ) {
        Some(MessengerError::ReceiverDerivedKeyMismatch)
    } else {
        None
    }
}

/// Stages and immediately executes a pause/resume transaction, under the
/// same staging-then-checks discipline as the deposit path.
pub fn transaction_pause_resume(
    txn_status: &ExecutionStatus,
    transaction: &mut StagedTransaction,
    data_storage: &StagedOperation,
    program_id: &[u8; 32],
    pid: [u8; 32],
    accs: Vec<TransactionAccount>,
    data: Vec<u8>,
    chain_id: Vec<u8>,
    sender: [u8; 32],
) -> (r: Result<CpiRequest, MessengerError>)
    ensures
        txn_status.executed ==> r == Err::<CpiRequest, MessengerError>(
            MessengerError::TransactionAlreadyCreated,
        ) && *final(transaction) == *old(transaction),
        !txn_status.executed ==> final(transaction).program_id == pid
            && final(transaction).accounts@ == accs@ && final(transaction).data@ == data@
            && match pause_resume_outcome(accs@, sender, *data_storage, program_id@) {
            Some(e) => r == Err::<CpiRequest, MessengerError>(e) && final(transaction).did_execute
                == old(transaction).did_execute,
            None => final(transaction).did_execute && match derived_address_of(
                sender@,
                chain_id@,
                program_id@,
            ) {
                Some(p) => r matches Ok(req) && spec_cpi_request_for(
                    req,
                    *final(transaction),
                    sender,
                    chain_id@,
                    p,
                ),
                None => r == Err::<CpiRequest, MessengerError>(MessengerError::InvalidCPI),
            },
        },
{
    if txn_status.executed {
        return Err(MessengerError::TransactionAlreadyCreated);
    }
    // Stage the transaction body before any check.
    transaction.program_id = pid;
    transaction.accounts = accs;
    transaction.data = data;

    if transaction.accounts.len() <= 2 {
        return Err(MessengerError::DataAccountMismatch);
    }
    let data_acc = transaction.accounts[2];
    if !bytes32_equal(&data_acc.pubkey, &data_storage.data_account) {
        return Err(MessengerError::DataAccountMismatch);
    }
    if !bytes32_equal(&sender, &data_storage.sender) {
        return Err(MessengerError::PdaSenderMismatch);
    }
    let sender_acc = transaction.accounts[0];
    match derive_identity_address(&sender, data_storage.from_chain_id, program_id) {
        None => {
            return Err(MessengerError::SenderDerivedKeyMismatch);
        },
        Some((derived_key, _bump)) => {
            if !bytes32_equal(&sender_acc.pubkey, &derived_key) {
                return Err(MessengerError::SenderDerivedKeyMismatch);
            }
        },
    }
    let receiver_acc = transaction.accounts[1];
    match derive_identity_address(&data_storage.receiver, data_storage.from_chain_id, program_id) {
        None => {
            return Err(MessengerError::ReceiverDerivedKeyMismatch);
        },
        Some((derived_key, _bump)) => {
            if !bytes32_equal(&receiver_acc.pubkey, &derived_key) {
                return Err(MessengerError::ReceiverDerivedKeyMismatch);
            }
        },
    }
    // Burn the transaction before handing out the invocation.
    transaction.did_execute = true;
    match build_cpi_request(transaction, sender, chain_id, program_id) {
        None => Err(MessengerError::InvalidCPI),
        Some(req) => Ok(req),
    }
}

/// The first check a receiver-withdraw transaction fails, if any: the
/// mint at position 12, the data account at position 6, the authenticated
/// withdrawer against the staged receiver, and the derived addresses at
/// positions 2 (from the staged sender) and 1 (from the staged receiver).
pub open spec fn receiver_withdraw_outcome(
    accs: Seq<TransactionAccount>,
    sender: [u8; 32],
    st: StagedOperation,
    program_id: Seq<u8>,
) -> Option<MessengerError> {
    if !(accs.len() > 12 && accs[12].pubkey@ == st.token_mint@) {
        Some(MessengerError::MintKeyMismatch)
    } else if accs[6].pubkey@ != st.data_account@ {
        Some(MessengerError::DataAccountMismatch)
    } else if sender@ != st.receiver@ {
        Some(MessengerError::PdaReceiverMismatch)
    } else if !spec_identity_address_matches(
        st.sender@,
        st.from_chain_id,
        program_id,
        accs[2].pubkey@,
    ) {
        Some(MessengerError::SenderDerivedKeyMismatch)
    } else if !spec_identity_address_matches(
        st.receiver@,
        st.from_chain_id,
        program_id,
        accs[1].pubkey@,
    ) {
        Some(MessengerError::ReceiverDerivedKeyMismatch)
    } else {
        None
    }
}

/// Stages a receiver-withdraw transaction — the caller is the stream's
/// token receiver — for a later execute call.
pub fn create_transaction_receiver_withdraw(
    txn_status: &ExecutionStatus,
    transaction: &mut StagedTransaction,
    data_storage: &StagedOperation,
    program_id: &[u8; 32],
    pid: [u8; 32],
    accs: Vec<TransactionAccount>,
    data: Vec<u8>,
    sender: [u8; 32],
) -> (r: Result<(), MessengerError>)
    ensures
        txn_status.executed ==> r == Err::<(), MessengerError>(
            MessengerError::TransactionAlreadyCreated,
        ) && *final(transaction) == *old(transaction),
        !txn_status.executed ==> *final(transaction) == (StagedTransaction {
            program_id: pid,
            accounts: accs,
            data,
            did_execute: false,
        }) && match receiver_withdraw_outcome(accs@, sender, *data_storage, program_id@) {
            Some(e) => r == Err::<(), MessengerError>(e),
            None => r is Ok,
        },
{
    if txn_status.executed {
        return Err(MessengerError::TransactionAlreadyCreated);
    }
    // Stage the transaction body before any check.
    transaction.program_id = pid;
    transaction.accounts = accs;
    transaction.did_execute = false;
    transaction.data = data;

    if transaction.accounts.len() <= 12 {
        return Err(MessengerError::MintKeyMismatch);
    }
    let mint_acc = transaction.accounts[12];
    if !bytes32_equal(&mint_acc.pubkey, &data_storage.token_mint) {
        return Err(MessengerError::MintKeyMismatch);
    }
    let data_acc = transaction.accounts[6];
    if !bytes32_equal(&data_acc.pubkey, &data_storage.data_account) {
        return Err(MessengerError::DataAccountMismatch);
    }
    if !bytes32_equal(&sender, &data_storage.receiver) {
        return Err(MessengerError::PdaReceiverMismatch);
    }
    let sender_acc = transaction.accounts[2];
    match derive_identity_address(&data_storage.sender, data_storage.from_chain_id, program_id) {
        None => {
            return Err(MessengerError::SenderDerivedKeyMismatch);
        },
        Some((derived_key, _bump)) => {
            if !bytes32_equal(&sender_acc.pubkey, &derived_key) {
                return Err(MessengerError::SenderDerivedKeyMismatch);
            }
        },
    }
    let receiver_acc = transaction.accounts[1];
    match derive_identity_address(&data_storage.receiver, data_storage.from_chain_id, program_id) {
        None => {
            return Err(MessengerError::ReceiverDerivedKeyMismatch);
        },
        Some((derived_key, _bump)) => {
            if !bytes32_equal(&receiver_acc.pubkey, &derived_key) {
                return Err(MessengerError::ReceiverDerivedKeyMismatch);
            }
        },
    }
    Ok(())
}

/// The first check a cancel transaction fails, if any: the mint at
/// position 12, the data account at position 6, the authenticated sender,
/// and the derived addresses at positions 2 and 1.
pub open spec fn cancel_outcome(
    accs: Seq<TransactionAccount>,
    sender: [u8; 32],
    st: StagedOperation,
    program_id: Seq<u8>,
) -> Option<MessengerError> {
    if !(accs.len() > 12 && accs[12].pubkey@ == st.token_mint@) {
        Some(MessengerError::MintKeyMismatch)
    } else if accs[6].pubkey@ != st.data_account@ {
        Some(MessengerError::DataAccountMismatch)
    } else if sender@ != st.sender@ {
        Some(MessengerError::PdaSenderMismatch)
    } else if !spec_identity_address_matches(sender@, st.from_chain_id, program_id, accs[2].pubkey@) {
        Some(MessengerError::SenderDerivedKeyMismatch)
    } else if !spec_identity_address_matches(
        st.receiver@,
        st.from_chain_id,
        program_id,
        accs[1].pubkey@,
    ) {
        Some(MessengerError::ReceiverDerivedKeyMismatch)
    } else {
        None
    }
}

/// Stages a stream-cancel transaction for a later execute call.
pub fn create_transaction_cancel(
    txn_status: &ExecutionStatus,
    transaction: &mut StagedTransaction,
    data_storage: &StagedOperation,
    program_id: &[u8; 32],
    pid: [u8; 32],
    accs: Vec<TransactionAccount>,
    data: Vec<u8>,
    sender: [u8; 32],
) -> (r: Result<(), MessengerError>)
    ensures
        txn_status.executed ==> r == Err::<(), MessengerError>(
            MessengerError::TransactionAlreadyCreated,
        ) && *final(transaction) == *old(transaction),
        !txn_status.executed ==> *final(transaction) == (StagedTransaction {
            program_id: pid,
            accounts: accs,
            data,
            did_execute: false,
        }) && match cancel_outcome(accs@, sender, *data_storage, program_id@) {
            Some(e) => r == Err::<(), MessengerError>(e),
            None => r is Ok,
        },
{
    if txn_status.executed {
        return Err(MessengerError::TransactionAlreadyCreated);
    }
    // Stage the transaction body before any check.
    transaction.program_id = pid;
    transaction.accounts = accs;
    transaction.did_execute = false;
    transaction.data = data;

    if transaction.accounts.len() <= 12 {
        return Err(MessengerError::MintKeyMismatch);
    }
    let mint_acc = transaction.accounts[12];
    if !bytes32_equal(&mint_acc.pubkey, &data_storage.token_mint) {
        return Err(MessengerError::MintKeyMismatch);
    }
    let data_acc = transaction.accounts[6];
    if !bytes32_equal(&data_acc.pubkey, &data_storage.data_account) {
        return Err(MessengerError::DataAccountMismatch);
    }
    if !bytes32_equal(&sender, &data_storage.sender) {
        return Err(MessengerError::PdaSenderMismatch);
    }
    let sender_acc = transaction.accounts[2];
    match derive_identity_address(&sender, data_storage.from_chain_id, program_id) {
        None => {
            return Err(MessengerError::SenderDerivedKeyMismatch);
        },
        Some((derived_key, _bump)) => {
            if !bytes32_equal(&sender_acc.pubkey, &derived_key) {
                return Err(MessengerError::SenderDerivedKeyMismatch);
            }
        },
    }
    let receiver_acc = transaction.accounts[1];
    match derive_identity_address(&data_storage.receiver, data_storage.from_chain_id, program_id) {
        None => {
            return Err(MessengerError::ReceiverDerivedKeyMismatch);
        },
        Some((derived_key, _bump)) => {
            if !bytes32_equal(&receiver_acc.pubkey, &derived_key) {
                return Err(MessengerError::ReceiverDerivedKeyMismatch);
            }
        },
    }
    Ok(())
}

/// The first check a sender-withdraw transaction fails, if any: the mint
/// at position 7, the authenticated sender, the sender-derived address at
/// position 2, and the amount record against the staged operation.
pub open spec fn sender_withdraw_outcome(
    accs: Seq<TransactionAccount>,
    data: Seq<u8>,
    sender: [u8; 32],
    st: StagedOperation,
    program_id: Seq<u8>,
) -> Option<MessengerError> {
    if !(accs.len() > 7 && accs[7].pubkey@ == st.token_mint@) {
        Some(MessengerError::MintKeyMismatch)
    } else if sender@ != st.sender@ {
        Some(MessengerError::PdaSenderMismatch)
    } else if !spec_identity_address_matches(sender@, st.from_chain_id, program_id, accs[2].pubkey@) {
        Some(MessengerError::SenderDerivedKeyMismatch)
    } else if !spec_token_amount_ok(data) {
        Some(MessengerError::InvalidPayload)
    } else if spec_le_u64_at(data, 8) != st.amount {
        Some(MessengerError::AmountMismatch)
    } else {
        None
    }
}

/// Stages a sender-withdraw transaction — the depositor reclaims its own
/// deposit — for a later execute call.
pub fn create_transaction_sender_withdraw(
    txn_status: &ExecutionStatus,
    transaction: &mut StagedTransaction,
    data_storage: &StagedOperation,
    program_id: &[u8; 32],
    pid: [u8; 32],
    accs: Vec<TransactionAccount>,
    data: Vec<u8>,
    sender: [u8; 32],
) -> (r: Result<(), MessengerError>)
    ensures
        txn_status.executed ==> r == Err::<(), MessengerError>(
            MessengerError::TransactionAlreadyCreated,
        ) && *final(transaction) == *old(transaction),
        !txn_status.executed ==> *final(transaction) == (StagedTransaction {
            program_id: pid,
            accounts: accs,
            data,
            did_execute: false,
        }) && match sender_withdraw_outcome(accs@, data@, sender, *data_storage, program_id@) {
            Some(e) => r == Err::<(), MessengerError>(e),
            None => r is Ok,
        },
{
    if txn_status.executed {
        return Err(MessengerError::TransactionAlreadyCreated);
    }
    // Stage the transaction body before any check.
    transaction.program_id = pid;
    transaction.accounts = accs;
    transaction.did_execute = false;
    transaction.data = data;

    if transaction.accounts.len() <= 7 {
        return Err(MessengerError::MintKeyMismatch);
    }
    let mint_acc = transaction.accounts[7];
    if !bytes32_equal(&mint_acc.pubkey, &data_storage.token_mint) {
        return Err(MessengerError::MintKeyMismatch);
    }
    if !bytes32_equal(&sender, &data_storage.sender) {
        return Err(MessengerError::PdaSenderMismatch);
    }
    let sender_acc = transaction.accounts[2];
    match derive_identity_address(&sender, data_storage.from_chain_id, program_id) {
        None => {
            return Err(MessengerError::SenderDerivedKeyMismatch);
        },
        Some((derived_key, _bump)) => {
            if !bytes32_equal(&sender_acc.pubkey, &derived_key) {
                return Err(MessengerError::SenderDerivedKeyMismatch);
            }
        },
    }
    match decode_token_amount(transaction.data.as_slice()) {
        None => {
            return Err(MessengerError::InvalidPayload);
        },
        Some(record) => {
            if record.amount != data_storage.amount {
                return Err(MessengerError::AmountMismatch);
            }
        },
    }
    Ok(())
}

/// The first check an instant-transfer transaction fails, if any: the
/// mint at position 8, the authenticated sender, the derived addresses at
/// positions 2 and 1, and the amount record against the staged operation.
pub open spec fn instant_transfer_outcome(
    accs: Seq<TransactionAccount>,
    data: Seq<u8>,
    sender: [u8; 32],
    st: StagedOperation,
    program_id: Seq<u8>,
) -> Option<MessengerError> {
    if !(accs.len() > 8 && accs[8].pubkey@ == st.token_mint@) {
        Some(MessengerError::MintKeyMismatch)
    } else if sender@ != st.sender@ {
        Some(MessengerError::PdaSenderMismatch)
    } else if !spec_identity_address_matches(sender@, st.from_chain_id, program_id, accs[2].pubkey@) {
        Some(MessengerError::SenderDerivedKeyMismatch)
    } else if !spec_identity_address_matches(
        st.receiver@,
        st.from_chain_id,
        program_id,
        accs[1].pubkey@,
    ) {
        Some(MessengerError::ReceiverDerivedKeyMismatch)
    } else if !spec_token_amount_ok(data) {
        Some(MessengerError::InvalidPayload)
    } else if spec_le_u64_at(data, 8) != st.amount {
        Some(MessengerError::AmountMismatch)
    } else {
        None
    }
}

/// Stages an instant-transfer transaction for a later execute call.
pub fn create_transaction_instant_transfer(
    txn_status: &ExecutionStatus,
    transaction: &mut StagedTransaction,
    data_storage: &StagedOperation,
    program_id: &[u8; 32],
    pid: [u8; 32],
    accs: Vec<TransactionAccount>,
    data: Vec<u8>,
    sender: [u8; 32],
) -> (r: Result<(), MessengerError>)
    ensures
        txn_status.executed ==> r == Err::<(), MessengerError>(
            MessengerError::TransactionAlreadyCreated,
        ) && *final(transaction) == *old(transaction),
        !txn_status.executed ==> *final(transaction) == (StagedTransaction {
            program_id: pid,
            accounts: accs,
            data,
            did_execute: false,
        }) && match instant_transfer_outcome(accs@, data@, sender, *data_storage, program_id@) {
            Some(e) => r == Err::<(), MessengerError>(e),
            None => r is Ok,
        },
{
    if txn_status.executed {
        return Err(MessengerError::TransactionAlreadyCreated);
    }
    // Stage the transaction body before any check.
    transaction.program_id = pid;
    transaction.accounts = accs;
    transaction.did_execute = false;
    transaction.data = data;

    if transaction.accounts.len() <= 8 {
        return Err(MessengerError::MintKeyMismatch);
    }
    let mint_acc = transaction.accounts[8];
    if !bytes32_equal(&mint_acc.pubkey, &data_storage.token_mint) {
        return Err(MessengerError::MintKeyMismatch);
    }
    if !bytes32_equal(&sender, &data_storage.sender) {
        return Err(MessengerError::PdaSenderMismatch);
    }
    let sender_acc = transaction.accounts[2];
    match derive_identity_address(&sender, data_storage.from_chain_id, program_id) {
        None => {
            return Err(MessengerError::SenderDerivedKeyMismatch);
        },
        Some((derived_key, _bump)) => {
            if !bytes32_equal(&sender_acc.pubkey, &derived_key) {
                return Err(MessengerError::SenderDerivedKeyMismatch);
            }
        },
    }
    let receiver_acc = transaction.accounts[1];
    match derive_identity_address(&data_storage.receiver, data_storage.from_chain_id, program_id) {
        None => {
            return Err(MessengerError::ReceiverDerivedKeyMismatch);
        },
        Some((derived_key, _bump)) => {
            if !bytes32_equal(&receiver_acc.pubkey, &derived_key) {
                return Err(MessengerError::ReceiverDerivedKeyMismatch);
            }
        },
    }
    match decode_token_amount(transaction.data.as_slice()) {
        None => {
            return Err(MessengerError::InvalidPayload);
        },
        Some(record) => {
            if record.amount != data_storage.amount {
                return Err(MessengerError::AmountMismatch);
            }
        },
    }
    Ok(())
}

} // verus!
