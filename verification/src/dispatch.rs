//! Message intake and dispatch: authenticity gates, replay-independent
//! counting, payload decoding, and the staging of the decoded operation.
//!
//! `store_msg` is atomic: a rejected message leaves the counter and the
//! staged operation exactly as they were.

use vstd::prelude::*;

use crate::bytes::{bytes32_equal, slice_equals_bytes32};
use crate::codec::{
    decode_payload, lemma_payload_round_trip, payload_decodes_to, payload_length,
    spec_encode_payload, spec_payload_ok, Payload, OP_CANCEL_STREAM, OP_PAUSE, OP_STREAM,
    OP_UPDATE_STREAM, OP_WITHDRAW_STREAM,
};
use crate::errors::MessengerError;
use crate::registry::{hex_decode, spec_hex_decode, spec_hex_decodes, EmitterRegistration};
use crate::state::{StagedOperation, TransactionCounter};
use crate::vaa::{posted_vaa_address, spec_posted_vaa_address, MessageRecord};

verus! {

/// Whether the supplied message account sits at exactly the address the
/// bridge would assign to the posted record of `vaa`. A failed derivation
/// matches no account.
pub open spec fn spec_vaa_key_ok(vaa: MessageRecord, core_bridge: Seq<u8>, supplied: Seq<u8>) -> bool {
    match spec_posted_vaa_address(vaa, core_bridge) {
        Some(p) => supplied == p.0@,
        None => false,
    }
}

/// Whether the message's claimed emitter chain and address equal the
/// registered emitter: the chain identifiers match, the registered hex
/// string decodes, and its bytes equal the claimed 32-byte address.
pub open spec fn spec_emitter_ok(vaa: MessageRecord, registration: EmitterRegistration) -> bool {
    &&& vaa.emitter_chain == registration.chain_id
    &&& spec_hex_decodes(registration.emitter_addr@)
    &&& vaa.emitter_address@ == spec_hex_decode(registration.emitter_addr@)
}

/// The identity a payload must prove control of: the embedded sender, or,
/// for the withdraw-stream kind, the embedded withdrawer (receiver).
pub open spec fn spec_payload_signer(s: Seq<u8>) -> Seq<u8>
    recommends
        spec_payload_ok(s),
{
    if s[0] == OP_STREAM || s[0] == OP_UPDATE_STREAM {
        s.subrange(57, 89)
    } else if s[0] == OP_WITHDRAW_STREAM || s[0] == OP_PAUSE || s[0] == OP_CANCEL_STREAM {
        s.subrange(33, 65)
    } else {
        s.subrange(41, 73)
    }
}

/// How a decoded payload overwrites the staged operation: each kind writes
/// exactly its own fields and leaves every other field unchanged.
pub open spec fn staged_after(
    old_st: StagedOperation,
    new_st: StagedOperation,
    p: Payload,
    from_chain_id: u16,
) -> bool {
    match p {
        Payload::Deposit { amount, to_chain, sender, token_mint } => new_st == (StagedOperation {
            amount,
            sender,
            from_chain_id: from_chain_id as u64,
            token_mint,
            ..old_st
        }),
        Payload::StreamCreate {
            start_time,
            end_time,
            amount,
            to_chain,
            sender,
            receiver,
            can_update,
            can_cancel,
            token_mint,
        } => new_st == (StagedOperation {
            start_time,
            end_time,
            can_update: can_update == 1,
            can_cancel: can_cancel == 1,
            amount,
            sender,
            receiver,
            from_chain_id: from_chain_id as u64,
            token_mint,
            ..old_st
        }),
        Payload::StreamUpdate {
            start_time,
            end_time,
            amount,
            to_chain,
            sender,
            receiver,
            token_mint,
            data_account,
        } => new_st == (StagedOperation {
            start_time,
            end_time,
            amount,
            sender,
            receiver,
            from_chain_id: from_chain_id as u64,
            token_mint,
            data_account,
            ..old_st
        }),
        Payload::Pause { to_chain, sender, token_mint, receiver, data_account } => new_st == (
        StagedOperation {
            sender,
            receiver,
            from_chain_id: from_chain_id as u64,
            token_mint,
            data_account,
            ..old_st
        }),
        Payload::WithdrawStream { to_chain, withdrawer, token_mint, depositor, data_account } => new_st
            == (StagedOperation {
            sender: depositor,
            receiver: withdrawer,
            from_chain_id: from_chain_id as u64,
            token_mint,
            data_account,
            ..old_st
        }),
        Payload::CancelStream { to_chain, sender, token_mint, receiver, data_account } => new_st
            == (StagedOperation {
            sender,
            receiver,
            from_chain_id: from_chain_id as u64,
            token_mint,
            data_account,
            ..old_st
        }),
        Payload::Withdraw { amount, to_chain, withdrawer, token_mint } => new_st == (
        StagedOperation {
            sender: withdrawer,
            from_chain_id: from_chain_id as u64,
            token_mint,
            amount,
            ..old_st
        }),
        Payload::InstantTransfer { amount, to_chain, sender, token_mint, receiver } => new_st == (
        StagedOperation {
            sender,
            receiver,
            from_chain_id: from_chain_id as u64,
            token_mint,
            amount,
            ..old_st
        }),
        Payload::DirectTransfer { amount, to_chain, sender, token_mint, receiver } => new_st == (
        StagedOperation {
            sender,
            receiver,
            from_chain_id: from_chain_id as u64,
            token_mint,
            amount,
            ..old_st
        }),
    }
}

/// Decoding a message's payload and re-encoding the decoded fields into a
/// rebuilt message reproduces the canonical serialization byte for byte —
/// and with it the content hash and the deterministic message account
/// address. Holds for every payload of exactly its opcode's layout length.
pub proof fn lemma_reencoded_payload_reproduces_address(
    vaa: MessageRecord,
    rebuilt: MessageRecord,
    p: Payload,
    core_bridge: Seq<u8>,
)
    requires
        payload_decodes_to(vaa.payload@, p),
        vaa.payload@.len() == payload_length(vaa.payload@[0]),
        rebuilt.payload@ == spec_encode_payload(p),
        rebuilt.vaa_time == vaa.vaa_time,
        rebuilt.nonce == vaa.nonce,
        rebuilt.emitter_chain == vaa.emitter_chain,
        rebuilt.emitter_address == vaa.emitter_address,
        rebuilt.sequence == vaa.sequence,
        rebuilt.consistency_level == vaa.consistency_level,
    ensures
        crate::vaa::spec_serialize_vaa(rebuilt) == crate::vaa::spec_serialize_vaa(vaa),
        spec_posted_vaa_address(rebuilt, core_bridge) == spec_posted_vaa_address(vaa, core_bridge),
{
    lemma_payload_round_trip(vaa.payload@, p);
}

/// Verifies an inbound attested message and stages the operation it
/// carries.
///
/// The gates run in a fixed order, and the first to fail names the error:
/// the supplied message account must be the deterministic address of the
/// message's posted record (`VAAKeyMismatch`); the claimed emitter chain
/// and address must equal the registration (`VAAEmitterMismatch`); the
/// message counter must have room (`Overflow`); the payload must decode
/// (`InvalidPayload`); and the payload's embedded identity must equal the
/// caller-authenticated `sender` (`InvalidSenderWallet`). On failure
/// nothing is mutated. On success the counter rises by exactly 1, the
/// staged operation is overwritten as `staged_after` says, and the decoded
/// payload is returned.
pub fn store_msg(
    emitter_acc: &EmitterRegistration,
    txn_count: &mut TransactionCounter,
    data_storage: &mut StagedOperation,
    core_bridge: &[u8; 32],
    vaa_account_key: &[u8; 32],
    vaa: &MessageRecord,
    sender: &[u8; 32],
) -> (r: Result<Payload, MessengerError>)
    ensures
        r is Err ==> *final(txn_count) == *old(txn_count) && *final(data_storage) == *old(
            data_storage,
        ),
        !spec_vaa_key_ok(*vaa, core_bridge@, vaa_account_key@) <==> r == Err::<
            Payload,
            MessengerError,
        >(MessengerError::VAAKeyMismatch),
        spec_vaa_key_ok(*vaa, core_bridge@, vaa_account_key@) && !spec_emitter_ok(
            *vaa,
            *emitter_acc,
        ) <==> r == Err::<Payload, MessengerError>(MessengerError::VAAEmitterMismatch),
        spec_vaa_key_ok(*vaa, core_bridge@, vaa_account_key@) && spec_emitter_ok(
            *vaa,
            *emitter_acc,
        ) && old(txn_count).count == u64::MAX <==> r == Err::<Payload, MessengerError>(
            MessengerError::Overflow,
        ),
        spec_vaa_key_ok(*vaa, core_bridge@, vaa_account_key@) && spec_emitter_ok(
            *vaa,
            *emitter_acc,
        ) && old(txn_count).count < u64::MAX && !spec_payload_ok(vaa.payload@) <==> r == Err::<
            Payload,
            MessengerError,
        >(MessengerError::InvalidPayload),
        spec_vaa_key_ok(*vaa, core_bridge@, vaa_account_key@) && spec_emitter_ok(
            *vaa,
            *emitter_acc,
        ) && old(txn_count).count < u64::MAX && spec_payload_ok(vaa.payload@)
            && spec_payload_signer(vaa.payload@) != sender@ <==> r == Err::<
            Payload,
            MessengerError,
        >(MessengerError::InvalidSenderWallet),
        spec_vaa_key_ok(*vaa, core_bridge@, vaa_account_key@) && spec_emitter_ok(
            *vaa,
            *emitter_acc,
        ) && old(txn_count).count < u64::MAX && spec_payload_ok(vaa.payload@)
            && spec_payload_signer(vaa.payload@) == sender@ <==> r is Ok,
        r matches Ok(p) ==> {
            &&& spec_vaa_key_ok(*vaa, core_bridge@, vaa_account_key@)
            &&& spec_emitter_ok(*vaa, *emitter_acc)
            &&& spec_payload_ok(vaa.payload@)
            &&& payload_decodes_to(vaa.payload@, p)
            &&& spec_payload_signer(vaa.payload@) == sender@
            &&& final(txn_count).count == old(txn_count).count + 1
            &&& staged_after(*old(data_storage), *final(data_storage), p, vaa.emitter_chain)
        },
{
    // Authenticity gate 1: the supplied account must be the deterministic
    // address of this message's posted record.
    match posted_vaa_address(vaa, core_bridge) {
        None => {
            return Err(MessengerError::VAAKeyMismatch);
        },
        Some((key, _bump)) => {
            if !bytes32_equal(&key, vaa_account_key) {
                return Err(MessengerError::VAAKeyMismatch);
            }
        },
    }
    // Authenticity gate 2: the claimed emitter must be the registered one.
    if vaa.emitter_chain != emitter_acc.chain_id {
        return Err(MessengerError::VAAEmitterMismatch);
    }
    match hex_decode(emitter_acc.emitter_addr.as_slice()) {
        None => {
            return Err(MessengerError::VAAEmitterMismatch);
        },
        Some(decoded) => {
            if !slice_equals_bytes32(&decoded, &vaa.emitter_address) {
                return Err(MessengerError::VAAEmitterMismatch);
            }
        },
    }
    // The counter must have room for this message.
    if txn_count.count == u64::MAX {
        return Err(MessengerError::Overflow);
    }
    // Decode and route on the opcode.
    let payload = match decode_payload(vaa.payload.as_slice()) {
        Err(e) => {
            return Err(e);
        },
        Ok(p) => p,
    };
    // The embedded identity must be the caller-authenticated one.
    let signer_ok = match &payload {
        Payload::Deposit { sender: embedded, .. } => bytes32_equal(embedded, sender),
        Payload::StreamCreate { sender: embedded, .. } => bytes32_equal(embedded, sender),
        Payload::StreamUpdate { sender: embedded, .. } => bytes32_equal(embedded, sender),
        Payload::Pause { sender: embedded, .. } => bytes32_equal(embedded, sender),
        Payload::WithdrawStream { withdrawer, .. } => bytes32_equal(withdrawer, sender),
        Payload::CancelStream { sender: embedded, .. } => bytes32_equal(embedded, sender),
        Payload::Withdraw { withdrawer, .. } => bytes32_equal(withdrawer, sender),
        Payload::InstantTransfer { sender: embedded, .. } => bytes32_equal(embedded, sender),
        Payload::DirectTransfer { sender: embedded, .. } => bytes32_equal(embedded, sender),
    };
    if !signer_ok {
        return Err(MessengerError::InvalidSenderWallet);
    }
    txn_count.count = txn_count.count + 1;
    match &payload {
        Payload::Deposit { amount, to_chain: _, sender: embedded, token_mint } => {
            data_storage.amount = *amount;
            data_storage.sender = *embedded;
            data_storage.from_chain_id = vaa.emitter_chain as u64;
            data_storage.token_mint = *token_mint;
        },
        Payload::StreamCreate {
            start_time,
            end_time,
            amount,
            to_chain: _,
            sender: embedded,
            receiver,
            can_update,
            can_cancel,
            token_mint,
        } => {
            data_storage.start_time = *start_time;
            data_storage.end_time = *end_time;
            data_storage.can_update = *can_update == 1;
            data_storage.can_cancel = *can_cancel == 1;
            data_storage.amount = *amount;
            data_storage.sender = *embedded;
            data_storage.receiver = *receiver;
            data_storage.from_chain_id = vaa.emitter_chain as u64;
            data_storage.token_mint = *token_mint;
        },
        Payload::StreamUpdate {
            start_time,
            end_time,
            amount,
            to_chain: _,
            sender: embedded,
            receiver,
            token_mint,
            data_account,
        } => {
            data_storage.start_time = *start_time;
            data_storage.end_time = *end_time;
            data_storage.amount = *amount;
            data_storage.sender = *embedded;
            data_storage.receiver = *receiver;
            data_storage.from_chain_id = vaa.emitter_chain as u64;
            data_storage.token_mint = *token_mint;
            data_storage.data_account = *data_account;
        },
        Payload::Pause { to_chain: _, sender: embedded, token_mint, receiver, data_account } => {
            data_storage.sender = *embedded;
            data_storage.receiver = *receiver;
            data_storage.from_chain_id = vaa.emitter_chain as u64;
            data_storage.token_mint = *token_mint;
            data_storage.data_account = *data_account;
        },
        Payload::WithdrawStream {
            to_chain: _,
            withdrawer,
            token_mint,
            depositor,
            data_account,
        } => {
            data_storage.sender = *depositor;
            data_storage.receiver = *withdrawer;
            data_storage.from_chain_id = vaa.emitter_chain as u64;
            data_storage.token_mint = *token_mint;
            data_storage.data_account = *data_account;
        },
        Payload::CancelStream {
            to_chain: _,
            sender: embedded,
            token_mint,
            receiver,
            data_account,
        } => {
            data_storage.sender = *embedded;
            data_storage.receiver = *receiver;
            data_storage.from_chain_id = vaa.emitter_chain as u64;
            data_storage.token_mint = *token_mint;
            data_storage.data_account = *data_account;
        },
        Payload::Withdraw { amount, to_chain: _, withdrawer, token_mint } => {
            data_storage.sender = *withdrawer;
            data_storage.from_chain_id = vaa.emitter_chain as u64;
            data_storage.token_mint = *token_mint;
            data_storage.amount = *amount;
        },
        Payload::InstantTransfer { amount, to_chain: _, sender: embedded, token_mint, receiver } => {
            data_storage.sender = *embedded;
            data_storage.receiver = *receiver;
            data_storage.from_chain_id = vaa.emitter_chain as u64;
            data_storage.token_mint = *token_mint;
            data_storage.amount = *amount;
        },
        Payload::DirectTransfer { amount, to_chain: _, sender: embedded, token_mint, receiver } => {
            data_storage.sender = *embedded;
            data_storage.receiver = *receiver;
            data_storage.from_chain_id = vaa.emitter_chain as u64;
            data_storage.token_mint = *token_mint;
            data_storage.amount = *amount;
        },
    }
    Ok(payload)
}

} // verus!
