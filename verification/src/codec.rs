//! The binary payload codec: nine fixed-offset, big-endian layouts, one per
//! operation kind, demultiplexed by the opcode in byte 0.
//!
//! Decoding never truncates: a buffer shorter than its opcode's layout is
//! rejected, as is an unrecognized opcode. Every field sits at a fixed
//! offset determined solely by the opcode.

use vstd::prelude::*;

use crate::bytes::{be_u64_at, push_slice_range, push_u64_be, read_bytes32, spec_be_u64_at,
    spec_u64_to_be_bytes, lemma_u64_be_bytes_round_trip};
use crate::errors::MessengerError;
use crate::wide::{Wide256, lemma_wide_round_trip, push_wide_be, spec_wide_from_bytes,
    spec_wide_to_bytes, wide_from_be_bytes};

verus! {

pub const OP_STREAM: u8 = 2;

pub const OP_WITHDRAW_STREAM: u8 = 4;

pub const OP_DEPOSIT: u8 = 6;

pub const OP_PAUSE: u8 = 8;

pub const OP_WITHDRAW: u8 = 10;

pub const OP_INSTANT_TRANSFER: u8 = 12;

pub const OP_UPDATE_STREAM: u8 = 14;

pub const OP_CANCEL_STREAM: u8 = 16;

pub const OP_DIRECT_TRANSFER: u8 = 17;

/// A decoded inbound payload: one variant per opcode, each carrying the
/// typed fields of its layout.
///
/// `to_chain` is the destination-chain identifier, decoded but not consumed
/// beyond validation. The stream flags are kept as the 8-byte integers of
/// the wire; dispatch reads `1` as true.
#[derive(Clone, Debug, PartialEq, Eq)]
pub enum Payload {
    Deposit { amount: u64, to_chain: Wide256, sender: [u8; 32], token_mint: [u8; 32] },
    StreamCreate {
        start_time: u64,
        end_time: u64,
        amount: u64,
        to_chain: Wide256,
        sender: [u8; 32],
        receiver: [u8; 32],
        can_update: u64,
        can_cancel: u64,
        token_mint: [u8; 32],
    },
    StreamUpdate {
        start_time: u64,
        end_time: u64,
        amount: u64,
        to_chain: Wide256,
        sender: [u8; 32],
        receiver: [u8; 32],
        token_mint: [u8; 32],
        data_account: [u8; 32],
    },
    Pause {
        to_chain: Wide256,
        sender: [u8; 32],
        token_mint: [u8; 32],
        receiver: [u8; 32],
        data_account: [u8; 32],
    },
    WithdrawStream {
        to_chain: Wide256,
        withdrawer: [u8; 32],
        token_mint: [u8; 32],
        depositor: [u8; 32],
        data_account: [u8; 32],
    },
    CancelStream {
        to_chain: Wide256,
        sender: [u8; 32],
        token_mint: [u8; 32],
        receiver: [u8; 32],
        data_account: [u8; 32],
    },
    Withdraw { amount: u64, to_chain: Wide256, withdrawer: [u8; 32], token_mint: [u8; 32] },
    InstantTransfer {
        amount: u64,
        to_chain: Wide256,
        sender: [u8; 32],
        token_mint: [u8; 32],
        receiver: [u8; 32],
    },
    DirectTransfer {
        amount: u64,
        to_chain: Wide256,
        sender: [u8; 32],
        token_mint: [u8; 32],
        receiver: [u8; 32],
    },
}

/// Whether `code` is one of the nine opcodes.
pub open spec fn opcode_known(code: u8) -> bool {
    code == OP_STREAM || code == OP_WITHDRAW_STREAM || code == OP_DEPOSIT || code == OP_PAUSE
        || code == OP_WITHDRAW || code == OP_INSTANT_TRANSFER || code == OP_UPDATE_STREAM || code
        == OP_CANCEL_STREAM || code == OP_DIRECT_TRANSFER
}

/// The exact byte length of the layout of `code`, opcode byte included.
pub open spec fn payload_length(code: u8) -> int
    recommends
        opcode_known(code),
{
    if code == OP_STREAM {
        169
    } else if code == OP_UPDATE_STREAM {
        185
    } else if code == OP_WITHDRAW_STREAM || code == OP_PAUSE || code == OP_CANCEL_STREAM {
        161
    } else if code == OP_DEPOSIT || code == OP_WITHDRAW {
        105
    } else {
        137
    }
}

/// Whether `s` decodes at all: non-empty, known opcode, and long enough for
/// that opcode's layout.
pub open spec fn spec_payload_ok(s: Seq<u8>) -> bool {
    s.len() >= 1 && opcode_known(s[0]) && s.len() >= payload_length(s[0])
}

/// Whether `p` holds exactly the fields of the layout of `s`: the variant
/// matches the opcode in byte 0 and every field equals its byte range.
pub open spec fn payload_decodes_to(s: Seq<u8>, p: Payload) -> bool {
    s.len() >= 1 && match p {
        Payload::Deposit { amount, to_chain, sender, token_mint } => {
            &&& s[0] == OP_DEPOSIT
            &&& s.len() >= 105
            &&& amount == spec_be_u64_at(s, 1)
            &&& to_chain == spec_wide_from_bytes(s, 9)
            &&& sender@ == s.subrange(41, 73)
            &&& token_mint@ == s.subrange(73, 105)
        },
        Payload::StreamCreate {
            start_time,
            end_time,
            amount,
            to_chain,
            sender,
            receiver,
            can_update,
            can_cancel,
            token_mint,
        } => {
            &&& s[0] == OP_STREAM
            &&& s.len() >= 169
            &&& start_time == spec_be_u64_at(s, 1)
            &&& end_time == spec_be_u64_at(s, 9)
            &&& amount == spec_be_u64_at(s, 17)
            &&& to_chain == spec_wide_from_bytes(s, 25)
            &&& sender@ == s.subrange(57, 89)
            &&& receiver@ == s.subrange(89, 121)
            &&& can_update == spec_be_u64_at(s, 121)
            &&& can_cancel == spec_be_u64_at(s, 129)
            &&& token_mint@ == s.subrange(137, 169)
        },
        Payload::StreamUpdate {
            start_time,
            end_time,
            amount,
            to_chain,
            sender,
            receiver,
            token_mint,
            data_account,
        } => {
            &&& s[0] == OP_UPDATE_STREAM
            &&& s.len() >= 185
            &&& start_time == spec_be_u64_at(s, 1)
            &&& end_time == spec_be_u64_at(s, 9)
            &&& amount == spec_be_u64_at(s, 17)
            &&& to_chain == spec_wide_from_bytes(s, 25)
            &&& sender@ == s.subrange(57, 89)
            &&& receiver@ == s.subrange(89, 121)
            &&& token_mint@ == s.subrange(121, 153)
            &&& data_account@ == s.subrange(153, 185)
        },
        Payload::Pause { to_chain, sender, token_mint, receiver, data_account } => {
            &&& s[0] == OP_PAUSE
            &&& s.len() >= 161
            &&& to_chain == spec_wide_from_bytes(s, 1)
            &&& sender@ == s.subrange(33, 65)
            &&& token_mint@ == s.subrange(65, 97)
            &&& receiver@ == s.subrange(97, 129)
            &&& data_account@ == s.subrange(129, 161)
        },
        Payload::WithdrawStream { to_chain, withdrawer, token_mint, depositor, data_account } => {
            &&& s[0] == OP_WITHDRAW_STREAM
            &&& s.len() >= 161
            &&& to_chain == spec_wide_from_bytes(s, 1)
            &&& withdrawer@ == s.subrange(33, 65)
            &&& token_mint@ == s.subrange(65, 97)
            &&& depositor@ == s.subrange(97, 129)
            &&& data_account@ == s.subrange(129, 161)
        },
        Payload::CancelStream { to_chain, sender, token_mint, receiver, data_account } => {
            &&& s[0] == OP_CANCEL_STREAM
            &&& s.len() >= 161
            &&& to_chain == spec_wide_from_bytes(s, 1)
            &&& sender@ == s.subrange(33, 65)
            &&& token_mint@ == s.subrange(65, 97)
            &&& receiver@ == s.subrange(97, 129)
            &&& data_account@ == s.subrange(129, 161)
        },
        Payload::Withdraw { amount, to_chain, withdrawer, token_mint } => {
            &&& s[0] == OP_WITHDRAW
            &&& s.len() >= 105
            &&& amount == spec_be_u64_at(s, 1)
            &&& to_chain == spec_wide_from_bytes(s, 9)
            &&& withdrawer@ == s.subrange(41, 73)
            &&& token_mint@ == s.subrange(73, 105)
        },
        Payload::InstantTransfer { amount, to_chain, sender, token_mint, receiver } => {
            &&& s[0] == OP_INSTANT_TRANSFER
            &&& s.len() >= 137
            &&& amount == spec_be_u64_at(s, 1)
            &&& to_chain == spec_wide_from_bytes(s, 9)
            &&& sender@ == s.subrange(41, 73)
            &&& token_mint@ == s.subrange(73, 105)
            &&& receiver@ == s.subrange(105, 137)
        },
        Payload::DirectTransfer { amount, to_chain, sender, token_mint, receiver } => {
            &&& s[0] == OP_DIRECT_TRANSFER
            &&& s.len() >= 137
            &&& amount == spec_be_u64_at(s, 1)
            &&& to_chain == spec_wide_from_bytes(s, 9)
            &&& sender@ == s.subrange(41, 73)
            &&& token_mint@ == s.subrange(73, 105)
            &&& receiver@ == s.subrange(105, 137)
        },
    }
}

/// Decodes an inbound payload.
///
/// Returns `Ok` exactly when the buffer is non-empty, its opcode is one of
/// the nine, and the buffer reaches that opcode's full layout length; the
/// decoded variant then holds exactly the layout's fields. Every rejection
/// is `InvalidPayload`.
pub fn decode_payload(encoded: &[u8]) -> (r: Result<Payload, MessengerError>)
    ensures
        r is Ok <==> spec_payload_ok(encoded@),
        r matches Ok(p) ==> payload_decodes_to(encoded@, p),
        r is Err ==> r == Err::<Payload, MessengerError>(MessengerError::InvalidPayload),
{
    let n = encoded.len();
    if n < 1 {
        return Err(MessengerError::InvalidPayload);
    }
    let code = encoded[0];
    if code == OP_STREAM {
        if n < 169 {
            return Err(MessengerError::InvalidPayload);
        }
        Ok(
            Payload::StreamCreate {
                start_time: be_u64_at(encoded, 1),
                end_time: be_u64_at(encoded, 9),
                amount: be_u64_at(encoded, 17),
                to_chain: wide_from_be_bytes(encoded, 25),
                sender: read_bytes32(encoded, 57),
                receiver: read_bytes32(encoded, 89),
                can_update: be_u64_at(encoded, 121),
                can_cancel: be_u64_at(encoded, 129),
                token_mint: read_bytes32(encoded, 137),
            },
        )
    } else if code == OP_WITHDRAW_STREAM {
        if n < 161 {
            return Err(MessengerError::InvalidPayload);
        }
        Ok(
            Payload::WithdrawStream {
                to_chain: wide_from_be_bytes(encoded, 1),
                withdrawer: read_bytes32(encoded, 33),
                token_mint: read_bytes32(encoded, 65),
                depositor: read_bytes32(encoded, 97),
                data_account: read_bytes32(encoded, 129),
            },
        )
    } else if code == OP_DEPOSIT {
        if n < 105 {
            return Err(MessengerError::InvalidPayload);
        }
        Ok(
            Payload::Deposit {
                amount: be_u64_at(encoded, 1),
                to_chain: wide_from_be_bytes(encoded, 9),
                sender: read_bytes32(encoded, 41),
                token_mint: read_bytes32(encoded, 73),
            },
        )
    } else if code == OP_PAUSE {
        if n < 161 {
            return Err(MessengerError::InvalidPayload);
        }
        Ok(
            Payload::Pause {
                to_chain: wide_from_be_bytes(encoded, 1),
                sender: read_bytes32(encoded, 33),
                token_mint: read_bytes32(encoded, 65),
                receiver: read_bytes32(encoded, 97),
                data_account: read_bytes32(encoded, 129),
            },
        )
    } else if code == OP_WITHDRAW {
        if n < 105 {
            return Err(MessengerError::InvalidPayload);
        }
        Ok(
            Payload::Withdraw {
                amount: be_u64_at(encoded, 1),
                to_chain: wide_from_be_bytes(encoded, 9),
                withdrawer: read_bytes32(encoded, 41),
                token_mint: read_bytes32(encoded, 73),
            },
        )
    } else if code == OP_INSTANT_TRANSFER {
        if n < 137 {
            return Err(MessengerError::InvalidPayload);
        }
        Ok(
            Payload::InstantTransfer {
                amount: be_u64_at(encoded, 1),
                to_chain: wide_from_be_bytes(encoded, 9),
                sender: read_bytes32(encoded, 41),
                token_mint: read_bytes32(encoded, 73),
                receiver: read_bytes32(encoded, 105),
            },
        )
    } else if code == OP_UPDATE_STREAM {
        if n < 185 {
            return Err(MessengerError::InvalidPayload);
        }
        Ok(
            Payload::StreamUpdate {
                start_time: be_u64_at(encoded, 1),
                end_time: be_u64_at(encoded, 9),
                amount: be_u64_at(encoded, 17),
                to_chain: wide_from_be_bytes(encoded, 25),
                sender: read_bytes32(encoded, 57),
                receiver: read_bytes32(encoded, 89),
                token_mint: read_bytes32(encoded, 121),
                data_account: read_bytes32(encoded, 153),
            },
        )
    } else if code == OP_CANCEL_STREAM {
        if n < 161 {
            return Err(MessengerError::InvalidPayload);
        }
        Ok(
            Payload::CancelStream {
                to_chain: wide_from_be_bytes(encoded, 1),
                sender: read_bytes32(encoded, 33),
                token_mint: read_bytes32(encoded, 65),
                receiver: read_bytes32(encoded, 97),
                data_account: read_bytes32(encoded, 129),
            },
        )
    } else if code == OP_DIRECT_TRANSFER {
        if n < 137 {
            return Err(MessengerError::InvalidPayload);
        }
        Ok(
            Payload::DirectTransfer {
                amount: be_u64_at(encoded, 1),
                to_chain: wide_from_be_bytes(encoded, 9),
                sender: read_bytes32(encoded, 41),
                token_mint: read_bytes32(encoded, 73),
                receiver: read_bytes32(encoded, 105),
            },
        )
    } else {
        Err(MessengerError::InvalidPayload)
    }
}

/// The canonical byte layout of `p`: the opcode byte followed by the
/// variant's fields at their fixed offsets.
pub open spec fn spec_encode_payload(p: Payload) -> Seq<u8> {
    match p {
        Payload::Deposit { amount, to_chain, sender, token_mint } => seq![OP_DEPOSIT]
            + spec_u64_to_be_bytes(amount) + spec_wide_to_bytes(to_chain) + sender@ + token_mint@,
        Payload::StreamCreate {
            start_time,
            end_time,
            amount,
            to_chain,
            sender,
            receiver,
            can_update,
            can_cancel,
            token_mint,
        } => seq![OP_STREAM] + spec_u64_to_be_bytes(start_time) + spec_u64_to_be_bytes(end_time)
            + spec_u64_to_be_bytes(amount) + spec_wide_to_bytes(to_chain) + sender@ + receiver@
            + spec_u64_to_be_bytes(can_update) + spec_u64_to_be_bytes(can_cancel) + token_mint@,
        Payload::StreamUpdate {
            start_time,
            end_time,
            amount,
            to_chain,
            sender,
            receiver,
            token_mint,
            data_account,
        } => seq![OP_UPDATE_STREAM] + spec_u64_to_be_bytes(start_time) + spec_u64_to_be_bytes(
            end_time,
        ) + spec_u64_to_be_bytes(amount) + spec_wide_to_bytes(to_chain) + sender@ + receiver@
            + token_mint@ + data_account@,
        Payload::Pause { to_chain, sender, token_mint, receiver, data_account } => seq![OP_PAUSE]
            + spec_wide_to_bytes(to_chain) + sender@ + token_mint@ + receiver@ + data_account@,
        Payload::WithdrawStream { to_chain, withdrawer, token_mint, depositor, data_account } => seq![OP_WITHDRAW_STREAM]
            + spec_wide_to_bytes(to_chain) + withdrawer@ + token_mint@ + depositor@ + data_account@,
        Payload::CancelStream { to_chain, sender, token_mint, receiver, data_account } => seq![OP_CANCEL_STREAM]
            + spec_wide_to_bytes(to_chain) + sender@ + token_mint@ + receiver@ + data_account@,
        Payload::Withdraw { amount, to_chain, withdrawer, token_mint } => seq![OP_WITHDRAW]
            + spec_u64_to_be_bytes(amount) + spec_wide_to_bytes(to_chain) + withdrawer@
            + token_mint@,
        Payload::InstantTransfer { amount, to_chain, sender, token_mint, receiver } => seq![OP_INSTANT_TRANSFER]
            + spec_u64_to_be_bytes(amount) + spec_wide_to_bytes(to_chain) + sender@ + token_mint@
            + receiver@,
        Payload::DirectTransfer { amount, to_chain, sender, token_mint, receiver } => seq![OP_DIRECT_TRANSFER]
            + spec_u64_to_be_bytes(amount) + spec_wide_to_bytes(to_chain) + sender@ + token_mint@
            + receiver@,
    }
}

/// Re-encodes a decoded payload into its canonical byte layout.
pub fn encode_payload(p: &Payload) -> (r: Vec<u8>)
    ensures
        r@ == spec_encode_payload(*p),
{
    let mut out: Vec<u8> = Vec::new();
    match p {
        Payload::Deposit { amount, to_chain, sender, token_mint } => {
            out.push(OP_DEPOSIT);
            push_u64_be(&mut out, *amount);
            push_wide_be(&mut out, to_chain);
            push_slice_range(&mut out, sender.as_slice(), 0, 32);
            push_slice_range(&mut out, token_mint.as_slice(), 0, 32);
        },
        Payload::StreamCreate {
            start_time,
            end_time,
            amount,
            to_chain,
            sender,
            receiver,
            can_update,
            can_cancel,
            token_mint,
        } => {
            out.push(OP_STREAM);
            push_u64_be(&mut out, *start_time);
            push_u64_be(&mut out, *end_time);
            push_u64_be(&mut out, *amount);
            push_wide_be(&mut out, to_chain);
            push_slice_range(&mut out, sender.as_slice(), 0, 32);
            push_slice_range(&mut out, receiver.as_slice(), 0, 32);
            push_u64_be(&mut out, *can_update);
            push_u64_be(&mut out, *can_cancel);
            push_slice_range(&mut out, token_mint.as_slice(), 0, 32);
        },
        Payload::StreamUpdate {
            start_time,
            end_time,
            amount,
            to_chain,
            sender,
            receiver,
            token_mint,
            data_account,
        } => {
            out.push(OP_UPDATE_STREAM);
            push_u64_be(&mut out, *start_time);
            push_u64_be(&mut out, *end_time);
            push_u64_be(&mut out, *amount);
            push_wide_be(&mut out, to_chain);
            push_slice_range(&mut out, sender.as_slice(), 0, 32);
            push_slice_range(&mut out, receiver.as_slice(), 0, 32);
            push_slice_range(&mut out, token_mint.as_slice(), 0, 32);
            push_slice_range(&mut out, data_account.as_slice(), 0, 32);
        },
        Payload::Pause { to_chain, sender, token_mint, receiver, data_account } => {
            out.push(OP_PAUSE);
            push_wide_be(&mut out, to_chain);
            push_slice_range(&mut out, sender.as_slice(), 0, 32);
            push_slice_range(&mut out, token_mint.as_slice(), 0, 32);
            push_slice_range(&mut out, receiver.as_slice(), 0, 32);
            push_slice_range(&mut out, data_account.as_slice(), 0, 32);
        },
        Payload::WithdrawStream { to_chain, withdrawer, token_mint, depositor, data_account } => {
            out.push(OP_WITHDRAW_STREAM);
            push_wide_be(&mut out, to_chain);
            push_slice_range(&mut out, withdrawer.as_slice(), 0, 32);
            push_slice_range(&mut out, token_mint.as_slice(), 0, 32);
            push_slice_range(&mut out, depositor.as_slice(), 0, 32);
            push_slice_range(&mut out, data_account.as_slice(), 0, 32);
        },
        Payload::CancelStream { to_chain, sender, token_mint, receiver, data_account } => {
            out.push(OP_CANCEL_STREAM);
            push_wide_be(&mut out, to_chain);
            push_slice_range(&mut out, sender.as_slice(), 0, 32);
            push_slice_range(&mut out, token_mint.as_slice(), 0, 32);
            push_slice_range(&mut out, receiver.as_slice(), 0, 32);
            push_slice_range(&mut out, data_account.as_slice(), 0, 32);
        },
        Payload::Withdraw { amount, to_chain, withdrawer, token_mint } => {
            out.push(OP_WITHDRAW);
            push_u64_be(&mut out, *amount);
            push_wide_be(&mut out, to_chain);
            push_slice_range(&mut out, withdrawer.as_slice(), 0, 32);
            push_slice_range(&mut out, token_mint.as_slice(), 0, 32);
        },
        Payload::InstantTransfer { amount, to_chain, sender, token_mint, receiver } => {
            out.push(OP_INSTANT_TRANSFER);
            push_u64_be(&mut out, *amount);
            push_wide_be(&mut out, to_chain);
            push_slice_range(&mut out, sender.as_slice(), 0, 32);
            push_slice_range(&mut out, token_mint.as_slice(), 0, 32);
            push_slice_range(&mut out, receiver.as_slice(), 0, 32);
        },
        Payload::DirectTransfer { amount, to_chain, sender, token_mint, receiver } => {
            out.push(OP_DIRECT_TRANSFER);
            push_u64_be(&mut out, *amount);
            push_wide_be(&mut out, to_chain);
            push_slice_range(&mut out, sender.as_slice(), 0, 32);
            push_slice_range(&mut out, token_mint.as_slice(), 0, 32);
            push_slice_range(&mut out, receiver.as_slice(), 0, 32);
        },
    }
    proof {
        assert(out@ =~= spec_encode_payload(*p));
    }
    out
}

/// A buffer decodes to at most one payload: every field is pinned to its
/// byte range, and the variant to the opcode.
pub proof fn lemma_payload_decode_unique(s: Seq<u8>, p1: Payload, p2: Payload)
    requires
        payload_decodes_to(s, p1),
        payload_decodes_to(s, p2),
    ensures
        p1 == p2,
{
    broadcast use vstd::array::group_array_axioms;

    match (p1, p2) {
        (
            Payload::Deposit { sender: s1, token_mint: m1, .. },
            Payload::Deposit { sender: s2, token_mint: m2, .. },
        ) => {
            assert(s1 =~= s2);
            assert(m1 =~= m2);
        },
        (
            Payload::StreamCreate { sender: s1, receiver: r1, token_mint: m1, .. },
            Payload::StreamCreate { sender: s2, receiver: r2, token_mint: m2, .. },
        ) => {
            assert(s1 =~= s2);
            assert(r1 =~= r2);
            assert(m1 =~= m2);
        },
        (
            Payload::StreamUpdate { sender: s1, receiver: r1, token_mint: m1, data_account: d1, .. },
            Payload::StreamUpdate { sender: s2, receiver: r2, token_mint: m2, data_account: d2, .. },
        ) => {
            assert(s1 =~= s2);
            assert(r1 =~= r2);
            assert(m1 =~= m2);
            assert(d1 =~= d2);
        },
        (
            Payload::Pause { sender: s1, receiver: r1, token_mint: m1, data_account: d1, .. },
            Payload::Pause { sender: s2, receiver: r2, token_mint: m2, data_account: d2, .. },
        ) => {
            assert(s1 =~= s2);
            assert(r1 =~= r2);
            assert(m1 =~= m2);
            assert(d1 =~= d2);
        },
        (
            Payload::WithdrawStream {
                withdrawer: w1,
                depositor: e1,
                token_mint: m1,
                data_account: d1,
                ..
            },
            Payload::WithdrawStream {
                withdrawer: w2,
                depositor: e2,
                token_mint: m2,
                data_account: d2,
                ..
            },
        ) => {
            assert(w1 =~= w2);
            assert(e1 =~= e2);
            assert(m1 =~= m2);
            assert(d1 =~= d2);
        },
        (
            Payload::CancelStream { sender: s1, receiver: r1, token_mint: m1, data_account: d1, .. },
            Payload::CancelStream { sender: s2, receiver: r2, token_mint: m2, data_account: d2, .. },
        ) => {
            assert(s1 =~= s2);
            assert(r1 =~= r2);
            assert(m1 =~= m2);
            assert(d1 =~= d2);
        },
        (
            Payload::Withdraw { withdrawer: w1, token_mint: m1, .. },
            Payload::Withdraw { withdrawer: w2, token_mint: m2, .. },
        ) => {
            assert(w1 =~= w2);
            assert(m1 =~= m2);
        },
        (
            Payload::InstantTransfer { sender: s1, token_mint: m1, receiver: r1, .. },
            Payload::InstantTransfer { sender: s2, token_mint: m2, receiver: r2, .. },
        ) => {
            assert(s1 =~= s2);
            assert(m1 =~= m2);
            assert(r1 =~= r2);
        },
        (
            Payload::DirectTransfer { sender: s1, token_mint: m1, receiver: r1, .. },
            Payload::DirectTransfer { sender: s2, token_mint: m2, receiver: r2, .. },
        ) => {
            assert(s1 =~= s2);
            assert(m1 =~= m2);
            assert(r1 =~= r2);
        },
        _ => {},
    }
}

/// Decoding a payload of exactly its layout's length and re-encoding the
/// decoded fields reproduces the original bytes. In particular, the
/// canonical message serialization built over the re-encoded payload is
/// byte-identical to the one built over the original, so its content hash
/// and the derived message account address are reproduced as well.
pub proof fn lemma_payload_round_trip(s: Seq<u8>, p: Payload)
    requires
        payload_decodes_to(s, p),
        s.len() == payload_length(s[0]),
    ensures
        spec_encode_payload(p) == s,
{
    match p {
        Payload::Deposit { .. } => {
            lemma_u64_be_bytes_round_trip(s.subrange(1, 9));
            lemma_wide_round_trip(s, 9);
        },
        Payload::StreamCreate { .. } => {
            lemma_u64_be_bytes_round_trip(s.subrange(1, 9));
            lemma_u64_be_bytes_round_trip(s.subrange(9, 17));
            lemma_u64_be_bytes_round_trip(s.subrange(17, 25));
            lemma_wide_round_trip(s, 25);
            lemma_u64_be_bytes_round_trip(s.subrange(121, 129));
            lemma_u64_be_bytes_round_trip(s.subrange(129, 137));
        },
        Payload::StreamUpdate { .. } => {
            lemma_u64_be_bytes_round_trip(s.subrange(1, 9));
            lemma_u64_be_bytes_round_trip(s.subrange(9, 17));
            lemma_u64_be_bytes_round_trip(s.subrange(17, 25));
            lemma_wide_round_trip(s, 25);
        },
        Payload::Pause { .. } => {
            lemma_wide_round_trip(s, 1);
        },
        Payload::WithdrawStream { .. } => {
            lemma_wide_round_trip(s, 1);
        },
        Payload::CancelStream { .. } => {
            lemma_wide_round_trip(s, 1);
        },
        Payload::Withdraw { .. } => {
            lemma_u64_be_bytes_round_trip(s.subrange(1, 9));
            lemma_wide_round_trip(s, 9);
        },
        Payload::InstantTransfer { .. } => {
            lemma_u64_be_bytes_round_trip(s.subrange(1, 9));
            lemma_wide_round_trip(s, 9);
        },
        Payload::DirectTransfer { .. } => {
            lemma_u64_be_bytes_round_trip(s.subrange(1, 9));
            lemma_wide_round_trip(s, 9);
        },
    }
    assert(spec_encode_payload(p) =~= s);
}

} // verus!
