//! The typed records carried in a staged transaction's instruction data.
//!
//! Instruction data opens with an 8-byte discriminator that the relay
//! skips; the record follows, its integer fields little-endian in
//! declaration order and its flags one strict 0-or-1 byte each. A record
//! decodes only from data of exactly its length, discriminator included.

use vstd::prelude::*;

use crate::bytes::{le_u64_at, spec_le_u64_at};

verus! {

/// The record shape of deposit, sender-withdraw and instant-transfer
/// transactions: one amount.
#[derive(Clone, Copy, Debug, PartialEq, Eq)]
pub struct TokenAmount {
    pub amount: u64,
}

/// The record shape of stream-create transactions.
#[derive(Clone, Copy, Debug, PartialEq, Eq)]
pub struct Stream {
    pub start_time: u64,
    pub end_time: u64,
    pub amount: u64,
    pub can_cancel: bool,
    pub can_update: bool,
}

/// The record shape of stream-update transactions.
#[derive(Clone, Copy, Debug, PartialEq, Eq)]
pub struct StreamUpdate {
    pub start_time: u64,
    pub end_time: u64,
    pub amount: u64,
}

/// Whether `data` holds a discriminator followed by exactly one amount.
pub open spec fn spec_token_amount_ok(data: Seq<u8>) -> bool {
    data.len() == 16
}

/// Decodes the amount record behind the discriminator.
pub fn decode_token_amount(data: &[u8]) -> (r: Option<TokenAmount>)
    ensures
        r is Some <==> spec_token_amount_ok(data@),
        r matches Some(t) ==> t.amount == spec_le_u64_at(data@, 8),
{
    if data.len() != 16 {
        return None;
    }
    Some(TokenAmount { amount: le_u64_at(data, 8) })
}

/// Whether `data` holds a discriminator followed by exactly one stream
/// record, both flag bytes strict 0 or 1.
pub open spec fn spec_stream_ok(data: Seq<u8>) -> bool {
    data.len() == 34 && (data[32] == 0 || data[32] == 1) && (data[33] == 0 || data[33] == 1)
}

/// Decodes the stream record behind the discriminator.
pub fn decode_stream(data: &[u8]) -> (r: Option<Stream>)
    ensures
        r is Some <==> spec_stream_ok(data@),
        r matches Some(t) ==> t == (Stream {
            start_time: spec_le_u64_at(data@, 8),
            end_time: spec_le_u64_at(data@, 16),
            amount: spec_le_u64_at(data@, 24),
            can_cancel: data@[32] == 1,
            can_update: data@[33] == 1,
        }),
{
    if data.len() != 34 {
        return None;
    }
    let cancel_byte = data[32];
    let update_byte = data[33];
    if cancel_byte > 1 || update_byte > 1 {
        return None;
    }
    Some(
        Stream {
            start_time: le_u64_at(data, 8),
            end_time: le_u64_at(data, 16),
            amount: le_u64_at(data, 24),
            can_cancel: cancel_byte == 1,
            can_update: update_byte == 1,
        },
    )
}

/// Whether `data` holds a discriminator followed by exactly one
/// stream-update record.
pub open spec fn spec_stream_update_ok(data: Seq<u8>) -> bool {
    data.len() == 32
}

/// Decodes the stream-update record behind the discriminator.
pub fn decode_stream_update(data: &[u8]) -> (r: Option<StreamUpdate>)
    ensures
        r is Some <==> spec_stream_update_ok(data@),
        r matches Some(t) ==> t == (StreamUpdate {
            start_time: spec_le_u64_at(data@, 8),
            end_time: spec_le_u64_at(data@, 16),
            amount: spec_le_u64_at(data@, 24),
        }),
{
    if data.len() != 32 {
        return None;
    }
    Some(
        StreamUpdate {
            start_time: le_u64_at(data, 8),
            end_time: le_u64_at(data, 16),
            amount: le_u64_at(data, 24),
        },
    )
}

} // verus!
