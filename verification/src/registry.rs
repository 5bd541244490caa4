//! The emitter registry: one trusted emitter address per remote chain.
//!
//! The registered address is kept as the hex digit string an administrator
//! supplies; message intake decodes it and compares it with the 32-byte
//! emitter identity claimed by an inbound message.

use vstd::prelude::*;

use crate::errors::MessengerError;

verus! {

/// The length, in hex digits, of a registered emitter address: 64 digits
/// for a 32-byte identity.
pub const EMITTER_ADDRESS_LENGTH: usize = 64;

/// The trusted emitter for one remote chain.
#[derive(Clone, Debug, PartialEq, Eq)]
pub struct EmitterRegistration {
    pub chain_id: u16,
    pub emitter_addr: Vec<u8>,
}

/// Whether `c` is an ASCII hex digit, upper or lower case.
pub open spec fn is_hex_digit(c: u8) -> bool {
    (48 <= c <= 57) || (65 <= c <= 70) || (97 <= c <= 102)
}

/// The value of the ASCII hex digit `c`.
pub open spec fn hex_digit_value(c: u8) -> u8
    recommends
        is_hex_digit(c),
{
    if 48 <= c <= 57 {
        (c - 48) as u8
    } else if 65 <= c <= 70 {
        (c - 55) as u8
    } else {
        (c - 87) as u8
    }
}

/// The bytes spelled by an even-length hex digit string, each digit pair
/// one byte, high nibble first.
pub open spec fn spec_hex_decode(s: Seq<u8>) -> Seq<u8>
    recommends
        s.len() % 2 == 0,
    decreases s.len(),
{
    if s.len() < 2 {
        seq![]
    } else {
        seq![(hex_digit_value(s[0]) * 16 + hex_digit_value(s[1])) as u8] + spec_hex_decode(
            s.subrange(2, s.len() as int),
        )
    }
}

/// Whether a registered address decodes at all: even length, hex digits
/// throughout.
pub open spec fn spec_hex_decodes(s: Seq<u8>) -> bool {
    s.len() % 2 == 0 && (forall|i: int| 0 <= i < s.len() ==> is_hex_digit(s[i]))
}

/// Relies on hex::decode: it succeeds exactly on even-length input made of
/// ASCII hex digits (either case), and then maps each digit pair to one
/// byte, high nibble first.
#[verifier::external_body]
pub(crate) fn hex_decode(s: &[u8]) -> (r: Option<Vec<u8>>)
    ensures
        r is Some <==> spec_hex_decodes(s@),
        r matches Some(v) ==> v@ == spec_hex_decode(s@),
{
    hex::decode(s).ok()
}

/// Binds a trusted emitter address to a remote chain identifier.
///
/// Succeeds exactly when the supplied address has the 64 hex digits of a
/// 32-byte identity, and then overwrites both fields of the registration;
/// a wrong-length address fails with `InvalidEmitterAddress` and leaves the
/// registration unchanged.
pub fn register_chain(
    registration: &mut EmitterRegistration,
    chain_id: u16,
    emitter_addr: Vec<u8>,
) -> (r: Result<(), MessengerError>)
    ensures
        emitter_addr@.len() == EMITTER_ADDRESS_LENGTH ==> r is Ok && final(registration).chain_id
            == chain_id && final(registration).emitter_addr@ == emitter_addr@,
        emitter_addr@.len() != EMITTER_ADDRESS_LENGTH ==> r == Err::<(), MessengerError>(
            MessengerError::InvalidEmitterAddress,
        ) && *final(registration) == *old(registration),
{
    if emitter_addr.len() != EMITTER_ADDRESS_LENGTH {
        return Err(MessengerError::InvalidEmitterAddress);
    }
    registration.chain_id = chain_id;
    registration.emitter_addr = emitter_addr;
    Ok(())
}

} // verus!
