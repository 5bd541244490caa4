//! Outbound relay through the external token portal.
//!
//! The core emits exactly two outbound instruction shapes — transfer
//! native and transfer wrapped — each carrying `(nonce, amount, fee,
//! target address, target chain)` behind a one-byte portal opcode, with a
//! full, order-sensitive account list matching the portal's calling
//! convention. The host grants the portal's transfer authority a
//! delegation limited to exactly the staged amount, invokes the
//! instruction under the derived signer, and only then advances the
//! outbound nonce.

use vstd::prelude::*;

use crate::bytes::{
    bytes32_equal, push_slice_range, push_u16_le, push_u32_le, push_u64_le, spec_u16_le_bytes,
    spec_u32_le_bytes, spec_u64_le_bytes,
};
use crate::derive::{derive_identity_address, derived_address_of, spec_identity_address_matches};
use crate::errors::MessengerError;
use crate::state::{Config, ExecutionStatus, StagedOperation, TransactionAccount};
use crate::transaction::SignerSeeds;

verus! {

/// The portal's instruction index for a wrapped-token transfer.
pub const PORTAL_OP_TRANSFER_WRAPPED: u8 = 4;

/// The portal's instruction index for a native-token transfer.
pub const PORTAL_OP_TRANSFER_NATIVE: u8 = 5;

/// The argument record of both outbound transfer shapes.
#[derive(Clone, Copy, Debug, PartialEq, Eq)]
pub struct TransferData {
    pub nonce: u32,
    pub amount: u64,
    pub fee: u64,
    pub target_address: [u8; 32],
    pub target_chain: u16,
}

/// The serialized outbound instruction data: the portal opcode, then the
/// record's fields little-endian in order, the target address verbatim.
pub open spec fn spec_transfer_data_bytes(op: u8, d: TransferData) -> Seq<u8> {
    seq![op] + spec_u32_le_bytes(d.nonce) + spec_u64_le_bytes(d.amount) + spec_u64_le_bytes(d.fee)
        + d.target_address@ + spec_u16_le_bytes(d.target_chain)
}

/// Serializes an outbound transfer record behind its portal opcode.
pub fn encode_transfer_data(op: u8, d: &TransferData) -> (r: Vec<u8>)
    ensures
        r@ == spec_transfer_data_bytes(op, *d),
{
    let mut out: Vec<u8> = Vec::new();
    out.push(op);
    push_u32_le(&mut out, d.nonce);
    push_u64_le(&mut out, d.amount);
    push_u64_le(&mut out, d.fee);
    push_slice_range(&mut out, d.target_address.as_slice(), 0, 32);
    push_u16_le(&mut out, d.target_chain);
    proof {
        assert(d.target_address@.subrange(0, 32) =~= d.target_address@);
        assert(out@ =~= spec_transfer_data_bytes(op, *d));
    }
    out
}

/// The accounts of a native-token outbound transfer, plus the derived
/// signer the caller presents.
#[derive(Clone, Copy, Debug, PartialEq, Eq)]
pub struct NativeTransferAccounts {
    pub zebec_eoa: [u8; 32],
    pub portal_config: [u8; 32],
    pub from: [u8; 32],
    pub mint: [u8; 32],
    pub portal_custody: [u8; 32],
    pub portal_authority_signer: [u8; 32],
    pub portal_custody_signer: [u8; 32],
    pub bridge_config: [u8; 32],
    pub portal_message: [u8; 32],
    pub portal_emitter: [u8; 32],
    pub portal_sequence: [u8; 32],
    pub bridge_fee_collector: [u8; 32],
    pub clock: [u8; 32],
    pub rent: [u8; 32],
    pub system_program: [u8; 32],
    pub core_bridge_program: [u8; 32],
    pub token_program: [u8; 32],
    pub pda_signer: [u8; 32],
}

/// The accounts of a wrapped-token outbound transfer.
#[derive(Clone, Copy, Debug, PartialEq, Eq)]
pub struct WrappedTransferAccounts {
    pub zebec_eoa: [u8; 32],
    pub portal_config: [u8; 32],
    pub from: [u8; 32],
    pub pda_signer: [u8; 32],
    pub wrapped_mint: [u8; 32],
    pub wrapped_meta: [u8; 32],
    pub portal_authority_signer: [u8; 32],
    pub bridge_config: [u8; 32],
    pub portal_message: [u8; 32],
    pub portal_emitter: [u8; 32],
    pub portal_sequence: [u8; 32],
    pub bridge_fee_collector: [u8; 32],
    pub clock: [u8; 32],
    pub rent: [u8; 32],
    pub system_program: [u8; 32],
    pub core_bridge_program: [u8; 32],
    pub token_program: [u8; 32],
}

/// The portal's order-sensitive account list for a native transfer;
/// reordering any entry breaks the call.
pub open spec fn spec_native_transfer_accounts(a: NativeTransferAccounts) -> Seq<
    TransactionAccount,
> {
    seq![
        TransactionAccount { pubkey: a.zebec_eoa, is_signer: true, is_writable: true },
        TransactionAccount { pubkey: a.portal_config, is_signer: false, is_writable: false },
        TransactionAccount { pubkey: a.from, is_signer: false, is_writable: true },
        TransactionAccount { pubkey: a.mint, is_signer: false, is_writable: true },
        TransactionAccount { pubkey: a.portal_custody, is_signer: false, is_writable: true },
        TransactionAccount {
            pubkey: a.portal_authority_signer,
            is_signer: false,
            is_writable: false,
        },
        TransactionAccount {
            pubkey: a.portal_custody_signer,
            is_signer: false,
            is_writable: false,
        },
        TransactionAccount { pubkey: a.bridge_config, is_signer: false, is_writable: true },
        TransactionAccount { pubkey: a.portal_message, is_signer: true, is_writable: true },
        TransactionAccount { pubkey: a.portal_emitter, is_signer: false, is_writable: false },
        TransactionAccount { pubkey: a.portal_sequence, is_signer: false, is_writable: true },
        TransactionAccount { pubkey: a.bridge_fee_collector, is_signer: false, is_writable: true },
        TransactionAccount { pubkey: a.clock, is_signer: false, is_writable: false },
        TransactionAccount { pubkey: a.rent, is_signer: false, is_writable: false },
        TransactionAccount { pubkey: a.system_program, is_signer: false, is_writable: false },
        TransactionAccount { pubkey: a.core_bridge_program, is_signer: false, is_writable: false },
        TransactionAccount { pubkey: a.token_program, is_signer: false, is_writable: false },
    ]
}

/// The portal's order-sensitive account list for a wrapped transfer.
pub open spec fn spec_wrapped_transfer_accounts(a: WrappedTransferAccounts) -> Seq<
    TransactionAccount,
> {
    seq![
        TransactionAccount { pubkey: a.zebec_eoa, is_signer: true, is_writable: true },
        TransactionAccount { pubkey: a.portal_config, is_signer: false, is_writable: false },
        TransactionAccount { pubkey: a.from, is_signer: false, is_writable: true },
        TransactionAccount { pubkey: a.pda_signer, is_signer: true, is_writable: false },
        TransactionAccount { pubkey: a.wrapped_mint, is_signer: false, is_writable: true },
        TransactionAccount { pubkey: a.wrapped_meta, is_signer: false, is_writable: false },
        TransactionAccount {
            pubkey: a.portal_authority_signer,
            is_signer: false,
            is_writable: false,
        },
        TransactionAccount { pubkey: a.bridge_config, is_signer: false, is_writable: true },
        TransactionAccount { pubkey: a.portal_message, is_signer: true, is_writable: true },
        TransactionAccount { pubkey: a.portal_emitter, is_signer: false, is_writable: false },
        TransactionAccount { pubkey: a.portal_sequence, is_signer: false, is_writable: true },
        TransactionAccount { pubkey: a.bridge_fee_collector, is_signer: false, is_writable: true },
        TransactionAccount { pubkey: a.clock, is_signer: false, is_writable: false },
        TransactionAccount { pubkey: a.rent, is_signer: false, is_writable: false },
        TransactionAccount { pubkey: a.system_program, is_signer: false, is_writable: false },
        TransactionAccount { pubkey: a.core_bridge_program, is_signer: false, is_writable: false },
        TransactionAccount { pubkey: a.token_program, is_signer: false, is_writable: false },
    ]
}

/// A validated outbound transfer, ready for the host: approve exactly
/// `approve_amount` to the portal's transfer authority, then invoke the
/// instruction under the signer seeds. The outbound nonce is advanced
/// separately, once the invocation has succeeded.
#[derive(Clone, Debug, PartialEq, Eq)]
pub struct OutboundTransfer {
    pub approve_amount: u64,
    pub program_id: [u8; 32],
    pub accounts: Vec<TransactionAccount>,
    pub data: Vec<u8>,
    pub signer: SignerSeeds,
}

/// Whether `t` is exactly the native outbound transfer of the staged
/// amount under the configuration's current nonce and the given derived
/// signer.
pub open spec fn spec_native_outbound(
    t: OutboundTransfer,
    config: Config,
    st: StagedOperation,
    accounts: NativeTransferAccounts,
    token_bridge: [u8; 32],
    sender: [u8; 32],
    sender_chain: Seq<u8>,
    target_chain: u16,
    fee: u64,
    receiver: [u8; 32],
    derived: ([u8; 32], u8),
) -> bool {
    &&& t.approve_amount == st.amount
    &&& t.program_id == token_bridge
    &&& t.accounts@ == spec_native_transfer_accounts(accounts)
    &&& t.data@ == spec_transfer_data_bytes(
        PORTAL_OP_TRANSFER_NATIVE,
        (TransferData {
            nonce: config.nonce,
            amount: st.amount,
            fee,
            target_address: receiver,
            target_chain,
        }),
    )
    &&& t.signer.sender == sender
    &&& t.signer.chain_id@ == sender_chain
    &&& t.signer.bump == derived.1
}

/// Whether `t` is exactly the wrapped outbound transfer of the staged
/// amount under the configuration's current nonce and the given derived
/// signer.
pub open spec fn spec_wrapped_outbound(
    t: OutboundTransfer,
    config: Config,
    st: StagedOperation,
    accounts: WrappedTransferAccounts,
    token_bridge: [u8; 32],
    sender: [u8; 32],
    sender_chain: Seq<u8>,
    target_chain: u16,
    fee: u64,
    receiver: [u8; 32],
    derived: ([u8; 32], u8),
) -> bool {
    &&& t.approve_amount == st.amount
    &&& t.program_id == token_bridge
    &&& t.accounts@ == spec_wrapped_transfer_accounts(accounts)
    &&& t.data@ == spec_transfer_data_bytes(
        PORTAL_OP_TRANSFER_WRAPPED,
        (TransferData {
            nonce: config.nonce,
            amount: st.amount,
            fee,
            target_address: receiver,
            target_chain,
        }),
    )
    &&& t.signer.sender == sender
    &&& t.signer.chain_id@ == sender_chain
    &&& t.signer.bump == derived.1
}

/// Builds the native outbound transfer of the staged amount.
///
/// Only the administrative owner may relay (`InvalidCaller`); the signer
/// seeds carry the bump derived from `(sender, sender_chain)`, and a
/// failed derivation surfaces as `InvalidCPI`. The caller advances the
/// nonce only after the invocation succeeds.
pub fn transfer_native(
    config: &Config,
    data_storage: &StagedOperation,
    accounts: &NativeTransferAccounts,
    token_bridge: &[u8; 32],
    program_id: &[u8; 32],
    sender: [u8; 32],
    sender_chain: Vec<u8>,
    target_chain: u16,
    fee: u64,
    receiver: [u8; 32],
) -> (r: Result<OutboundTransfer, MessengerError>)
    ensures
        config.owner@ != accounts.zebec_eoa@ <==> r == Err::<OutboundTransfer, MessengerError>(
            MessengerError::InvalidCaller,
        ),
        config.owner@ == accounts.zebec_eoa@ ==> match derived_address_of(
            sender@,
            sender_chain@,
            program_id@,
        ) {
            Some(p) => r matches Ok(t) && spec_native_outbound(
                t,
                *config,
                *data_storage,
                *accounts,
                *token_bridge,
                sender,
                sender_chain@,
                target_chain,
                fee,
                receiver,
                p,
            ),
            None => r == Err::<OutboundTransfer, MessengerError>(MessengerError::InvalidCPI),
        },
{
    if !bytes32_equal(&config.owner, &accounts.zebec_eoa) {
        return Err(MessengerError::InvalidCaller);
    }
    let bump = match crate::derive::find_derived_address(
        sender.as_slice(),
        sender_chain.as_slice(),
        program_id,
    ) {
        None => {
            return Err(MessengerError::InvalidCPI);
        },
        Some((_key, bump)) => bump,
    };
    let data = encode_transfer_data(
        PORTAL_OP_TRANSFER_NATIVE,
        &TransferData {
            nonce: config.nonce,
            amount: data_storage.amount,
            fee,
            target_address: receiver,
            target_chain,
        },
    );
    let mut metas: Vec<TransactionAccount> = Vec::new();
    metas.push(TransactionAccount { pubkey: accounts.zebec_eoa, is_signer: true, is_writable: true });
    metas.push(
        TransactionAccount { pubkey: accounts.portal_config, is_signer: false, is_writable: false },
    );
    metas.push(TransactionAccount { pubkey: accounts.from, is_signer: false, is_writable: true });
    metas.push(TransactionAccount { pubkey: accounts.mint, is_signer: false, is_writable: true });
    metas.push(
        TransactionAccount { pubkey: accounts.portal_custody, is_signer: false, is_writable: true },
    );
    metas.push(
        TransactionAccount {
            pubkey: accounts.portal_authority_signer,
            is_signer: false,
            is_writable: false,
        },
    );
    metas.push(
        TransactionAccount {
            pubkey: accounts.portal_custody_signer,
            is_signer: false,
            is_writable: false,
        },
    );
    metas.push(
        TransactionAccount { pubkey: accounts.bridge_config, is_signer: false, is_writable: true },
    );
    metas.push(
        TransactionAccount { pubkey: accounts.portal_message, is_signer: true, is_writable: true },
    );
    metas.push(
        TransactionAccount {
            pubkey: accounts.portal_emitter,
            is_signer: false,
            is_writable: false,
        },
    );
    metas.push(
        TransactionAccount {
            pubkey: accounts.portal_sequence,
            is_signer: false,
            is_writable: true,
        },
    );
    metas.push(
        TransactionAccount {
            pubkey: accounts.bridge_fee_collector,
            is_signer: false,
            is_writable: true,
        },
    );
    metas.push(TransactionAccount { pubkey: accounts.clock, is_signer: false, is_writable: false });
    metas.push(TransactionAccount { pubkey: accounts.rent, is_signer: false, is_writable: false });
    metas.push(
        TransactionAccount {
            pubkey: accounts.system_program,
            is_signer: false,
            is_writable: false,
        },
    );
    metas.push(
        TransactionAccount {
            pubkey: accounts.core_bridge_program,
            is_signer: false,
            is_writable: false,
        },
    );
    metas.push(
        TransactionAccount { pubkey: accounts.token_program, is_signer: false, is_writable: false },
    );
    proof {
        assert(metas@ =~= spec_native_transfer_accounts(*accounts));
    }
    Ok(
        OutboundTransfer {
            approve_amount: data_storage.amount,
            program_id: *token_bridge,
            accounts: metas,
            data,
            signer: SignerSeeds { sender, chain_id: sender_chain, bump },
        },
    )
}

/// Builds the wrapped outbound transfer of the staged amount, under the
/// same owner gate and derivation as the native shape.
pub fn transfer_wrapped(
    config: &Config,
    data_storage: &StagedOperation,
    accounts: &WrappedTransferAccounts,
    token_bridge: &[u8; 32],
    program_id: &[u8; 32],
    sender: [u8; 32],
    sender_chain: Vec<u8>,
    target_chain: u16,
    fee: u64,
    receiver: [u8; 32],
) -> (r: Result<OutboundTransfer, MessengerError>)
    ensures
        config.owner@ != accounts.zebec_eoa@ <==> r == Err::<OutboundTransfer, MessengerError>(
            MessengerError::InvalidCaller,
        ),
        config.owner@ == accounts.zebec_eoa@ ==> match derived_address_of(
            sender@,
            sender_chain@,
            program_id@,
        ) {
            Some(p) => r matches Ok(t) && spec_wrapped_outbound(
                t,
                *config,
                *data_storage,
                *accounts,
                *token_bridge,
                sender,
                sender_chain@,
                target_chain,
                fee,
                receiver,
                p,
            ),
            None => r == Err::<OutboundTransfer, MessengerError>(MessengerError::InvalidCPI),
        },
{
    if !bytes32_equal(&config.owner, &accounts.zebec_eoa) {
        return Err(MessengerError::InvalidCaller);
    }
    let bump = match crate::derive::find_derived_address(
        sender.as_slice(),
        sender_chain.as_slice(),
        program_id,
    ) {
        None => {
            return Err(MessengerError::InvalidCPI);
        },
        Some((_key, bump)) => bump,
    };
    let data = encode_transfer_data(
        PORTAL_OP_TRANSFER_WRAPPED,
        &TransferData {
            nonce: config.nonce,
            amount: data_storage.amount,
            fee,
            target_address: receiver,
            target_chain,
        },
    );
    let mut metas: Vec<TransactionAccount> = Vec::new();
    metas.push(TransactionAccount { pubkey: accounts.zebec_eoa, is_signer: true, is_writable: true });
    metas.push(
        TransactionAccount { pubkey: accounts.portal_config, is_signer: false, is_writable: false },
    );
    metas.push(TransactionAccount { pubkey: accounts.from, is_signer: false, is_writable: true });
    metas.push(
        TransactionAccount { pubkey: accounts.pda_signer, is_signer: true, is_writable: false },
    );
    metas.push(
        TransactionAccount { pubkey: accounts.wrapped_mint, is_signer: false, is_writable: true },
    );
    metas.push(
        TransactionAccount { pubkey: accounts.wrapped_meta, is_signer: false, is_writable: false },
    );
    metas.push(
        TransactionAccount {
            pubkey: accounts.portal_authority_signer,
            is_signer: false,
            is_writable: false,
        },
    );
    metas.push(
        TransactionAccount { pubkey: accounts.bridge_config, is_signer: false, is_writable: true },
    );
    metas.push(
        TransactionAccount { pubkey: accounts.portal_message, is_signer: true, is_writable: true },
    );
    metas.push(
        TransactionAccount {
            pubkey: accounts.portal_emitter,
            is_signer: false,
            is_writable: false,
        },
    );
    metas.push(
        TransactionAccount {
            pubkey: accounts.portal_sequence,
            is_signer: false,
            is_writable: true,
        },
    );
    metas.push(
        TransactionAccount {
            pubkey: accounts.bridge_fee_collector,
            is_signer: false,
            is_writable: true,
        },
    );
    metas.push(TransactionAccount { pubkey: accounts.clock, is_signer: false, is_writable: false });
    metas.push(TransactionAccount { pubkey: accounts.rent, is_signer: false, is_writable: false });
    metas.push(
        TransactionAccount {
            pubkey: accounts.system_program,
            is_signer: false,
            is_writable: false,
        },
    );
    metas.push(
        TransactionAccount {
            pubkey: accounts.core_bridge_program,
            is_signer: false,
            is_writable: false,
        },
    );
    metas.push(
        TransactionAccount { pubkey: accounts.token_program, is_signer: false, is_writable: false },
    );
    proof {
        assert(metas@ =~= spec_wrapped_transfer_accounts(*accounts));
    }
    Ok(
        OutboundTransfer {
            approve_amount: data_storage.amount,
            program_id: *token_bridge,
            accounts: metas,
            data,
            signer: SignerSeeds { sender, chain_id: sender_chain, bump },
        },
    )
}

/// The first check a direct native transfer fails, if any: the mint
/// account against the staged mint (surfaced, as the staging layer always
/// has, as `DataAccountMismatch`), the authenticated sender, and the
/// presented signer against the sender-derived address.
pub open spec fn direct_native_outcome(
    accounts: NativeTransferAccounts,
    sender: [u8; 32],
    st: StagedOperation,
    program_id: Seq<u8>,
) -> Option<MessengerError> {
    if st.token_mint@ != accounts.mint@ {
        Some(MessengerError::DataAccountMismatch)
    } else if sender@ != st.sender@ {
        Some(MessengerError::PdaSenderMismatch)
    } else if !spec_identity_address_matches(
        sender@,
        st.from_chain_id,
        program_id,
        accounts.pda_signer@,
    ) {
        Some(MessengerError::SenderDerivedKeyMismatch)
    } else {
        None
    }
}

/// Runs a direct native transfer exactly once.
///
/// The first call spends the execution guard — before any check, so a
/// failed check cannot be retried — validates mint, sender and derived
/// signer, and hands back the outbound transfer aimed at the staged
/// receiver. A spent guard fails with `TransactionAlreadyExecuted` and
/// never reverts.
pub fn transaction_direct_transfer_native(
    txn_status: &mut ExecutionStatus,
    config: &Config,
    data_storage: &StagedOperation,
    accounts: &NativeTransferAccounts,
    token_bridge: &[u8; 32],
    program_id: &[u8; 32],
    sender: [u8; 32],
    chain_id: Vec<u8>,
    target_chain: u16,
    fee: u64,
) -> (r: Result<OutboundTransfer, MessengerError>)
    ensures
        old(txn_status).executed ==> r == Err::<OutboundTransfer, MessengerError>(
            MessengerError::TransactionAlreadyExecuted,
        ),
        !old(txn_status).executed ==> final(txn_status).executed,
        old(txn_status).executed ==> final(txn_status).executed,
        !old(txn_status).executed ==> match direct_native_outcome(
            *accounts,
            sender,
            *data_storage,
            program_id@,
        ) {
            Some(e) => r == Err::<OutboundTransfer, MessengerError>(e),
            None => {
                if config.owner@ != accounts.zebec_eoa@ {
                    r == Err::<OutboundTransfer, MessengerError>(MessengerError::InvalidCaller)
                } else {
                    match derived_address_of(sender@, chain_id@, program_id@) {
                        Some(p) => r matches Ok(t) && spec_native_outbound(
                            t,
                            *config,
                            *data_storage,
                            *accounts,
                            *token_bridge,
                            sender,
                            chain_id@,
                            target_chain,
                            fee,
                            data_storage.receiver,
                            p,
                        ),
                        None => r == Err::<OutboundTransfer, MessengerError>(
                            MessengerError::InvalidCPI,
                        ),
                    }
                }
            },
        },
{
    if txn_status.executed {
        return Err(MessengerError::TransactionAlreadyExecuted);
    }
    // Spend the guard before any check.
    txn_status.executed = true;

    if !bytes32_equal(&data_storage.token_mint, &accounts.mint) {
        return Err(MessengerError::DataAccountMismatch);
    }
    if !bytes32_equal(&sender, &data_storage.sender) {
        return Err(MessengerError::PdaSenderMismatch);
    }
    match derive_identity_address(&sender, data_storage.from_chain_id, program_id) {
        None => {
            return Err(MessengerError::SenderDerivedKeyMismatch);
        },
        Some((derived_key, _bump)) => {
            if !bytes32_equal(&accounts.pda_signer, &derived_key) {
                return Err(MessengerError::SenderDerivedKeyMismatch);
            }
        },
    }
    transfer_native(
        config,
        data_storage,
        accounts,
        token_bridge,
        program_id,
        sender,
        chain_id,
        target_chain,
        fee,
        data_storage.receiver,
    )
}

/// The first check a direct wrapped transfer fails, if any: the
/// authenticated sender, and the presented signer against the
/// sender-derived address.
pub open spec fn direct_wrapped_outcome(
    accounts: WrappedTransferAccounts,
    sender: [u8; 32],
    st: StagedOperation,
    program_id: Seq<u8>,
) -> Option<MessengerError> {
    if sender@ != st.sender@ {
        Some(MessengerError::PdaSenderMismatch)
    } else if !spec_identity_address_matches(
        sender@,
        st.from_chain_id,
        program_id,
        accounts.pda_signer@,
    ) {
        Some(MessengerError::SenderDerivedKeyMismatch)
    } else {
        None
    }
}

/// Runs a direct wrapped transfer exactly once, under the same one-shot
/// guard discipline as the native shape. The token address and chain of
/// the wrapped asset are accepted for interface fidelity and not
/// consulted.
pub fn transaction_direct_transfer_wrapped(
    txn_status: &mut ExecutionStatus,
    config: &Config,
    data_storage: &StagedOperation,
    accounts: &WrappedTransferAccounts,
    token_bridge: &[u8; 32],
    program_id: &[u8; 32],
    sender: [u8; 32],
    sender_chain: Vec<u8>,
    _token_address: Vec<u8>,
    _token_chain: u16,
    target_chain: u16,
    fee: u64,
) -> (r: Result<OutboundTransfer, MessengerError>)
    ensures
        old(txn_status).executed ==> r == Err::<OutboundTransfer, MessengerError>(
            MessengerError::TransactionAlreadyExecuted,
        ),
        !old(txn_status).executed ==> final(txn_status).executed,
        old(txn_status).executed ==> final(txn_status).executed,
        !old(txn_status).executed ==> match direct_wrapped_outcome(
            *accounts,
            sender,
            *data_storage,
            program_id@,
        ) {
            Some(e) => r == Err::<OutboundTransfer, MessengerError>(e),
            None => {
                if config.owner@ != accounts.zebec_eoa@ {
                    r == Err::<OutboundTransfer, MessengerError>(MessengerError::InvalidCaller)
                } else {
                    match derived_address_of(sender@, sender_chain@, program_id@) {
                        Some(p) => r matches Ok(t) && spec_wrapped_outbound(
                            t,
                            *config,
                            *data_storage,
                            *accounts,
                            *token_bridge,
                            sender,
                            sender_chain@,
                            target_chain,
                            fee,
                            data_storage.receiver,
                            p,
                        ),
                        None => r == Err::<OutboundTransfer, MessengerError>(
                            MessengerError::InvalidCPI,
                        ),
                    }
                }
            },
        },
{
    if txn_status.executed {
        return Err(MessengerError::TransactionAlreadyExecuted);
    }
    // Spend the guard before any check.
    txn_status.executed = true;

    if !bytes32_equal(&sender, &data_storage.sender) {
        return Err(MessengerError::PdaSenderMismatch);
    }
    match derive_identity_address(&sender, data_storage.from_chain_id, program_id) {
        None => {
            return Err(MessengerError::SenderDerivedKeyMismatch);
        },
        Some((derived_key, _bump)) => {
            if !bytes32_equal(&accounts.pda_signer, &derived_key) {
                return Err(MessengerError::SenderDerivedKeyMismatch);
            }
        },
    }
    transfer_wrapped(
        config,
        data_storage,
        accounts,
        token_bridge,
        program_id,
        sender,
        sender_chain,
        target_chain,
        fee,
        data_storage.receiver,
    )
}

} // verus!
