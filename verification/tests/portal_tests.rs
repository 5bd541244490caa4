use messenger::errors::MessengerError;
use messenger::portal::{
    transaction_direct_transfer_native, transfer_native, transfer_wrapped, NativeTransferAccounts,
    WrappedTransferAccounts,
};
use messenger::state::{advance_nonce, initialize, Config, ExecutionStatus, StagedOperation};
use solana_program::pubkey::Pubkey;

const PROGRAM_ID: [u8; 32] = [11u8; 32];
const TOKEN_BRIDGE: [u8; 32] = [13u8; 32];

fn identity_pda(identity: &[u8; 32], chain: u64) -> [u8; 32] {
    let seed = chain.to_string();
    let (key, _bump) = Pubkey::find_program_address(
        &[identity, seed.as_bytes()],
        &Pubkey::new_from_array(PROGRAM_ID),
    );
    key.to_bytes()
}

fn staged_op(sender: [u8; 32], receiver: [u8; 32], mint: [u8; 32], amount: u64) -> StagedOperation {
    StagedOperation {
        amount,
        sender,
        receiver,
        from_chain_id: 2,
        token_mint: mint,
        start_time: 0,
        end_time: 0,
        can_update: false,
        can_cancel: false,
        data_account: [0; 32],
    }
}

fn native_accounts(owner: [u8; 32], mint: [u8; 32], pda_signer: [u8; 32]) -> NativeTransferAccounts {
    NativeTransferAccounts {
        zebec_eoa: owner,
        portal_config: [21; 32],
        from: [22; 32],
        mint,
        portal_custody: [23; 32],
        portal_authority_signer: [24; 32],
        portal_custody_signer: [25; 32],
        bridge_config: [26; 32],
        portal_message: [27; 32],
        portal_emitter: [28; 32],
        portal_sequence: [29; 32],
        bridge_fee_collector: [30; 32],
        clock: [31; 32],
        rent: [32; 32],
        system_program: [33; 32],
        core_bridge_program: [34; 32],
        token_program: [35; 32],
        pda_signer,
    }
}

#[test]
fn initialize_sets_owner_and_first_nonce() {
    let mut config = Config { owner: [0; 32], nonce: 0 };
    initialize(&mut config, &[9; 32]);
    assert_eq!(config.owner, [9; 32]);
    assert_eq!(config.nonce, 1);
}

#[test]
fn advance_nonce_steps_by_exactly_one() {
    let mut config = Config { owner: [9; 32], nonce: 1 };
    assert!(advance_nonce(&mut config).is_ok());
    assert_eq!(config.nonce, 2);
    assert!(advance_nonce(&mut config).is_ok());
    assert_eq!(config.nonce, 3);
}

#[test]
fn advance_nonce_overflow_leaves_config_unchanged() {
    let mut config = Config { owner: [9; 32], nonce: u32::MAX };
    assert_eq!(advance_nonce(&mut config), Err(MessengerError::Overflow));
    assert_eq!(config.nonce, u32::MAX);
    assert_eq!(config.owner, [9; 32]);
}

#[test]
fn transfer_native_builds_exact_instruction() {
    let owner = [9u8; 32];
    let sender = [5u8; 32];
    let receiver = [7u8; 32];
    let mint = [6u8; 32];
    let config = Config { owner, nonce: 1 };
    let storage = staged_op(sender, receiver, mint, 500);
    let accounts = native_accounts(owner, mint, identity_pda(&sender, 2));
    let t = transfer_native(
        &config,
        &storage,
        &accounts,
        &TOKEN_BRIDGE,
        &PROGRAM_ID,
        sender,
        b"2".to_vec(),
        4,
        77,
        receiver,
    )
    .unwrap();
    assert_eq!(t.approve_amount, 500);
    assert_eq!(t.program_id, TOKEN_BRIDGE);
    // The instruction data: portal opcode 5, then nonce, amount and fee
    // little-endian, the target address verbatim, and the target chain.
    let mut expected = vec![5u8];
    expected.extend_from_slice(&1u32.to_le_bytes());
    expected.extend_from_slice(&500u64.to_le_bytes());
    expected.extend_from_slice(&77u64.to_le_bytes());
    expected.extend_from_slice(&receiver);
    expected.extend_from_slice(&4u16.to_le_bytes());
    assert_eq!(t.data, expected);
    // The account list is order-sensitive; spot-check its shape.
    assert_eq!(t.accounts.len(), 17);
    assert_eq!(t.accounts[0].pubkey, owner);
    assert!(t.accounts[0].is_signer && t.accounts[0].is_writable);
    assert_eq!(t.accounts[3].pubkey, mint);
    assert!(!t.accounts[3].is_signer && t.accounts[3].is_writable);
    assert_eq!(t.accounts[8].pubkey, [27; 32]); // portal message
    assert!(t.accounts[8].is_signer && t.accounts[8].is_writable);
    assert_eq!(t.accounts[16].pubkey, [35; 32]); // token program
    assert!(!t.accounts[16].is_signer && !t.accounts[16].is_writable);
    assert_eq!(t.signer.sender, sender);
    assert_eq!(t.signer.chain_id, b"2".to_vec());
}

#[test]
fn transfer_native_rejects_foreign_caller() {
    let owner = [9u8; 32];
    let sender = [5u8; 32];
    let config = Config { owner, nonce: 1 };
    let storage = staged_op(sender, [7; 32], [6; 32], 500);
    let accounts = native_accounts([10; 32], [6; 32], identity_pda(&sender, 2));
    let r = transfer_native(
        &config,
        &storage,
        &accounts,
        &TOKEN_BRIDGE,
        &PROGRAM_ID,
        sender,
        b"2".to_vec(),
        4,
        77,
        [7; 32],
    );
    assert_eq!(r, Err(MessengerError::InvalidCaller));
}

#[test]
fn transfer_wrapped_uses_its_own_opcode() {
    let owner = [9u8; 32];
    let sender = [5u8; 32];
    let config = Config { owner, nonce: 6 };
    let storage = staged_op(sender, [7; 32], [6; 32], 900);
    let accounts = WrappedTransferAccounts {
        zebec_eoa: owner,
        portal_config: [21; 32],
        from: [22; 32],
        pda_signer: identity_pda(&sender, 2),
        wrapped_mint: [40; 32],
        wrapped_meta: [41; 32],
        portal_authority_signer: [24; 32],
        bridge_config: [26; 32],
        portal_message: [27; 32],
        portal_emitter: [28; 32],
        portal_sequence: [29; 32],
        bridge_fee_collector: [30; 32],
        clock: [31; 32],
        rent: [32; 32],
        system_program: [33; 32],
        core_bridge_program: [34; 32],
        token_program: [35; 32],
    };
    let t = transfer_wrapped(
        &config,
        &storage,
        &accounts,
        &TOKEN_BRIDGE,
        &PROGRAM_ID,
        sender,
        b"2".to_vec(),
        4,
        0,
        [7; 32],
    )
    .unwrap();
    assert_eq!(t.data[0], 4); // portal opcode for a wrapped transfer
    assert_eq!(t.accounts.len(), 17);
    // The derived signer is marked in the wrapped account list.
    assert_eq!(t.accounts[3].pubkey, accounts.pda_signer);
    assert!(t.accounts[3].is_signer && !t.accounts[3].is_writable);
}

#[test]
fn direct_native_transfer_is_one_shot() {
    let owner = [9u8; 32];
    let sender = [5u8; 32];
    let mint = [6u8; 32];
    let config = Config { owner, nonce: 1 };
    let storage = staged_op(sender, [7; 32], mint, 500);
    let accounts = native_accounts(owner, mint, identity_pda(&sender, 2));
    let mut status = ExecutionStatus { executed: false };
    let first = transaction_direct_transfer_native(
        &mut status,
        &config,
        &storage,
        &accounts,
        &TOKEN_BRIDGE,
        &PROGRAM_ID,
        sender,
        b"2".to_vec(),
        4,
        77,
    );
    assert!(first.is_ok());
    assert!(status.executed);
    // The target of the transfer is the staged receiver.
    let t = first.unwrap();
    assert_eq!(&t.data[21..53], &[7u8; 32]);

    let second = transaction_direct_transfer_native(
        &mut status,
        &config,
        &storage,
        &accounts,
        &TOKEN_BRIDGE,
        &PROGRAM_ID,
        sender,
        b"2".to_vec(),
        4,
        77,
    );
    assert_eq!(second, Err(MessengerError::TransactionAlreadyExecuted));
    assert!(status.executed);
}

#[test]
fn direct_native_transfer_rejects_wrong_mint() {
    let owner = [9u8; 32];
    let sender = [5u8; 32];
    let config = Config { owner, nonce: 1 };
    let storage = staged_op(sender, [7; 32], [6; 32], 500);
    let accounts = native_accounts(owner, [19; 32], identity_pda(&sender, 2));
    let mut status = ExecutionStatus { executed: false };
    let r = transaction_direct_transfer_native(
        &mut status,
        &config,
        &storage,
        &accounts,
        &TOKEN_BRIDGE,
        &PROGRAM_ID,
        sender,
        b"2".to_vec(),
        4,
        77,
    );
    assert_eq!(r, Err(MessengerError::DataAccountMismatch));
    // The guard is spent even by the failed attempt.
    assert!(status.executed);
}

#[test]
fn direct_native_transfer_rejects_wrong_signer() {
    let owner = [9u8; 32];
    let sender = [5u8; 32];
    let mint = [6u8; 32];
    let config = Config { owner, nonce: 1 };
    let storage = staged_op(sender, [7; 32], mint, 500);
    // The presented signer is derived from the wrong identity.
    let accounts = native_accounts(owner, mint, identity_pda(&[8; 32], 2));
    let mut status = ExecutionStatus { executed: false };
    let r = transaction_direct_transfer_native(
        &mut status,
        &config,
        &storage,
        &accounts,
        &TOKEN_BRIDGE,
        &PROGRAM_ID,
        sender,
        b"2".to_vec(),
        4,
        77,
    );
    assert_eq!(r, Err(MessengerError::SenderDerivedKeyMismatch));
}
