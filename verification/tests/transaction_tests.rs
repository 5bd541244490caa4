use messenger::errors::MessengerError;
use messenger::state::{ExecutionStatus, StagedOperation, StagedTransaction, TransactionAccount};
use messenger::transaction::{
    create_transaction_instant_transfer, create_transaction_receiver_withdraw,
    create_transaction_sender_withdraw, create_transaction_stream, execute_transaction,
    transaction_deposit,
};
use solana_program::pubkey::Pubkey;

const PROGRAM_ID: [u8; 32] = [11u8; 32];

fn identity_pda(identity: &[u8; 32], chain: u64) -> [u8; 32] {
    let seed = chain.to_string();
    let (key, _bump) = Pubkey::find_program_address(
        &[identity, seed.as_bytes()],
        &Pubkey::new_from_array(PROGRAM_ID),
    );
    key.to_bytes()
}

fn acc(pubkey: [u8; 32]) -> TransactionAccount {
    TransactionAccount { pubkey, is_signer: false, is_writable: false }
}

fn empty_transaction() -> StagedTransaction {
    StagedTransaction { program_id: [0; 32], accounts: Vec::new(), data: Vec::new(), did_execute: false }
}

fn staged_op(sender: [u8; 32], receiver: [u8; 32], mint: [u8; 32], amount: u64) -> StagedOperation {
    StagedOperation {
        amount,
        sender,
        receiver,
        from_chain_id: 2,
        token_mint: mint,
        start_time: 0,
        end_time: 0,
        can_update: false,
        can_cancel: false,
        data_account: [0; 32],
    }
}

fn amount_data(amount: u64) -> Vec<u8> {
    let mut data = vec![0u8; 8];
    data.extend_from_slice(&amount.to_le_bytes());
    data
}

#[test]
fn deposit_executes_and_marks_signer() {
    let sender = [5u8; 32];
    let mint = [6u8; 32];
    let storage = staged_op(sender, [0; 32], mint, 500);
    let sender_pda = identity_pda(&sender, 2);
    let mut accs = vec![acc([1; 32]); 7];
    accs[1] = acc(sender_pda);
    accs[6] = acc(mint);
    let status = ExecutionStatus { executed: false };
    let mut transaction = empty_transaction();
    let r = transaction_deposit(
        &status,
        &mut transaction,
        &storage,
        &PROGRAM_ID,
        [42; 32],
        accs,
        amount_data(500),
        b"2".to_vec(),
        sender,
    );
    let req = r.unwrap();
    assert!(transaction.did_execute);
    assert_eq!(req.program_id, [42; 32]);
    assert_eq!(req.data, amount_data(500));
    assert_eq!(req.signer.sender, sender);
    assert_eq!(req.signer.chain_id, b"2".to_vec());
    // The entry holding the derived signer's key is marked as signer.
    assert!(req.accounts[1].is_signer);
    assert!(!req.accounts[0].is_signer);
    assert_eq!(req.accounts.len(), 7);
}

#[test]
fn deposit_rejects_wrong_amount_record() {
    let sender = [5u8; 32];
    let mint = [6u8; 32];
    let storage = staged_op(sender, [0; 32], mint, 500);
    let mut accs = vec![acc([1; 32]); 7];
    accs[1] = acc(identity_pda(&sender, 2));
    accs[6] = acc(mint);
    let status = ExecutionStatus { executed: false };
    let mut transaction = empty_transaction();
    let r = transaction_deposit(
        &status,
        &mut transaction,
        &storage,
        &PROGRAM_ID,
        [42; 32],
        accs,
        amount_data(501),
        b"2".to_vec(),
        sender,
    );
    assert_eq!(r, Err(MessengerError::AmountMismatch));
    assert!(!transaction.did_execute);
}

#[test]
fn deposit_refuses_spent_guard() {
    let sender = [5u8; 32];
    let storage = staged_op(sender, [0; 32], [6; 32], 500);
    let status = ExecutionStatus { executed: true };
    let mut transaction = empty_transaction();
    let r = transaction_deposit(
        &status,
        &mut transaction,
        &storage,
        &PROGRAM_ID,
        [42; 32],
        vec![acc([1; 32]); 7],
        amount_data(500),
        b"2".to_vec(),
        sender,
    );
    assert_eq!(r, Err(MessengerError::TransactionAlreadyCreated));
    assert_eq!(transaction, empty_transaction());
}

#[test]
fn sender_withdraw_mint_mismatch_still_stages() {
    // The mint at position 7 differs from the staged mint: the call fails
    // with MintKeyMismatch, yet the transaction body is already staged and
    // the latch is still clear.
    let sender = [5u8; 32];
    let storage = staged_op(sender, [0; 32], [6; 32], 500);
    let mut accs = vec![acc([1; 32]); 8];
    accs[2] = acc(identity_pda(&sender, 2));
    accs[7] = acc([9; 32]); // wrong mint
    let status = ExecutionStatus { executed: false };
    let mut transaction = empty_transaction();
    let r = create_transaction_sender_withdraw(
        &status,
        &mut transaction,
        &storage,
        &PROGRAM_ID,
        [42; 32],
        accs.clone(),
        amount_data(500),
        sender,
    );
    assert_eq!(r, Err(MessengerError::MintKeyMismatch));
    assert_eq!(transaction.program_id, [42; 32]);
    assert_eq!(transaction.accounts, accs);
    assert_eq!(transaction.data, amount_data(500));
    assert!(!transaction.did_execute);
}

#[test]
fn sender_withdraw_stages_for_execution() {
    let sender = [5u8; 32];
    let mint = [6u8; 32];
    let storage = staged_op(sender, [0; 32], mint, 500);
    let mut accs = vec![acc([1; 32]); 8];
    accs[2] = acc(identity_pda(&sender, 2));
    accs[7] = acc(mint);
    let status = ExecutionStatus { executed: false };
    let mut transaction = empty_transaction();
    let r = create_transaction_sender_withdraw(
        &status,
        &mut transaction,
        &storage,
        &PROGRAM_ID,
        [42; 32],
        accs,
        amount_data(500),
        sender,
    );
    assert_eq!(r, Ok(()));
    assert!(!transaction.did_execute);
}

#[test]
fn execute_twice_hits_the_latch() {
    // Stage a transaction, then execute it twice, each attempt under a
    // fresh execution guard: the first call succeeds and burns the
    // transaction, the second fails with AlreadyExecuted before any
    // invocation is handed out.
    let sender = [5u8; 32];
    let mut transaction = StagedTransaction {
        program_id: [42; 32],
        accounts: vec![acc([1; 32]); 3],
        data: vec![1, 2, 3],
        did_execute: false,
    };
    let mut status_one = ExecutionStatus { executed: false };
    let first = execute_transaction(
        &mut status_one,
        &mut transaction,
        &PROGRAM_ID,
        sender,
        b"2".to_vec(),
    );
    assert!(first.is_ok());
    assert!(status_one.executed);
    assert!(transaction.did_execute);

    let mut status_two = ExecutionStatus { executed: false };
    let second = execute_transaction(
        &mut status_two,
        &mut transaction,
        &PROGRAM_ID,
        sender,
        b"2".to_vec(),
    );
    assert_eq!(second, Err(MessengerError::AlreadyExecuted));
    assert!(transaction.did_execute);
    // The guard of the second attempt is spent as well and stays spent.
    assert!(status_two.executed);
}

#[test]
fn execute_refuses_spent_guard() {
    let mut transaction = empty_transaction();
    let mut status = ExecutionStatus { executed: true };
    let r = execute_transaction(&mut status, &mut transaction, &PROGRAM_ID, [5; 32], b"2".to_vec());
    assert_eq!(r, Err(MessengerError::TransactionAlreadyExecuted));
    assert!(status.executed);
    assert!(!transaction.did_execute);
}

fn stream_data(start: u64, end: u64, amount: u64, can_cancel: bool, can_update: bool) -> Vec<u8> {
    let mut data = vec![0u8; 8];
    data.extend_from_slice(&start.to_le_bytes());
    data.extend_from_slice(&end.to_le_bytes());
    data.extend_from_slice(&amount.to_le_bytes());
    data.push(can_cancel as u8);
    data.push(can_update as u8);
    data
}

#[test]
fn stream_create_checks_each_record_field() {
    let sender = [5u8; 32];
    let receiver = [7u8; 32];
    let mint = [6u8; 32];
    let mut storage = staged_op(sender, receiver, mint, 500);
    storage.start_time = 100;
    storage.end_time = 200;
    storage.can_cancel = true;
    storage.can_update = false;
    let mut accs = vec![acc([1; 32]); 10];
    accs[5] = acc(identity_pda(&sender, 2));
    accs[6] = acc(identity_pda(&receiver, 2));
    accs[9] = acc(mint);
    let status = ExecutionStatus { executed: false };

    let cases = [
        (stream_data(100, 200, 500, true, false), Ok(())),
        (stream_data(100, 200, 501, true, false), Err(MessengerError::AmountMismatch)),
        (stream_data(101, 200, 500, true, false), Err(MessengerError::StartTimeMismatch)),
        (stream_data(100, 201, 500, true, false), Err(MessengerError::EndTimeMismatch)),
        (stream_data(100, 200, 500, false, false), Err(MessengerError::CanCancelMismatch)),
        (stream_data(100, 200, 500, true, true), Err(MessengerError::CanUpdateMismatch)),
        (vec![0u8; 33], Err(MessengerError::InvalidPayload)),
    ];
    for (data, expected) in cases {
        let mut transaction = empty_transaction();
        let r = create_transaction_stream(
            &status,
            &mut transaction,
            &storage,
            &PROGRAM_ID,
            [42; 32],
            accs.clone(),
            data,
            sender,
        );
        assert_eq!(r, expected);
        assert!(!transaction.did_execute);
    }
}

#[test]
fn stream_create_rejects_foreign_sender() {
    let sender = [5u8; 32];
    let storage = staged_op(sender, [7; 32], [6; 32], 500);
    let mut accs = vec![acc([1; 32]); 10];
    accs[9] = acc([6; 32]);
    let status = ExecutionStatus { executed: false };
    let mut transaction = empty_transaction();
    let r = create_transaction_stream(
        &status,
        &mut transaction,
        &storage,
        &PROGRAM_ID,
        [42; 32],
        accs,
        stream_data(0, 0, 500, false, false),
        [8; 32], // not the staged sender
    );
    assert_eq!(r, Err(MessengerError::PdaSenderMismatch));
}

#[test]
fn stream_create_rejects_wrong_receiver_derived_key() {
    let sender = [5u8; 32];
    let receiver = [7u8; 32];
    let mint = [6u8; 32];
    let storage = staged_op(sender, receiver, mint, 500);
    let mut accs = vec![acc([1; 32]); 10];
    accs[5] = acc(identity_pda(&sender, 2));
    accs[6] = acc(identity_pda(&sender, 2)); // not the receiver's derived key
    accs[9] = acc(mint);
    let status = ExecutionStatus { executed: false };
    let mut transaction = empty_transaction();
    let r = create_transaction_stream(
        &status,
        &mut transaction,
        &storage,
        &PROGRAM_ID,
        [42; 32],
        accs,
        stream_data(0, 0, 500, false, false),
        sender,
    );
    assert_eq!(r, Err(MessengerError::ReceiverDerivedKeyMismatch));
}

#[test]
fn receiver_withdraw_authenticates_the_receiver() {
    let sender = [5u8; 32];
    let receiver = [7u8; 32];
    let mint = [6u8; 32];
    let mut storage = staged_op(sender, receiver, mint, 500);
    storage.data_account = [15; 32];
    let mut accs = vec![acc([1; 32]); 13];
    accs[1] = acc(identity_pda(&receiver, 2));
    accs[2] = acc(identity_pda(&sender, 2));
    accs[6] = acc([15; 32]);
    accs[12] = acc(mint);
    let status = ExecutionStatus { executed: false };

    // The caller authenticates as the receiver: accepted.
    let mut transaction = empty_transaction();
    let r = create_transaction_receiver_withdraw(
        &status,
        &mut transaction,
        &storage,
        &PROGRAM_ID,
        [42; 32],
        accs.clone(),
        Vec::new(),
        receiver,
    );
    assert_eq!(r, Ok(()));

    // The depositor may not stage the receiver's withdrawal.
    let mut transaction = empty_transaction();
    let r = create_transaction_receiver_withdraw(
        &status,
        &mut transaction,
        &storage,
        &PROGRAM_ID,
        [42; 32],
        accs,
        Vec::new(),
        sender,
    );
    assert_eq!(r, Err(MessengerError::PdaReceiverMismatch));
}

#[test]
fn swapped_identities_change_the_derived_address() {
    // Derivation is order-sensitive: the sender's and the receiver's
    // derived addresses differ, so supplying them swapped fails the
    // sender-derived check.
    let sender = [5u8; 32];
    let receiver = [7u8; 32];
    let sender_pda = identity_pda(&sender, 2);
    let receiver_pda = identity_pda(&receiver, 2);
    assert_ne!(sender_pda, receiver_pda);

    let mint = [6u8; 32];
    let storage = staged_op(sender, receiver, mint, 500);
    let mut accs = vec![acc([1; 32]); 9];
    accs[8] = acc(mint);
    // Swapped: position 2 should hold the sender's derived address.
    accs[2] = acc(receiver_pda);
    accs[1] = acc(sender_pda);
    let status = ExecutionStatus { executed: false };
    let mut transaction = empty_transaction();
    let r = create_transaction_instant_transfer(
        &status,
        &mut transaction,
        &storage,
        &PROGRAM_ID,
        [42; 32],
        accs.clone(),
        amount_data(500),
        sender,
    );
    assert_eq!(r, Err(MessengerError::SenderDerivedKeyMismatch));

    // In the right order the same accounts pass.
    accs[2] = acc(sender_pda);
    accs[1] = acc(receiver_pda);
    let mut transaction = empty_transaction();
    let r = create_transaction_instant_transfer(
        &status,
        &mut transaction,
        &storage,
        &PROGRAM_ID,
        [42; 32],
        accs,
        amount_data(500),
        sender,
    );
    assert_eq!(r, Ok(()));
}
