use messenger::dispatch::store_msg;
use messenger::errors::MessengerError;
use messenger::registry::{register_chain, EmitterRegistration};
use messenger::state::{StagedOperation, TransactionCounter};
use messenger::vaa::{serialize_vaa, MessageRecord};
use sha3::{Digest, Keccak256};
use solana_program::pubkey::Pubkey;

const CORE_BRIDGE: [u8; 32] = [7u8; 32];

fn posted_key(record: &MessageRecord) -> [u8; 32] {
    let ser = serialize_vaa(record);
    let hash = Keccak256::digest(&ser);
    let (key, _bump) =
        Pubkey::find_program_address(&[b"PostedVAA", &hash], &Pubkey::new_from_array(CORE_BRIDGE));
    key.to_bytes()
}

fn empty_staged() -> StagedOperation {
    StagedOperation {
        amount: 0,
        sender: [0; 32],
        receiver: [0; 32],
        from_chain_id: 0,
        token_mint: [0; 32],
        start_time: 0,
        end_time: 0,
        can_update: false,
        can_cancel: false,
        data_account: [0; 32],
    }
}

fn deposit_payload(amount: u64, sender: [u8; 32], mint: [u8; 32]) -> Vec<u8> {
    let mut buf = vec![6u8];
    buf.extend_from_slice(&amount.to_be_bytes());
    buf.extend_from_slice(&[0u8; 32]); // destination chain, unused
    buf.extend_from_slice(&sender);
    buf.extend_from_slice(&mint);
    buf
}

fn deposit_record(emitter_chain: u16, amount: u64, sender: [u8; 32], mint: [u8; 32]) -> MessageRecord {
    MessageRecord {
        vaa_time: 111,
        nonce: 222,
        emitter_chain,
        emitter_address: [0xaa; 32],
        sequence: 333,
        consistency_level: 1,
        payload: deposit_payload(amount, sender, mint),
    }
}

fn registered_chain_2() -> EmitterRegistration {
    let mut registration = EmitterRegistration { chain_id: 0, emitter_addr: Vec::new() };
    let addr = vec![b'a'; 64]; // "aaaa..." spells the 32-byte address 0xaa..aa
    register_chain(&mut registration, 2, addr).unwrap();
    registration
}

#[test]
fn register_chain_rejects_wrong_length() {
    let mut registration = EmitterRegistration { chain_id: 9, emitter_addr: vec![b'c'; 64] };
    let r = register_chain(&mut registration, 2, vec![b'a'; 63]);
    assert_eq!(r, Err(MessengerError::InvalidEmitterAddress));
    // The registration is untouched.
    assert_eq!(registration.chain_id, 9);
    assert_eq!(registration.emitter_addr, vec![b'c'; 64]);
}

#[test]
fn register_chain_overwrites_on_success() {
    let mut registration = EmitterRegistration { chain_id: 9, emitter_addr: vec![b'c'; 64] };
    register_chain(&mut registration, 2, vec![b'a'; 64]).unwrap();
    assert_eq!(registration.chain_id, 2);
    assert_eq!(registration.emitter_addr, vec![b'a'; 64]);
}

#[test]
fn store_msg_stages_deposit() {
    let registration = registered_chain_2();
    let sender = [5u8; 32];
    let mint = [6u8; 32];
    let record = deposit_record(2, 1000, sender, mint);
    let key = posted_key(&record);
    let mut counter = TransactionCounter { count: 41 };
    let mut staged = empty_staged();
    let r = store_msg(&registration, &mut counter, &mut staged, &CORE_BRIDGE, &key, &record, &sender);
    assert!(r.is_ok());
    assert_eq!(counter.count, 42);
    assert_eq!(staged.amount, 1000);
    assert_eq!(staged.sender, sender);
    assert_eq!(staged.from_chain_id, 2);
    assert_eq!(staged.token_mint, mint);
    // Fields the deposit kind does not carry keep their old values.
    assert_eq!(staged.receiver, [0; 32]);
    assert_eq!(staged.data_account, [0; 32]);
}

#[test]
fn store_msg_rejects_wrong_account_key() {
    let registration = registered_chain_2();
    let sender = [5u8; 32];
    let record = deposit_record(2, 1000, sender, [6u8; 32]);
    let mut key = posted_key(&record);
    key[0] ^= 1;
    let mut counter = TransactionCounter { count: 41 };
    let mut staged = empty_staged();
    let r = store_msg(&registration, &mut counter, &mut staged, &CORE_BRIDGE, &key, &record, &sender);
    assert_eq!(r, Err(MessengerError::VAAKeyMismatch));
    assert_eq!(counter.count, 41);
    assert_eq!(staged, empty_staged());
}

#[test]
fn store_msg_rejects_mutated_registered_emitter() {
    // A single hex digit of the registered address differs.
    let mut registration = registered_chain_2();
    registration.emitter_addr[10] = b'b';
    let sender = [5u8; 32];
    let record = deposit_record(2, 1000, sender, [6u8; 32]);
    let key = posted_key(&record);
    let mut counter = TransactionCounter { count: 41 };
    let mut staged = empty_staged();
    let r = store_msg(&registration, &mut counter, &mut staged, &CORE_BRIDGE, &key, &record, &sender);
    assert_eq!(r, Err(MessengerError::VAAEmitterMismatch));
    assert_eq!(counter.count, 41);
    assert_eq!(staged, empty_staged());
}

#[test]
fn store_msg_rejects_mutated_claimed_emitter() {
    // A single byte of the message's claimed emitter address differs.
    let registration = registered_chain_2();
    let sender = [5u8; 32];
    let mut record = deposit_record(2, 1000, sender, [6u8; 32]);
    record.emitter_address[17] = 0xab;
    let key = posted_key(&record);
    let mut counter = TransactionCounter { count: 41 };
    let mut staged = empty_staged();
    let r = store_msg(&registration, &mut counter, &mut staged, &CORE_BRIDGE, &key, &record, &sender);
    assert_eq!(r, Err(MessengerError::VAAEmitterMismatch));
    assert_eq!(counter.count, 41);
    assert_eq!(staged, empty_staged());
}

#[test]
fn store_msg_rejects_non_hex_registered_emitter() {
    let mut registration = registered_chain_2();
    registration.emitter_addr[0] = b'z';
    let sender = [5u8; 32];
    let record = deposit_record(2, 1000, sender, [6u8; 32]);
    let key = posted_key(&record);
    let mut counter = TransactionCounter { count: 41 };
    let mut staged = empty_staged();
    let r = store_msg(&registration, &mut counter, &mut staged, &CORE_BRIDGE, &key, &record, &sender);
    assert_eq!(r, Err(MessengerError::VAAEmitterMismatch));
}

#[test]
fn store_msg_rejects_wrong_chain() {
    let registration = registered_chain_2();
    let sender = [5u8; 32];
    let record = deposit_record(3, 1000, sender, [6u8; 32]);
    let key = posted_key(&record);
    let mut counter = TransactionCounter { count: 41 };
    let mut staged = empty_staged();
    let r = store_msg(&registration, &mut counter, &mut staged, &CORE_BRIDGE, &key, &record, &sender);
    assert_eq!(r, Err(MessengerError::VAAEmitterMismatch));
}

#[test]
fn store_msg_counter_overflow_leaves_state_unchanged() {
    let registration = registered_chain_2();
    let sender = [5u8; 32];
    let record = deposit_record(2, 1000, sender, [6u8; 32]);
    let key = posted_key(&record);
    let mut counter = TransactionCounter { count: u64::MAX };
    let mut staged = empty_staged();
    let r = store_msg(&registration, &mut counter, &mut staged, &CORE_BRIDGE, &key, &record, &sender);
    assert_eq!(r, Err(MessengerError::Overflow));
    assert_eq!(counter.count, u64::MAX);
    assert_eq!(staged, empty_staged());
}

#[test]
fn store_msg_rejects_unknown_opcode() {
    let registration = registered_chain_2();
    let sender = [5u8; 32];
    let mut record = deposit_record(2, 1000, sender, [6u8; 32]);
    record.payload[0] = 99;
    let key = posted_key(&record);
    let mut counter = TransactionCounter { count: 41 };
    let mut staged = empty_staged();
    let r = store_msg(&registration, &mut counter, &mut staged, &CORE_BRIDGE, &key, &record, &sender);
    assert_eq!(r, Err(MessengerError::InvalidPayload));
    assert_eq!(counter.count, 41);
}

#[test]
fn store_msg_rejects_foreign_sender() {
    let registration = registered_chain_2();
    let embedded = [5u8; 32];
    let caller = [9u8; 32];
    let record = deposit_record(2, 1000, embedded, [6u8; 32]);
    let key = posted_key(&record);
    let mut counter = TransactionCounter { count: 41 };
    let mut staged = empty_staged();
    let r = store_msg(&registration, &mut counter, &mut staged, &CORE_BRIDGE, &key, &record, &caller);
    assert_eq!(r, Err(MessengerError::InvalidSenderWallet));
    assert_eq!(counter.count, 41);
    assert_eq!(staged, empty_staged());
}

#[test]
fn store_msg_stages_withdraw_stream_under_receiver_identity() {
    let registration = registered_chain_2();
    let withdrawer = [3u8; 32];
    let depositor = [4u8; 32];
    let mint = [6u8; 32];
    let data_account = [8u8; 32];
    let mut payload = vec![4u8];
    payload.extend_from_slice(&[0u8; 32]);
    payload.extend_from_slice(&withdrawer);
    payload.extend_from_slice(&mint);
    payload.extend_from_slice(&depositor);
    payload.extend_from_slice(&data_account);
    let record = MessageRecord {
        vaa_time: 1,
        nonce: 2,
        emitter_chain: 2,
        emitter_address: [0xaa; 32],
        sequence: 3,
        consistency_level: 1,
        payload,
    };
    let key = posted_key(&record);
    let mut counter = TransactionCounter { count: 0 };
    let mut staged = empty_staged();
    // The caller must authenticate as the withdrawer, not the depositor.
    let r = store_msg(
        &registration,
        &mut counter,
        &mut staged,
        &CORE_BRIDGE,
        &key,
        &record,
        &withdrawer,
    );
    assert!(r.is_ok());
    assert_eq!(staged.sender, depositor);
    assert_eq!(staged.receiver, withdrawer);
    assert_eq!(staged.data_account, data_account);
    assert_eq!(counter.count, 1);
}
