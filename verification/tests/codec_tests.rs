use messenger::codec::{decode_payload, encode_payload, Payload};
use messenger::decimal::u64_to_decimal;
use messenger::errors::MessengerError;
use messenger::records::{decode_stream, decode_stream_update, decode_token_amount};
use messenger::vaa::{serialize_vaa, MessageRecord};
use messenger::wide::Wide256;

fn deposit_payload(amount: u64, to_chain: u64, sender: [u8; 32], mint: [u8; 32]) -> Vec<u8> {
    let mut buf = vec![6u8];
    buf.extend_from_slice(&amount.to_be_bytes());
    let mut chain = [0u8; 32];
    chain[24..].copy_from_slice(&to_chain.to_be_bytes());
    buf.extend_from_slice(&chain);
    buf.extend_from_slice(&sender);
    buf.extend_from_slice(&mint);
    buf
}

#[test]
fn decode_deposit_fields() {
    let sender = [1u8; 32];
    let mint = [2u8; 32];
    let buf = deposit_payload(1000, 7, sender, mint);
    assert_eq!(buf.len(), 105);
    match decode_payload(&buf).unwrap() {
        Payload::Deposit { amount, to_chain, sender: s, token_mint } => {
            assert_eq!(amount, 1000);
            assert_eq!(to_chain, Wide256 { limbs: [0, 0, 0, 7] });
            assert_eq!(s, sender);
            assert_eq!(token_mint, mint);
        }
        other => panic!("wrong variant: {:?}", other),
    }
}

#[test]
fn decode_rejects_empty_buffer() {
    assert_eq!(decode_payload(&[]), Err(MessengerError::InvalidPayload));
}

#[test]
fn decode_rejects_unknown_opcode() {
    assert_eq!(decode_payload(&[3u8; 200]), Err(MessengerError::InvalidPayload));
}

#[test]
fn decode_rejects_short_buffer() {
    // One byte short of the deposit layout.
    let buf = vec![6u8; 104];
    assert_eq!(decode_payload(&buf), Err(MessengerError::InvalidPayload));
}

#[test]
fn decode_accepts_exact_lengths_per_opcode() {
    for (code, len) in [
        (2u8, 169usize),
        (4, 161),
        (6, 105),
        (8, 161),
        (10, 105),
        (12, 137),
        (14, 185),
        (16, 161),
        (17, 137),
    ] {
        let mut buf = vec![0u8; len];
        buf[0] = code;
        assert!(decode_payload(&buf).is_ok(), "opcode {} at length {}", code, len);
        assert!(decode_payload(&buf[..len - 1]).is_err());
    }
}

#[test]
fn stream_payload_round_trips() {
    let mut buf = vec![2u8];
    buf.extend_from_slice(&100u64.to_be_bytes()); // start
    buf.extend_from_slice(&200u64.to_be_bytes()); // end
    buf.extend_from_slice(&5000u64.to_be_bytes()); // amount
    buf.extend_from_slice(&[9u8; 32]); // to_chain
    buf.extend_from_slice(&[3u8; 32]); // sender
    buf.extend_from_slice(&[4u8; 32]); // receiver
    buf.extend_from_slice(&1u64.to_be_bytes()); // can_update
    buf.extend_from_slice(&0u64.to_be_bytes()); // can_cancel
    buf.extend_from_slice(&[5u8; 32]); // mint
    assert_eq!(buf.len(), 169);
    let decoded = decode_payload(&buf).unwrap();
    let reencoded = encode_payload(&decoded);
    assert_eq!(reencoded, buf);
}

#[test]
fn every_layout_round_trips() {
    for (code, len) in [
        (2u8, 169usize),
        (4, 161),
        (6, 105),
        (8, 161),
        (10, 105),
        (12, 137),
        (14, 185),
        (16, 161),
        (17, 137),
    ] {
        let mut buf: Vec<u8> = (0..len).map(|i| (i % 251) as u8).collect();
        buf[0] = code;
        let decoded = decode_payload(&buf).unwrap();
        assert_eq!(encode_payload(&decoded), buf, "opcode {}", code);
    }
}

#[test]
fn serialize_vaa_exact_bytes() {
    let record = MessageRecord {
        vaa_time: 0x01020304,
        nonce: 0x05060708,
        emitter_chain: 0x090a,
        emitter_address: [0xbb; 32],
        sequence: 0x1112131415161718,
        consistency_level: 0x1f,
        payload: vec![0xde, 0xad],
    };
    let mut expected = vec![1u8, 2, 3, 4, 5, 6, 7, 8, 9, 0x0a];
    expected.extend_from_slice(&[0xbb; 32]);
    expected.extend_from_slice(&[0x11, 0x12, 0x13, 0x14, 0x15, 0x16, 0x17, 0x18, 0x1f]);
    expected.extend_from_slice(&[0xde, 0xad]);
    assert_eq!(serialize_vaa(&record), expected);
}

#[test]
fn decimal_rendering_matches_to_string() {
    for n in [0u64, 1, 9, 10, 65535, 12345, u64::MAX] {
        assert_eq!(u64_to_decimal(n), n.to_string().into_bytes());
    }
}

#[test]
fn token_amount_record_decodes_exactly() {
    let mut data = vec![0u8; 8]; // discriminator
    data.extend_from_slice(&777u64.to_le_bytes());
    let record = decode_token_amount(&data).unwrap();
    assert_eq!(record.amount, 777);
    assert!(decode_token_amount(&data[..15]).is_none());
    data.push(0);
    assert!(decode_token_amount(&data).is_none());
}

#[test]
fn stream_record_decodes_exactly() {
    let mut data = vec![0u8; 8];
    data.extend_from_slice(&11u64.to_le_bytes());
    data.extend_from_slice(&22u64.to_le_bytes());
    data.extend_from_slice(&33u64.to_le_bytes());
    data.push(1); // can_cancel
    data.push(0); // can_update
    let record = decode_stream(&data).unwrap();
    assert_eq!(record.start_time, 11);
    assert_eq!(record.end_time, 22);
    assert_eq!(record.amount, 33);
    assert!(record.can_cancel);
    assert!(!record.can_update);
}

#[test]
fn stream_record_rejects_loose_flag_bytes() {
    let mut data = vec![0u8; 8];
    data.extend_from_slice(&11u64.to_le_bytes());
    data.extend_from_slice(&22u64.to_le_bytes());
    data.extend_from_slice(&33u64.to_le_bytes());
    data.push(2); // not a strict boolean
    data.push(0);
    assert!(decode_stream(&data).is_none());
}

#[test]
fn stream_update_record_decodes_exactly() {
    let mut data = vec![0u8; 8];
    data.extend_from_slice(&44u64.to_le_bytes());
    data.extend_from_slice(&55u64.to_le_bytes());
    data.extend_from_slice(&66u64.to_le_bytes());
    let record = decode_stream_update(&data).unwrap();
    assert_eq!(record.start_time, 44);
    assert_eq!(record.end_time, 55);
    assert_eq!(record.amount, 66);
    assert!(decode_stream_update(&data[..31]).is_none());
}
