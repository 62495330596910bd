use xstream_bridge::codec::{
    decode, encode, InitAccountPayload, InitTokenAccountPayload, Operation, XstreamDepositPayload,
    XstreamPausePayload, XstreamStartPayload, XstreamTransferPayload, XstreamUpdatePayload,
    XstreamWithdrawDepositPayload, XstreamWithdrawPayload,
};
use xstream_bridge::errors::MessengerError;

fn bytes32(fill: u8) -> Vec<u8> {
    vec![fill; 32]
}

fn round_trip(op: Operation) {
    let encoded = encode(&op);
    let decoded = decode(&encoded).expect("canonical bytes must decode");
    assert_eq!(decoded, op);
}

#[test]
fn round_trip_open_stream() {
    round_trip(Operation::OpenStream(XstreamStartPayload {
        start_time: 10,
        end_time: 20_000_000_000,
        amount: 123_456_789,
        to_chain_id: 2,
        sender: bytes32(0xaa),
        receiver: bytes32(0xbb),
        can_update: 1,
        can_cancel: 0,
        token_mint: bytes32(0xcc),
    }));
}

#[test]
fn round_trip_receiver_withdraw() {
    round_trip(Operation::ReceiverWithdraw(XstreamWithdrawPayload {
        to_chain_id: 65535,
        withdrawer: bytes32(1),
        token_mint: bytes32(2),
        depositor: bytes32(3),
        data_account: bytes32(4),
    }));
}

#[test]
fn round_trip_deposit() {
    round_trip(Operation::Deposit(XstreamDepositPayload {
        amount: u64::MAX,
        to_chain_id: 0,
        sender: bytes32(9),
        token_mint: bytes32(8),
    }));
}

#[test]
fn round_trip_pause_resume() {
    round_trip(Operation::PauseResume(XstreamPausePayload {
        to_chain_id: 7,
        depositor: bytes32(5),
        token_mint: bytes32(6),
        receiver: bytes32(7),
        data_account: bytes32(8),
    }));
}

#[test]
fn round_trip_sender_withdraw() {
    round_trip(Operation::SenderWithdraw(XstreamWithdrawDepositPayload {
        amount: 1,
        to_chain_id: 300,
        withdrawer: bytes32(0),
        token_mint: bytes32(255),
    }));
}

#[test]
fn round_trip_instant_transfer() {
    round_trip(Operation::InstantTransfer(XstreamTransferPayload {
        amount: 42,
        to_chain_id: 2,
        sender: bytes32(0x11),
        token_mint: bytes32(0x22),
        receiver: bytes32(0x33),
    }));
}

#[test]
fn round_trip_update_stream() {
    round_trip(Operation::UpdateStream(XstreamUpdatePayload {
        start_time: 5,
        end_time: 6,
        amount: 7,
        to_chain_id: 8,
        sender: bytes32(0x41),
        receiver: bytes32(0x42),
        token_mint: bytes32(0x43),
        data_account: bytes32(0x44),
    }));
}

#[test]
fn round_trip_cancel_stream() {
    round_trip(Operation::CancelStream(XstreamPausePayload {
        to_chain_id: 9,
        depositor: bytes32(0x51),
        token_mint: bytes32(0x52),
        receiver: bytes32(0x53),
        data_account: bytes32(0x54),
    }));
}

#[test]
fn round_trip_direct_transfer() {
    round_trip(Operation::DirectTransfer(XstreamTransferPayload {
        amount: 999,
        to_chain_id: 1,
        sender: bytes32(0x61),
        token_mint: bytes32(0x62),
        receiver: bytes32(0x63),
    }));
}

#[test]
fn round_trip_init_account() {
    round_trip(Operation::InitAccount(InitAccountPayload {
        pda_seed: bytes32(0x71),
        to_chain: bytes32(0),
    }));
}

#[test]
fn round_trip_init_token_account() {
    round_trip(Operation::InitTokenAccount(InitTokenAccountPayload {
        pda_seed: bytes32(0x81),
        token_mint: bytes32(0x82),
        to_chain: bytes32(0x83),
    }));
}

#[test]
fn deposit_exact_wire_layout() {
    // tag 6, amount 1000 big-endian in 8 bytes, chain 2 in 2 bytes,
    // sender 32 bytes, mint 32 bytes
    let mut payload = vec![6u8];
    payload.extend_from_slice(&[0, 0, 0, 0, 0, 0, 0x03, 0xe8]);
    payload.extend_from_slice(&[0, 2]);
    payload.extend_from_slice(&[0xaa; 32]);
    payload.extend_from_slice(&[0xcc; 32]);
    assert_eq!(payload.len(), 75);
    let op = decode(&payload).expect("well-formed deposit payload");
    match op {
        Operation::Deposit(p) => {
            assert_eq!(p.amount, 1000);
            assert_eq!(p.to_chain_id, 2);
            assert_eq!(p.sender, vec![0xaa; 32]);
            assert_eq!(p.token_mint, vec![0xcc; 32]);
        }
        other => panic!("decoded the wrong operation: {:?}", other),
    }
}

#[test]
fn open_stream_exact_wire_layout() {
    let op = Operation::OpenStream(XstreamStartPayload {
        start_time: 1,
        end_time: 2,
        amount: 3,
        to_chain_id: 4,
        sender: bytes32(0xaa),
        receiver: bytes32(0xbb),
        can_update: 1,
        can_cancel: 0,
        token_mint: bytes32(0xcc),
    });
    let encoded = encode(&op);
    assert_eq!(encoded.len(), 139);
    assert_eq!(encoded[0], 2);
    assert_eq!(&encoded[1..9], &[0, 0, 0, 0, 0, 0, 0, 1]);
    assert_eq!(&encoded[9..17], &[0, 0, 0, 0, 0, 0, 0, 2]);
    assert_eq!(&encoded[17..25], &[0, 0, 0, 0, 0, 0, 0, 3]);
    assert_eq!(&encoded[25..27], &[0, 4]);
    assert_eq!(&encoded[27..59], &[0xaa; 32][..]);
    assert_eq!(&encoded[59..91], &[0xbb; 32][..]);
    // can_update travels before can_cancel
    assert_eq!(&encoded[91..99], &[0, 0, 0, 0, 0, 0, 0, 1]);
    assert_eq!(&encoded[99..107], &[0, 0, 0, 0, 0, 0, 0, 0]);
    assert_eq!(&encoded[107..139], &[0xcc; 32][..]);
}

#[test]
fn empty_payload_is_malformed() {
    assert_eq!(decode(&vec![]), Err(MessengerError::MalformedPayload));
}

#[test]
fn short_payload_is_malformed() {
    let mut payload = vec![6u8];
    payload.extend_from_slice(&[0u8; 73]);
    assert_eq!(payload.len(), 74);
    assert_eq!(decode(&payload), Err(MessengerError::MalformedPayload));
}

#[test]
fn unknown_tag_is_invalid() {
    assert_eq!(decode(&vec![3u8; 200]), Err(MessengerError::InvalidPayload));
    assert_eq!(decode(&vec![255u8; 200]), Err(MessengerError::InvalidPayload));
    assert_eq!(decode(&vec![0u8; 200]), Err(MessengerError::InvalidPayload));
}

#[test]
fn trailing_bytes_are_ignored() {
    let op = Operation::Deposit(XstreamDepositPayload {
        amount: 5,
        to_chain_id: 2,
        sender: bytes32(1),
        token_mint: bytes32(2),
    });
    let mut encoded = encode(&op);
    encoded.extend_from_slice(&[0xff; 10]);
    assert_eq!(decode(&encoded), Ok(op));
}
