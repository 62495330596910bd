use anchor_lang::prelude::Pubkey;
use sha3::Digest;
use xstream_bridge::attestation::{serialize_vaa, MessageData};
use xstream_bridge::counter::{Config, ProcessCount};
use xstream_bridge::dispatcher::{
    initialize_pda_token_account, xstream_cancel, xstream_direct_transfer_wrapped, xstream_pause,
    xstream_sender_withdraw, xstream_start, xstream_update, xstream_withdraw, DownstreamAction,
};
use xstream_bridge::errors::MessengerError;
use xstream_bridge::registry::{register_chain, EmitterRegistration};

const CORE_BRIDGE_ID: [u8; 32] = [9u8; 32];
const PROGRAM_ID: [u8; 32] = [3u8; 32];
const EMITTER_HEX: &str = "00112233445566778899aabbccddeeff00112233";

fn registration() -> EmitterRegistration {
    register_chain(2, EMITTER_HEX.to_string()).expect("the emitter registers")
}

fn posted_attestation(payload: Vec<u8>) -> (MessageData, Vec<u8>) {
    let vaa = MessageData {
        vaa_time: 100,
        nonce: 7,
        emitter_chain: 2,
        emitter_address: hex::decode(EMITTER_HEX).unwrap(),
        sequence: 1,
        consistency_level: 32,
        payload,
    };
    let hash: [u8; 32] = sha3::Keccak256::digest(&serialize_vaa(&vaa)).into();
    let (key, _bump) = Pubkey::find_program_address(
        &[b"PostedVAA", &hash],
        &Pubkey::new_from_array(CORE_BRIDGE_ID),
    );
    (vaa, key.to_bytes().to_vec())
}

fn derived_key(identity: &[u8], chain_id: u16) -> Vec<u8> {
    let (key, _bump) = Pubkey::find_program_address(
        &[identity, &chain_id.to_be_bytes()],
        &Pubkey::new_from_array(PROGRAM_ID),
    );
    key.to_bytes().to_vec()
}

const SENDER: [u8; 32] = [0x11u8; 32];
const RECEIVER: [u8; 32] = [0x22u8; 32];
const MINT: [u8; 32] = [0x33u8; 32];
const DATA_ACCOUNT: [u8; 32] = [0x44u8; 32];

#[test]
fn open_stream_end_to_end() {
    let mut payload = vec![2u8];
    payload.extend_from_slice(&100u64.to_be_bytes());
    payload.extend_from_slice(&200u64.to_be_bytes());
    payload.extend_from_slice(&5000u64.to_be_bytes());
    payload.extend_from_slice(&2u16.to_be_bytes());
    payload.extend_from_slice(&SENDER);
    payload.extend_from_slice(&RECEIVER);
    payload.extend_from_slice(&1u64.to_be_bytes()); // can_update
    payload.extend_from_slice(&0u64.to_be_bytes()); // can_cancel
    payload.extend_from_slice(&MINT);
    let (vaa, vaa_key) = posted_attestation(payload);

    let mut counter = ProcessCount::new();
    let action = xstream_start(
        &vaa,
        &vaa_key,
        &registration(),
        &CORE_BRIDGE_ID.to_vec(),
        &mut counter,
        1,
        &SENDER.to_vec(),
        2,
        &MINT.to_vec(),
        &derived_key(&SENDER, 2),
        &derived_key(&RECEIVER, 2),
        &PROGRAM_ID.to_vec(),
    )
    .expect("a consistent stream opening is accepted");
    assert_eq!(
        action,
        DownstreamAction::OpenStream {
            start_time: 100,
            end_time: 200,
            amount: 5000,
            can_cancel: false,
            can_update: true,
        }
    );
    assert_eq!(counter.count, 1);
}

fn withdraw_shaped_payload(tag: u8, a: &[u8; 32], b: &[u8; 32], c: &[u8; 32], d: &[u8; 32]) -> Vec<u8> {
    let mut payload = vec![tag];
    payload.extend_from_slice(&2u16.to_be_bytes());
    payload.extend_from_slice(a);
    payload.extend_from_slice(b);
    payload.extend_from_slice(c);
    payload.extend_from_slice(d);
    payload
}

#[test]
fn receiver_withdraw_end_to_end() {
    // tag 4: withdrawer, mint, depositor, data account
    let payload = withdraw_shaped_payload(4, &RECEIVER, &MINT, &SENDER, &DATA_ACCOUNT);
    let (vaa, vaa_key) = posted_attestation(payload);

    let mut counter = ProcessCount::new();
    let action = xstream_withdraw(
        &vaa,
        &vaa_key,
        &registration(),
        &CORE_BRIDGE_ID.to_vec(),
        &mut counter,
        1,
        &RECEIVER.to_vec(),
        2,
        &MINT.to_vec(),
        &DATA_ACCOUNT.to_vec(),
        &derived_key(&SENDER, 2),
        &derived_key(&RECEIVER, 2),
        &PROGRAM_ID.to_vec(),
    )
    .expect("a consistent receiver withdrawal is accepted");
    assert_eq!(action, DownstreamAction::Withdraw);

    // the caller's identity must be the payload's withdrawer
    let mut counter = ProcessCount::new();
    let payload = withdraw_shaped_payload(4, &RECEIVER, &MINT, &SENDER, &DATA_ACCOUNT);
    let (vaa, vaa_key) = posted_attestation(payload);
    let r = xstream_withdraw(
        &vaa,
        &vaa_key,
        &registration(),
        &CORE_BRIDGE_ID.to_vec(),
        &mut counter,
        1,
        &SENDER.to_vec(),
        2,
        &MINT.to_vec(),
        &DATA_ACCOUNT.to_vec(),
        &derived_key(&SENDER, 2),
        &derived_key(&RECEIVER, 2),
        &PROGRAM_ID.to_vec(),
    );
    assert_eq!(r, Err(MessengerError::PdaReceiverMismatch));
}

#[test]
fn update_stream_end_to_end() {
    let mut payload = vec![14u8];
    payload.extend_from_slice(&300u64.to_be_bytes());
    payload.extend_from_slice(&400u64.to_be_bytes());
    payload.extend_from_slice(&7000u64.to_be_bytes());
    payload.extend_from_slice(&2u16.to_be_bytes());
    payload.extend_from_slice(&SENDER);
    payload.extend_from_slice(&RECEIVER);
    payload.extend_from_slice(&MINT);
    payload.extend_from_slice(&DATA_ACCOUNT);
    let (vaa, vaa_key) = posted_attestation(payload);

    let mut counter = ProcessCount::new();
    let action = xstream_update(
        &vaa,
        &vaa_key,
        &registration(),
        &CORE_BRIDGE_ID.to_vec(),
        &mut counter,
        1,
        &SENDER.to_vec(),
        2,
        &MINT.to_vec(),
        &DATA_ACCOUNT.to_vec(),
        &derived_key(&SENDER, 2),
        &derived_key(&RECEIVER, 2),
        &PROGRAM_ID.to_vec(),
    )
    .expect("a consistent stream update is accepted");
    assert_eq!(
        action,
        DownstreamAction::UpdateStream { start_time: 300, end_time: 400, amount: 7000 }
    );
}

#[test]
fn sender_withdraw_end_to_end() {
    let mut payload = vec![10u8];
    payload.extend_from_slice(&900u64.to_be_bytes());
    payload.extend_from_slice(&2u16.to_be_bytes());
    payload.extend_from_slice(&SENDER);
    payload.extend_from_slice(&MINT);
    let (vaa, vaa_key) = posted_attestation(payload);

    let mut counter = ProcessCount::new();
    let action = xstream_sender_withdraw(
        &vaa,
        &vaa_key,
        &registration(),
        &CORE_BRIDGE_ID.to_vec(),
        &mut counter,
        1,
        &SENDER.to_vec(),
        2,
        &MINT.to_vec(),
        &derived_key(&SENDER, 2),
        &PROGRAM_ID.to_vec(),
    )
    .expect("a consistent sender withdrawal is accepted");
    assert_eq!(action, DownstreamAction::SenderWithdraw { amount: 900 });
}

#[test]
fn pause_end_to_end() {
    // tag 8: depositor, mint, receiver, data account
    let payload = withdraw_shaped_payload(8, &SENDER, &MINT, &RECEIVER, &DATA_ACCOUNT);
    let (vaa, vaa_key) = posted_attestation(payload);

    let mut counter = ProcessCount::new();
    let action = xstream_pause(
        &vaa,
        &vaa_key,
        &registration(),
        &CORE_BRIDGE_ID.to_vec(),
        &mut counter,
        1,
        &SENDER.to_vec(),
        2,
        &DATA_ACCOUNT.to_vec(),
        &derived_key(&SENDER, 2),
        &derived_key(&RECEIVER, 2),
        &PROGRAM_ID.to_vec(),
    )
    .expect("a consistent pause is accepted");
    assert_eq!(action, DownstreamAction::PauseResume);

    // a wrong data account is rejected
    let payload = withdraw_shaped_payload(8, &SENDER, &MINT, &RECEIVER, &DATA_ACCOUNT);
    let (vaa, vaa_key) = posted_attestation(payload);
    let mut counter = ProcessCount::new();
    let r = xstream_pause(
        &vaa,
        &vaa_key,
        &registration(),
        &CORE_BRIDGE_ID.to_vec(),
        &mut counter,
        1,
        &SENDER.to_vec(),
        2,
        &vec![0u8; 32],
        &derived_key(&SENDER, 2),
        &derived_key(&RECEIVER, 2),
        &PROGRAM_ID.to_vec(),
    );
    assert_eq!(r, Err(MessengerError::DataAccountMismatch));
}

#[test]
fn cancel_end_to_end() {
    let payload = withdraw_shaped_payload(16, &SENDER, &MINT, &RECEIVER, &DATA_ACCOUNT);
    let (vaa, vaa_key) = posted_attestation(payload);

    let mut counter = ProcessCount::new();
    let action = xstream_cancel(
        &vaa,
        &vaa_key,
        &registration(),
        &CORE_BRIDGE_ID.to_vec(),
        &mut counter,
        1,
        &SENDER.to_vec(),
        2,
        &MINT.to_vec(),
        &DATA_ACCOUNT.to_vec(),
        &derived_key(&SENDER, 2),
        &derived_key(&RECEIVER, 2),
        &PROGRAM_ID.to_vec(),
    )
    .expect("a consistent cancel is accepted");
    assert_eq!(action, DownstreamAction::Cancel);
}

#[test]
fn direct_transfer_wrapped_end_to_end_and_nonce_overflow() {
    let mut payload = vec![17u8];
    payload.extend_from_slice(&800u64.to_be_bytes());
    payload.extend_from_slice(&2u16.to_be_bytes());
    payload.extend_from_slice(&SENDER);
    payload.extend_from_slice(&MINT);
    payload.extend_from_slice(&RECEIVER);
    let (vaa, vaa_key) = posted_attestation(payload);

    let owner = vec![0x99u8; 32];
    let mut config = Config { owner: owner.clone(), nonce: 1 };
    let mut counter = ProcessCount::new();
    let data = xstream_direct_transfer_wrapped(
        &vaa,
        &vaa_key,
        &registration(),
        &CORE_BRIDGE_ID.to_vec(),
        &mut counter,
        1,
        &SENDER.to_vec(),
        2,
        7,
        4,
        &derived_key(&SENDER, 2),
        &PROGRAM_ID.to_vec(),
        &mut config,
        &owner,
    )
    .expect("the owner's wrapped transfer is accepted");
    assert_eq!(data.nonce, 1);
    assert_eq!(data.amount, 800);
    assert_eq!(data.fee, 4);
    assert_eq!(data.target_chain, 7);
    assert_eq!(data.target_address, RECEIVER.to_vec());
    assert_eq!(config.nonce, 2);

    // a nonce at its maximum fails with Overflow instead of wrapping
    let mut config = Config { owner: owner.clone(), nonce: u32::MAX };
    let mut counter = ProcessCount::new();
    let r = xstream_direct_transfer_wrapped(
        &vaa,
        &vaa_key,
        &registration(),
        &CORE_BRIDGE_ID.to_vec(),
        &mut counter,
        1,
        &SENDER.to_vec(),
        2,
        7,
        4,
        &derived_key(&SENDER, 2),
        &PROGRAM_ID.to_vec(),
        &mut config,
        &owner,
    );
    assert_eq!(r, Err(MessengerError::Overflow));
    assert_eq!(config.nonce, u32::MAX);
    assert_eq!(counter.count, 0);
}

#[test]
fn initialize_pda_token_account_end_to_end() {
    let seed = [0x77u8; 32];
    let mut to_chain_one = [0u8; 32];
    to_chain_one[31] = 1;
    let mut payload = vec![19u8];
    payload.extend_from_slice(&seed);
    payload.extend_from_slice(&MINT);
    payload.extend_from_slice(&to_chain_one);
    let (vaa, vaa_key) = posted_attestation(payload);

    let pda = derived_key(&seed, 2);
    let mut counter = ProcessCount::new();
    let returned = initialize_pda_token_account(
        &vaa,
        &vaa_key,
        &registration(),
        &CORE_BRIDGE_ID.to_vec(),
        &mut counter,
        1,
        &pda,
        &MINT.to_vec(),
        &PROGRAM_ID.to_vec(),
    )
    .expect("a consistent token-account initialization is accepted");
    assert_eq!(returned, pda);

    // a wrong mint is rejected
    let mut counter = ProcessCount::new();
    let r = initialize_pda_token_account(
        &vaa,
        &vaa_key,
        &registration(),
        &CORE_BRIDGE_ID.to_vec(),
        &mut counter,
        1,
        &pda,
        &vec![0x34u8; 32],
        &PROGRAM_ID.to_vec(),
    );
    assert_eq!(r, Err(MessengerError::MintKeyMismatch));
}
