use anchor_lang::prelude::Pubkey;
use sha3::Digest;
use xstream_bridge::attestation::{serialize_vaa, MessageData};
use xstream_bridge::codec::decode;
use xstream_bridge::counter::{Config, ProcessCount};
use xstream_bridge::dispatcher::{
    initialize_pda, instant_transfer, xstream_deposit, xstream_direct_transfer_native,
    DownstreamAction,
};
use xstream_bridge::errors::MessengerError;
use xstream_bridge::intent::OperationIntent;
use xstream_bridge::registry::{register_chain, EmitterRegistration};

const CORE_BRIDGE_ID: [u8; 32] = [9u8; 32];
const PROGRAM_ID: [u8; 32] = [3u8; 32];
const EMITTER_HEX: &str = "00112233445566778899aabbccddeeff00112233";

fn emitter_address_bytes() -> Vec<u8> {
    hex::decode(EMITTER_HEX).unwrap()
}

fn registration() -> EmitterRegistration {
    let addr = format!("0x{}", EMITTER_HEX);
    register_chain(2, addr).expect("the emitter registers")
}

/// An attestation carrying `payload` from the registered emitter, together
/// with the account address the upstream verifier would store it at.
fn posted_attestation(emitter_chain: u16, payload: Vec<u8>) -> (MessageData, Vec<u8>) {
    let vaa = MessageData {
        vaa_time: 100,
        nonce: 7,
        emitter_chain,
        emitter_address: emitter_address_bytes(),
        sequence: 1,
        consistency_level: 32,
        payload,
    };
    let hash: [u8; 32] = sha3::Keccak256::digest(&serialize_vaa(&vaa)).into();
    let (key, _bump) = Pubkey::find_program_address(
        &[b"PostedVAA", &hash],
        &Pubkey::new_from_array(CORE_BRIDGE_ID),
    );
    (vaa, key.to_bytes().to_vec())
}

fn derived_key(identity: &[u8], chain_id: u16) -> Vec<u8> {
    let (key, _bump) = Pubkey::find_program_address(
        &[identity, &chain_id.to_be_bytes()],
        &Pubkey::new_from_array(PROGRAM_ID),
    );
    key.to_bytes().to_vec()
}

fn deposit_payload(amount: u64, chain: u16, sender: &[u8; 32], mint: &[u8; 32]) -> Vec<u8> {
    let mut payload = vec![6u8];
    payload.extend_from_slice(&amount.to_be_bytes());
    payload.extend_from_slice(&chain.to_be_bytes());
    payload.extend_from_slice(sender);
    payload.extend_from_slice(mint);
    payload
}

#[test]
fn deposit_end_to_end() {
    let reg = registration();
    let sender = [0x5au8; 32];
    let mint = [0x42u8; 32];
    let (vaa, vaa_key) = posted_attestation(2, deposit_payload(1000, 2, &sender, &mint));

    let mut counter = ProcessCount::new();
    let action = xstream_deposit(
        &vaa,
        &vaa_key,
        &reg,
        &CORE_BRIDGE_ID.to_vec(),
        &mut counter,
        1,
        &sender.to_vec(),
        2,
        &mint.to_vec(),
        &derived_key(&sender, 2),
        &PROGRAM_ID.to_vec(),
    )
    .expect("a consistent deposit submission is accepted");
    assert_eq!(action, DownstreamAction::Deposit { amount: 1000 });
    assert_eq!(counter.count, 1);

    // the staged intent holds the decoded fields
    let op = decode(&vaa.payload).unwrap();
    let intent = OperationIntent::from_operation(&op);
    assert_eq!(intent.amount, 1000);
    assert_eq!(intent.from_chain_id, 2);
    assert_eq!(intent.sender, sender.to_vec());
    assert_eq!(intent.token_mint, mint.to_vec());
    assert_eq!(intent.receiver, Vec::<u8>::new());
}

#[test]
fn wrong_emitter_chain_is_rejected_before_decoding() {
    let reg = registration();
    // the payload is garbage on purpose: the origin check must reject the
    // submission before the payload is ever decoded
    let (vaa, vaa_key) = posted_attestation(3, vec![0xde, 0xad]);

    let mut counter = ProcessCount::new();
    let r = xstream_deposit(
        &vaa,
        &vaa_key,
        &reg,
        &CORE_BRIDGE_ID.to_vec(),
        &mut counter,
        1,
        &vec![0u8; 32],
        2,
        &vec![0u8; 32],
        &vec![0u8; 32],
        &PROGRAM_ID.to_vec(),
    );
    assert_eq!(r, Err(MessengerError::VAAEmitterMismatch));
    assert_eq!(counter.count, 0);
}

#[test]
fn wrong_authority_is_rejected_despite_consistent_payload() {
    let reg = registration();
    let sender = [0x5au8; 32];
    let mint = [0x42u8; 32];
    let (vaa, vaa_key) = posted_attestation(2, deposit_payload(1000, 2, &sender, &mint));

    // every payload field is consistent; only the supplied source account
    // is not the sender's derived identity
    let mut counter = ProcessCount::new();
    let r = xstream_deposit(
        &vaa,
        &vaa_key,
        &reg,
        &CORE_BRIDGE_ID.to_vec(),
        &mut counter,
        1,
        &sender.to_vec(),
        2,
        &mint.to_vec(),
        &derived_key(&sender, 5),
        &PROGRAM_ID.to_vec(),
    );
    assert_eq!(r, Err(MessengerError::SenderDerivedKeyMismatch));
    assert_eq!(counter.count, 0);
}

#[test]
fn wrong_tag_for_the_entry_point_is_rejected() {
    let reg = registration();
    // a sender-withdraw payload (tag 10) handed to the deposit entry point
    let mut payload = vec![10u8];
    payload.extend_from_slice(&[0u8; 74]);
    let (vaa, vaa_key) = posted_attestation(2, payload);

    let mut counter = ProcessCount::new();
    let r = xstream_deposit(
        &vaa,
        &vaa_key,
        &reg,
        &CORE_BRIDGE_ID.to_vec(),
        &mut counter,
        1,
        &vec![0u8; 32],
        2,
        &vec![0u8; 32],
        &vec![0u8; 32],
        &PROGRAM_ID.to_vec(),
    );
    assert_eq!(r, Err(MessengerError::InvalidPayload));
}

#[test]
fn wrong_sequence_claim_is_rejected_without_moving_the_counter() {
    let reg = registration();
    let sender = [0x5au8; 32];
    let mint = [0x42u8; 32];
    let (vaa, vaa_key) = posted_attestation(2, deposit_payload(1, 2, &sender, &mint));

    let mut counter = ProcessCount::new();
    let r = xstream_deposit(
        &vaa,
        &vaa_key,
        &reg,
        &CORE_BRIDGE_ID.to_vec(),
        &mut counter,
        5,
        &sender.to_vec(),
        2,
        &mint.to_vec(),
        &derived_key(&sender, 2),
        &PROGRAM_ID.to_vec(),
    );
    assert_eq!(r, Err(MessengerError::InvalidDataProvided));
    assert_eq!(counter.count, 0);
}

#[test]
fn wrong_mint_is_rejected() {
    let reg = registration();
    let sender = [0x5au8; 32];
    let mint = [0x42u8; 32];
    let (vaa, vaa_key) = posted_attestation(2, deposit_payload(1, 2, &sender, &mint));

    let mut counter = ProcessCount::new();
    let r = xstream_deposit(
        &vaa,
        &vaa_key,
        &reg,
        &CORE_BRIDGE_ID.to_vec(),
        &mut counter,
        1,
        &sender.to_vec(),
        2,
        &vec![0x43u8; 32],
        &derived_key(&sender, 2),
        &PROGRAM_ID.to_vec(),
    );
    assert_eq!(r, Err(MessengerError::MintKeyMismatch));
}

#[test]
fn instant_transfer_checks_both_identities() {
    let reg = registration();
    let sender = [0x11u8; 32];
    let receiver = [0x22u8; 32];
    let mint = [0x33u8; 32];
    let mut payload = vec![12u8];
    payload.extend_from_slice(&77u64.to_be_bytes());
    payload.extend_from_slice(&2u16.to_be_bytes());
    payload.extend_from_slice(&sender);
    payload.extend_from_slice(&mint);
    payload.extend_from_slice(&receiver);
    let (vaa, vaa_key) = posted_attestation(2, payload);

    // a destination account derived for the wrong identity is rejected
    let mut counter = ProcessCount::new();
    let r = instant_transfer(
        &vaa,
        &vaa_key,
        &reg,
        &CORE_BRIDGE_ID.to_vec(),
        &mut counter,
        1,
        &sender.to_vec(),
        2,
        &mint.to_vec(),
        &derived_key(&sender, 2),
        &derived_key(&sender, 2),
        &PROGRAM_ID.to_vec(),
    );
    assert_eq!(r, Err(MessengerError::ReceiverDerivedKeyMismatch));
    assert_eq!(counter.count, 0);

    // with both derived identities supplied the transfer is accepted
    let action = instant_transfer(
        &vaa,
        &vaa_key,
        &reg,
        &CORE_BRIDGE_ID.to_vec(),
        &mut counter,
        1,
        &sender.to_vec(),
        2,
        &mint.to_vec(),
        &derived_key(&sender, 2),
        &derived_key(&receiver, 2),
        &PROGRAM_ID.to_vec(),
    )
    .expect("a consistent instant transfer is accepted");
    assert_eq!(action, DownstreamAction::InstantTransfer { amount: 77 });
    assert_eq!(counter.count, 1);
}

#[test]
fn direct_transfer_requires_the_configured_owner() {
    let reg = registration();
    let sender = [0x11u8; 32];
    let receiver = [0x22u8; 32];
    let mint = [0x33u8; 32];
    let mut payload = vec![17u8];
    payload.extend_from_slice(&500u64.to_be_bytes());
    payload.extend_from_slice(&2u16.to_be_bytes());
    payload.extend_from_slice(&sender);
    payload.extend_from_slice(&mint);
    payload.extend_from_slice(&receiver);
    let (vaa, vaa_key) = posted_attestation(2, payload);

    let owner = vec![0x99u8; 32];
    let mut config = Config { owner: owner.clone(), nonce: 41 };
    let mut counter = ProcessCount::new();

    // a caller other than the configured owner is rejected and the nonce
    // does not move
    let r = xstream_direct_transfer_native(
        &vaa,
        &vaa_key,
        &reg,
        &CORE_BRIDGE_ID.to_vec(),
        &mut counter,
        1,
        &sender.to_vec(),
        2,
        5,
        3,
        &derived_key(&sender, 2),
        &PROGRAM_ID.to_vec(),
        &mut config,
        &vec![0x98u8; 32],
    );
    assert_eq!(r, Err(MessengerError::InvalidCaller));
    assert_eq!(config.nonce, 41);
    assert_eq!(counter.count, 0);

    // the owner's submission is accepted, carries the pre-increment nonce,
    // and advances the nonce and the counter
    let data = xstream_direct_transfer_native(
        &vaa,
        &vaa_key,
        &reg,
        &CORE_BRIDGE_ID.to_vec(),
        &mut counter,
        1,
        &sender.to_vec(),
        2,
        5,
        3,
        &derived_key(&sender, 2),
        &PROGRAM_ID.to_vec(),
        &mut config,
        &owner,
    )
    .expect("the owner's direct transfer is accepted");
    assert_eq!(data.nonce, 41);
    assert_eq!(data.amount, 500);
    assert_eq!(data.fee, 3);
    assert_eq!(data.target_chain, 5);
    assert_eq!(data.target_address, receiver.to_vec());
    assert_eq!(config.nonce, 42);
    assert_eq!(counter.count, 1);
}

#[test]
fn initialize_pda_checks_destination_chain_and_derived_account() {
    let reg = registration();
    let seed = [0x77u8; 32];

    let mut to_chain_one = [0u8; 32];
    to_chain_one[31] = 1;
    let mut payload = vec![18u8];
    payload.extend_from_slice(&seed);
    payload.extend_from_slice(&to_chain_one);
    let (vaa, vaa_key) = posted_attestation(2, payload);

    // the derivation uses the attestation's emitter chain
    let pda = derived_key(&seed, 2);
    let mut counter = ProcessCount::new();
    let returned = initialize_pda(
        &vaa,
        &vaa_key,
        &reg,
        &CORE_BRIDGE_ID.to_vec(),
        &mut counter,
        1,
        &pda,
        &PROGRAM_ID.to_vec(),
    )
    .expect("a consistent initialization is accepted");
    assert_eq!(returned, pda);

    // a supplied account that is not the derived address is rejected
    let mut counter = ProcessCount::new();
    let r = initialize_pda(
        &vaa,
        &vaa_key,
        &reg,
        &CORE_BRIDGE_ID.to_vec(),
        &mut counter,
        1,
        &vec![0u8; 32],
        &PROGRAM_ID.to_vec(),
    );
    assert_eq!(r, Err(MessengerError::InvalidPDAAccount));

    // a destination chain other than one is rejected
    let mut to_chain_two = [0u8; 32];
    to_chain_two[31] = 2;
    let mut payload = vec![18u8];
    payload.extend_from_slice(&seed);
    payload.extend_from_slice(&to_chain_two);
    let (vaa, vaa_key) = posted_attestation(2, payload);
    let mut counter = ProcessCount::new();
    let r = initialize_pda(
        &vaa,
        &vaa_key,
        &reg,
        &CORE_BRIDGE_ID.to_vec(),
        &mut counter,
        1,
        &pda,
        &PROGRAM_ID.to_vec(),
    );
    assert_eq!(r, Err(MessengerError::InvalidToChainId));
}
