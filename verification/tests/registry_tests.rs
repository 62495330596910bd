use xstream_bridge::attestation::MessageData;
use xstream_bridge::errors::MessengerError;
use xstream_bridge::registry::{register_chain, verify_origin};

fn attestation(emitter_chain: u16, emitter_address: Vec<u8>) -> MessageData {
    MessageData {
        vaa_time: 0,
        nonce: 0,
        emitter_chain,
        emitter_address,
        sequence: 0,
        consistency_level: 1,
        payload: vec![],
    }
}

#[test]
fn register_accepts_bare_forty_hex_digits() {
    let reg = register_chain(2, "00112233445566778899aabbccddeeff00112233".to_string())
        .expect("forty hex digits must register");
    assert_eq!(reg.chain_id, 2);
    assert_eq!(
        reg.emitter_addr,
        b"00112233445566778899aabbccddeeff00112233".to_vec()
    );
}

#[test]
fn register_strips_a_hex_prefix() {
    let reg = register_chain(2, "0x00112233445566778899AABBCCDDEEFF00112233".to_string())
        .expect("a prefixed address must register");
    assert_eq!(
        reg.emitter_addr,
        b"00112233445566778899AABBCCDDEEFF00112233".to_vec()
    );
}

#[test]
fn register_rejects_bad_lengths_and_digits() {
    assert_eq!(
        register_chain(2, "0011".to_string()),
        Err(MessengerError::InvalidEmitterAddress)
    );
    assert_eq!(
        register_chain(2, "".to_string()),
        Err(MessengerError::InvalidEmitterAddress)
    );
    // forty characters, but not hex
    assert_eq!(
        register_chain(2, "zz112233445566778899aabbccddeeff00112233".to_string()),
        Err(MessengerError::InvalidEmitterAddress)
    );
    // a prefix with too few digits after it
    assert_eq!(
        register_chain(2, "0x112233445566778899aabbccddeeff00112233".to_string()),
        Err(MessengerError::InvalidEmitterAddress)
    );
}

#[test]
fn origin_check_compares_decoded_address_bytes() {
    let reg = register_chain(2, "0x00112233445566778899aabbccddeeff00112233".to_string())
        .expect("registration");
    let decoded = hex::decode("00112233445566778899aabbccddeeff00112233").unwrap();
    assert_eq!(decoded.len(), 20);

    // the attestation carries the raw address bytes, not the hex text
    assert!(verify_origin(&reg, &attestation(2, decoded.clone())));

    // the hex text itself does not match: the check goes through decoding
    assert!(!verify_origin(
        &reg,
        &attestation(2, b"00112233445566778899aabbccddeeff00112233".to_vec())
    ));

    // a different chain id does not match
    assert!(!verify_origin(&reg, &attestation(3, decoded.clone())));

    // different address bytes do not match
    let mut tampered = decoded.clone();
    tampered[0] ^= 1;
    assert!(!verify_origin(&reg, &attestation(2, tampered)));
}

#[test]
fn origin_check_accepts_either_digit_case() {
    let reg = register_chain(5, "AABBCCDDEEFF00112233445566778899aabbccdd".to_string())
        .expect("mixed-case digits must register");
    let decoded = hex::decode("aabbccddeeff00112233445566778899aabbccdd").unwrap();
    assert!(verify_origin(&reg, &attestation(5, decoded)));
}
