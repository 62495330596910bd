use anchor_lang::prelude::Pubkey;
use sha3::Digest;
use xstream_bridge::attestation::{serialize_vaa, verify_vaa_key, MessageData};
use xstream_bridge::errors::MessengerError;

fn sample_attestation() -> MessageData {
    MessageData {
        vaa_time: 0x01020304,
        nonce: 0x05060708,
        emitter_chain: 2,
        emitter_address: vec![0xabu8; 20],
        sequence: 0x1122334455667788,
        consistency_level: 32,
        payload: vec![6, 0, 0, 0, 0, 0, 0, 0, 1],
    }
}

/// The address the upstream verifier stores an attestation at: the program
/// address derived from the `PostedVAA` tag and the Keccak-256 hash of the
/// canonical serialization, computed here independently of the library.
fn reference_address(vaa: &MessageData, core_bridge_id: &[u8; 32]) -> Vec<u8> {
    let mut serialized: Vec<u8> = Vec::new();
    serialized.extend_from_slice(&vaa.vaa_time.to_be_bytes());
    serialized.extend_from_slice(&vaa.nonce.to_be_bytes());
    serialized.extend_from_slice(&vaa.emitter_chain.to_be_bytes());
    serialized.extend_from_slice(&vaa.emitter_address);
    serialized.extend_from_slice(&vaa.sequence.to_be_bytes());
    serialized.push(vaa.consistency_level);
    serialized.extend_from_slice(&vaa.payload);

    let hash: [u8; 32] = sha3::Keccak256::digest(&serialized).into();
    let (key, _bump) = Pubkey::find_program_address(
        &[b"PostedVAA", &hash],
        &Pubkey::new_from_array(*core_bridge_id),
    );
    key.to_bytes().to_vec()
}

#[test]
fn serialization_is_the_canonical_field_order() {
    let vaa = sample_attestation();
    let serialized = serialize_vaa(&vaa);
    let mut expected: Vec<u8> = vec![1, 2, 3, 4, 5, 6, 7, 8, 0, 2];
    expected.extend_from_slice(&[0xab; 20]);
    expected.extend_from_slice(&[0x11, 0x22, 0x33, 0x44, 0x55, 0x66, 0x77, 0x88, 32]);
    expected.extend_from_slice(&[6, 0, 0, 0, 0, 0, 0, 0, 1]);
    assert_eq!(serialized, expected);
}

#[test]
fn attestation_at_its_derived_address_is_accepted() {
    let vaa = sample_attestation();
    let core_bridge_id = [9u8; 32];
    let expected = reference_address(&vaa, &core_bridge_id);
    assert_eq!(
        verify_vaa_key(&expected, &vaa, &core_bridge_id.to_vec()),
        Ok(())
    );
}

#[test]
fn tampered_attestation_is_rejected() {
    let vaa = sample_attestation();
    let core_bridge_id = [9u8; 32];
    let stored_at = reference_address(&vaa, &core_bridge_id);

    // the same record with one payload byte changed no longer hashes to
    // the stored address
    let mut tampered = sample_attestation();
    tampered.payload[8] = 2;
    assert_eq!(
        verify_vaa_key(&stored_at, &tampered, &core_bridge_id.to_vec()),
        Err(MessengerError::VAAKeyMismatch)
    );

    // a changed sequence number is rejected as well
    let mut tampered = sample_attestation();
    tampered.sequence += 1;
    assert_eq!(
        verify_vaa_key(&stored_at, &tampered, &core_bridge_id.to_vec()),
        Err(MessengerError::VAAKeyMismatch)
    );

    // a record that is intact but supplied at another account is rejected
    let elsewhere = vec![0u8; 32];
    assert_eq!(
        verify_vaa_key(&elsewhere, &vaa, &core_bridge_id.to_vec()),
        Err(MessengerError::VAAKeyMismatch)
    );
}
