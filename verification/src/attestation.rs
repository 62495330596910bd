//! Attestation records and their verification.
//!
//! An attestation is stored by an upstream verifier at a content-derived
//! address: the record's canonical serialization is hashed and the hash,
//! together with a fixed domain tag, derives the only address at which a
//! correctly verified record can live.  Recomputing that address and
//! comparing it with the supplied account is the tamper-evidence check that
//! every entry point performs first.

use vstd::prelude::*;

use crate::bytes::{push_bytes, push_u16_be, push_u32_be, push_u64_be, u16_be_bytes, u32_be_bytes,
    u64_be_bytes, bytes_eq};
use crate::crypto::{keccak256, spec_derived_address, spec_keccak256, try_find_derived_address};
use crate::errors::MessengerError;

verus! {

/// A posted attestation record, as handed over by the upstream verifier's
/// store.  This system never mutates one.
#[derive(Clone, Debug, PartialEq, Eq)]
pub struct MessageData {
    /// Time of the attested observation.
    pub vaa_time: u32,
    /// The sender-chosen nonce of the message batch.
    pub nonce: u32,
    /// The chain id of the emitting contract.
    pub emitter_chain: u16,
    /// The emitting contract's address bytes.
    pub emitter_address: Vec<u8>,
    /// The emitter's message sequence number.
    pub sequence: u64,
    /// The attestation network's consistency level.
    pub consistency_level: u8,
    /// The embedded operation payload.
    pub payload: Vec<u8>,
}

/// The mathematical value of an attestation record.
#[verifier::ext_equal]
pub struct SpecMessageData {
    pub vaa_time: u32,
    pub nonce: u32,
    pub emitter_chain: u16,
    pub emitter_address: Seq<u8>,
    pub sequence: u64,
    pub consistency_level: u8,
    pub payload: Seq<u8>,
}

impl View for MessageData {
    type V = SpecMessageData;

    open spec fn view(&self) -> SpecMessageData {
        SpecMessageData {
            vaa_time: self.vaa_time,
            nonce: self.nonce,
            emitter_chain: self.emitter_chain,
            emitter_address: self.emitter_address@,
            sequence: self.sequence,
            consistency_level: self.consistency_level,
            payload: self.payload@,
        }
    }
}

/// The canonical serialization of an attestation: the big-endian fields in
/// declaration order, then the emitter address bytes, then the raw payload.
pub open spec fn spec_serialize_vaa(v: SpecMessageData) -> Seq<u8> {
    u32_be_bytes(v.vaa_time) + u32_be_bytes(v.nonce) + u16_be_bytes(v.emitter_chain)
        + v.emitter_address + u64_be_bytes(v.sequence) + seq![v.consistency_level] + v.payload
}

/// Serializes an attestation into the canonical bytes that the upstream
/// verifier hashes.
pub fn serialize_vaa(vaa: &MessageData) -> (r: Vec<u8>)
    ensures
        r@ == spec_serialize_vaa(vaa@),
{
    let mut out: Vec<u8> = Vec::new();
    push_u32_be(&mut out, vaa.vaa_time);
    push_u32_be(&mut out, vaa.nonce);
    push_u16_be(&mut out, vaa.emitter_chain);
    push_bytes(&mut out, &vaa.emitter_address);
    push_u64_be(&mut out, vaa.sequence);
    out.push(vaa.consistency_level);
    push_bytes(&mut out, &vaa.payload);
    proof {
        assert(out@ =~= spec_serialize_vaa(vaa@));
    }
    out
}

/// The fixed domain tag under which posted attestations are stored: the
/// ASCII bytes of `PostedVAA`.
pub open spec fn spec_posted_vaa_seed() -> Seq<u8> {
    seq![80u8, 111u8, 115u8, 116u8, 101u8, 100u8, 86u8, 65u8, 65u8]
}

/// Builds the `PostedVAA` domain tag.
fn posted_vaa_seed() -> (r: Vec<u8>)
    ensures
        r@ == spec_posted_vaa_seed(),
{
    let mut out: Vec<u8> = Vec::new();
    out.push(80u8);
    out.push(111u8);
    out.push(115u8);
    out.push(116u8);
    out.push(101u8);
    out.push(100u8);
    out.push(86u8);
    out.push(65u8);
    out.push(65u8);
    proof {
        assert(out@ =~= spec_posted_vaa_seed());
    }
    out
}

/// The only address at which a correctly posted attestation can be stored:
/// derived, under the upstream verifier's program id, from the domain tag
/// and the content hash of the canonical serialization.
pub open spec fn spec_expected_address(v: SpecMessageData, core_bridge_id: Seq<u8>) -> Option<
    (Seq<u8>, u8),
> {
    spec_derived_address(
        seq![spec_posted_vaa_seed(), spec_keccak256(spec_serialize_vaa(v))],
        core_bridge_id,
    )
}

/// Recomputes the address at which this attestation must be stored.
pub fn expected_address(vaa: &MessageData, core_bridge_id: &Vec<u8>) -> (r: Option<(Vec<u8>, u8)>)
    requires
        core_bridge_id@.len() == 32,
    ensures
        match r {
            Some(key_bump) => spec_expected_address(vaa@, core_bridge_id@) == Some(
                (key_bump.0@, key_bump.1),
            ) && key_bump.0@.len() == 32,
            None => spec_expected_address(vaa@, core_bridge_id@) is None,
        },
{
    let serialized = serialize_vaa(vaa);
    let hash = keccak256(&serialized);
    let mut seeds: Vec<Vec<u8>> = Vec::new();
    seeds.push(posted_vaa_seed());
    seeds.push(hash);
    proof {
        assert(seeds@[0].deep_view() =~= spec_posted_vaa_seed());
        assert(seeds@[1].deep_view() =~= spec_keccak256(spec_serialize_vaa(vaa@)));
        assert(seeds.deep_view() =~= seq![
            spec_posted_vaa_seed(),
            spec_keccak256(spec_serialize_vaa(vaa@)),
        ]);
    }
    try_find_derived_address(&seeds, core_bridge_id)
}

/// The outcome of the tamper-evidence check: accepted exactly when the
/// supplied account address equals the recomputed one.
pub open spec fn spec_verify_vaa_key(
    supplied: Seq<u8>,
    v: SpecMessageData,
    core_bridge_id: Seq<u8>,
) -> Result<(), MessengerError> {
    match spec_expected_address(v, core_bridge_id) {
        Some(key_bump) => if supplied == key_bump.0 {
            Ok(())
        } else {
            Err(MessengerError::VAAKeyMismatch)
        },
        None => Err(MessengerError::VAAKeyMismatch),
    }
}

/// Checks that the supplied attestation account address equals the
/// recomputed content-derived address; anything else is `VAAKeyMismatch`.
pub fn verify_vaa_key(
    supplied_key: &Vec<u8>,
    vaa: &MessageData,
    core_bridge_id: &Vec<u8>,
) -> (r: Result<(), MessengerError>)
    requires
        core_bridge_id@.len() == 32,
    ensures
        r == spec_verify_vaa_key(supplied_key@, vaa@, core_bridge_id@),
{
    match expected_address(vaa, core_bridge_id) {
        Some(key_bump) => {
            if bytes_eq(supplied_key, &key_bump.0) {
                Ok(())
            } else {
                Err(MessengerError::VAAKeyMismatch)
            }
        }
        None => Err(MessengerError::VAAKeyMismatch),
    }
}

/// Tamper evidence: an attestation whose recomputed content-derived address
/// is not the supplied account's address is always rejected, whatever its
/// other fields hold.
pub proof fn lemma_tampered_attestation_rejected(
    supplied: Seq<u8>,
    v: SpecMessageData,
    core_bridge_id: Seq<u8>,
)
    requires
        match spec_expected_address(v, core_bridge_id) {
            Some(key_bump) => key_bump.0 != supplied,
            None => true,
        },
    ensures
        spec_verify_vaa_key(supplied, v, core_bridge_id) == Err::<(), MessengerError>(
            MessengerError::VAAKeyMismatch,
        ),
{
}

} // verus!
