//! Trusted bindings to the content hash and the derived-address scheme.
//!
//! Both outside functions are deterministic functions of their arguments
//! alone, so each result is given a name that the rest of the library's
//! contracts speak of; nothing else is assumed of the values.

use vstd::prelude::*;

use crate::bytes::{push_u16_be, read_bytes, u16_be_bytes};

verus! {

/// The 32-byte Keccak-256 digest of a byte sequence.
pub uninterp spec fn spec_keccak256(data: Seq<u8>) -> Seq<u8>;

/// Relies on sha3's Keccak-256: the digest is 32 bytes and depends on the
/// input bytes alone.
#[verifier::external_body]
pub fn keccak256(data: &Vec<u8>) -> (r: Vec<u8>)
    ensures
        r@ == spec_keccak256(data@),
        r@.len() == 32,
{
    let digest = <sha3::Keccak256 as sha3::Digest>::digest(data.as_slice());
    digest.to_vec()
}

/// The derived address and bump for a seed list under a program id, or
/// nothing when no bump yields an address off the curve or a seed is too
/// long.
pub uninterp spec fn spec_derived_address(seeds: Seq<Seq<u8>>, program_id: Seq<u8>) -> Option<
    (Seq<u8>, u8),
>;

/// Relies on Pubkey::try_find_program_address: the derivation is a
/// deterministic function of the seed list and the program id, the returned
/// address is 32 bytes, and the search returns nothing rather than panic.
#[verifier::external_body]
pub fn try_find_derived_address(seeds: &Vec<Vec<u8>>, program_id: &Vec<u8>) -> (r: Option<
    (Vec<u8>, u8),
>)
    requires
        program_id@.len() == 32,
    ensures
        match r {
            Some(key_bump) => spec_derived_address(seeds.deep_view(), program_id@) == Some(
                (key_bump.0@, key_bump.1),
            ) && key_bump.0@.len() == 32,
            None => spec_derived_address(seeds.deep_view(), program_id@) is None,
        },
{
    let mut pid_bytes = [0u8; 32];
    pid_bytes.copy_from_slice(program_id.as_slice());
    let pid = anchor_lang::prelude::Pubkey::new_from_array(pid_bytes);
    let seed_slices: Vec<&[u8]> = seeds.iter().map(|s| s.as_slice()).collect();
    match anchor_lang::prelude::Pubkey::try_find_program_address(&seed_slices, &pid) {
        Some((key, bump)) => Some((key.to_bytes().to_vec(), bump)),
        None => None,
    }
}

/// The seed list that binds a chain-external identity to this program:
/// the raw identity bytes followed by the big-endian chain id.
pub open spec fn spec_identity_seeds(identity: Seq<u8>, chain_id: u16) -> Seq<Seq<u8>> {
    seq![identity, u16_be_bytes(chain_id)]
}

/// The derived signing identity for a chain-external identity, or nothing
/// when the derivation finds no valid address.
pub open spec fn spec_derived_identity(
    identity: Seq<u8>,
    chain_id: u16,
    program_id: Seq<u8>,
) -> Option<(Seq<u8>, u8)> {
    spec_derived_address(spec_identity_seeds(identity, chain_id), program_id)
}

/// Derives the chain-local signing identity of a chain-external identity:
/// the address derived from the identity bytes and the big-endian chain id
/// under this program's id.
pub fn derive_identity(identity: &Vec<u8>, chain_id: u16, program_id: &Vec<u8>) -> (r: Option<
    (Vec<u8>, u8),
>)
    requires
        program_id@.len() == 32,
    ensures
        match r {
            Some(key_bump) => spec_derived_identity(identity@, chain_id, program_id@) == Some(
                (key_bump.0@, key_bump.1),
            ) && key_bump.0@.len() == 32,
            None => spec_derived_identity(identity@, chain_id, program_id@) is None,
        },
{
    let mut seeds: Vec<Vec<u8>> = Vec::new();
    seeds.push(read_bytes(identity, 0, identity.len()));
    let mut chain_seed: Vec<u8> = Vec::new();
    push_u16_be(&mut chain_seed, chain_id);
    seeds.push(chain_seed);
    proof {
        assert(identity@.subrange(0, identity@.len() as int) =~= identity@);
        assert(seeds@[0].deep_view() =~= identity@);
        assert(seeds@[1].deep_view() =~= u16_be_bytes(chain_id));
        assert(seeds.deep_view() =~= spec_identity_seeds(identity@, chain_id));
    }
    try_find_derived_address(&seeds, program_id)
}

} // verus!
