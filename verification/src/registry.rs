//! The emitter registry.
//!
//! One registration per source chain binds that chain's id to the hex text
//! of the emitting contract's address.  Registration enforces the address
//! form once; every later origin check decodes the stored text and compares
//! it byte for byte with the attestation's emitter fields.

use vstd::prelude::*;

use crate::attestation::SpecMessageData;
use crate::attestation::MessageData;
use crate::bytes::bytes_eq;
use crate::errors::MessengerError;
use vstd::utf8::encode_utf8;

verus! {

/// The number of hex digits in a chain-native emitter address: an EVM-style
/// 20-byte address, two digits per byte.
pub const EMITTER_ADDR_DIGITS: usize = 40;

/// Whether a byte is the ASCII code of a hex digit, either case.
pub open spec fn is_hex_digit(b: u8) -> bool {
    (48 <= b && b <= 57) || (97 <= b && b <= 102) || (65 <= b && b <= 70)
}

/// The value of an ASCII hex digit.
pub open spec fn hex_digit_val(b: u8) -> u8
    recommends
        is_hex_digit(b),
{
    if 48 <= b && b <= 57 {
        (b - 48) as u8
    } else if 97 <= b && b <= 102 {
        (b - 87) as u8
    } else {
        (b - 55) as u8
    }
}

/// The bytes read from hex text, one byte per digit pair.
pub open spec fn spec_hex_decode(s: Seq<u8>) -> Seq<u8>
    decreases s.len(),
{
    if s.len() < 2 {
        seq![]
    } else {
        seq![(hex_digit_val(s[0]) * 16 + hex_digit_val(s[1])) as u8] + spec_hex_decode(s.skip(2))
    }
}

/// Relies on hex::decode: it accepts exactly the even-length strings of hex
/// digits of either case, and reads one byte from each digit pair.
#[verifier::external_body]
fn hex_decode(s: &[u8]) -> (r: Option<Vec<u8>>)
    ensures
        r is Some <==> (s@.len() % 2 == 0 && forall|i: int|
            0 <= i < s@.len() ==> is_hex_digit(s@[i])),
        match r {
            Some(b) => b@ == spec_hex_decode(s@),
            None => true,
        },
{
    hex::decode(s).ok()
}

/// A registered emitter: the source chain's id and the ASCII hex text of
/// the authorized emitting contract's address, stored without a `0x`
/// prefix.
#[derive(Clone, Debug, PartialEq, Eq)]
pub struct EmitterRegistration {
    pub chain_id: u16,
    pub emitter_addr: Vec<u8>,
}

/// The mathematical value of a registration.
#[verifier::ext_equal]
pub struct SpecEmitterRegistration {
    pub chain_id: u16,
    pub emitter_addr: Seq<u8>,
}

impl View for EmitterRegistration {
    type V = SpecEmitterRegistration;

    open spec fn view(&self) -> SpecEmitterRegistration {
        SpecEmitterRegistration { chain_id: self.chain_id, emitter_addr: self.emitter_addr@ }
    }
}

impl SpecEmitterRegistration {
    /// The stored address text is exactly forty hex digits.
    pub open spec fn wf(self) -> bool {
        self.emitter_addr.len() == EMITTER_ADDR_DIGITS && (forall|i: int|
            0 <= i < self.emitter_addr.len() ==> is_hex_digit(self.emitter_addr[i]))
    }
}

/// Whether address text is acceptable at registration: forty hex digits,
/// with or without a `0x` prefix.
pub open spec fn spec_valid_emitter_addr(s: Seq<u8>) -> bool {
    ||| (s.len() == 40 && forall|i: int| 0 <= i < s.len() ==> is_hex_digit(s[i]))
    ||| (s.len() == 42 && s[0] == 48 && s[1] == 120 && forall|i: int|
        2 <= i < s.len() ==> is_hex_digit(s[i]))
}

/// The stored form of acceptable address text: the digits with any `0x`
/// prefix removed.
pub open spec fn spec_normalized_emitter_addr(s: Seq<u8>) -> Seq<u8> {
    if s.len() == 42 {
        s.skip(2)
    } else {
        s
    }
}

/// Registers an emitter for a source chain.
///
/// The address text must be an EVM-style address: forty hex digits,
/// optionally preceded by `0x`; anything else is `InvalidEmitterAddress`.
/// The returned registration stores the bare digits.
pub fn register_chain(chain_id: u16, emitter_addr: String) -> (r: Result<
    EmitterRegistration,
    MessengerError,
>)
    ensures
        match r {
            Ok(reg) => {
                &&& spec_valid_emitter_addr(encode_utf8(emitter_addr@))
                &&& reg@.chain_id == chain_id
                &&& reg@.emitter_addr == spec_normalized_emitter_addr(
                    encode_utf8(emitter_addr@),
                )
                &&& reg@.wf()
            },
            Err(e) => {
                &&& e == MessengerError::InvalidEmitterAddress
                &&& !spec_valid_emitter_addr(encode_utf8(emitter_addr@))
            },
        },
{
    let s: &[u8] = emitter_addr.as_str().as_bytes();
    let n = s.len();
    if n == 40 {
        let mut text: Vec<u8> = Vec::new();
        let mut i: usize = 0;
        while i < 40
            invariant
                s@.len() == 40,
                i <= 40,
                text@ == s@.subrange(0, i as int),
            decreases 40 - i,
        {
            text.push(s[i]);
            proof {
                assert(text@ =~= s@.subrange(0, i + 1));
            }
            i = i + 1;
        }
        proof {
            assert(text@ =~= s@);
        }
        match hex_decode(text.as_slice()) {
            Some(_) => {
                proof {
                    assert(forall|i: int| 0 <= i < 40 ==> s@[i] == text@[i]);
                }
                Ok(EmitterRegistration { chain_id, emitter_addr: text })
            }
            None => Err(MessengerError::InvalidEmitterAddress),
        }
    } else if n == 42 && s[0] == 48 && s[1] == 120 {
        let mut text: Vec<u8> = Vec::new();
        let mut i: usize = 2;
        while i < 42
            invariant
                s@.len() == 42,
                2 <= i <= 42,
                text@ == s@.subrange(2, i as int),
            decreases 42 - i,
        {
            text.push(s[i]);
            proof {
                assert(text@ =~= s@.subrange(2, i + 1));
            }
            i = i + 1;
        }
        proof {
            assert(text@ =~= s@.skip(2));
        }
        match hex_decode(text.as_slice()) {
            Some(_) => {
                proof {
                    assert(forall|i: int| 2 <= i < 42 ==> s@[i] == text@[i - 2]);
                }
                Ok(EmitterRegistration { chain_id, emitter_addr: text })
            }
            None => Err(MessengerError::InvalidEmitterAddress),
        }
    } else {
        Err(MessengerError::InvalidEmitterAddress)
    }
}

/// Whether an attestation's origin matches a registration: the emitter
/// chain equals the registered chain id and the emitter address bytes equal
/// the decoded registered address.
pub open spec fn spec_origin_ok(reg: SpecEmitterRegistration, v: SpecMessageData) -> bool {
    v.emitter_chain == reg.chain_id && v.emitter_address == spec_hex_decode(reg.emitter_addr)
}

/// Checks an attestation's claimed origin against a registration.
pub fn verify_origin(reg: &EmitterRegistration, vaa: &MessageData) -> (r: bool)
    requires
        reg@.wf(),
    ensures
        r == spec_origin_ok(reg@, vaa@),
{
    if vaa.emitter_chain != reg.chain_id {
        return false;
    }
    match hex_decode(reg.emitter_addr.as_slice()) {
        Some(decoded) => bytes_eq(&vaa.emitter_address, &decoded),
        None => false,
    }
}

} // verus!
