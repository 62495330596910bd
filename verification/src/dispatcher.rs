//! The operation dispatcher: one entry point per operation kind.
//!
//! Every entry point runs the same gate first: the attestation's
//! content-derived address is recomputed and compared with the supplied
//! account, the claimed origin is held against the registered emitter, the
//! payload is decoded, and the claimed sequence position is held against
//! the stored count.  Only then do the operation-specific checks run:
//! supplied mint, data account and identities against the decoded fields,
//! and the supplied authority accounts against the derived identities.  On
//! success the counter is advanced and the downstream action to perform
//! comes back; on any failure the counter is left untouched.

use vstd::prelude::*;

use crate::attestation::{spec_verify_vaa_key, verify_vaa_key, MessageData, SpecMessageData};
use crate::bytes::{be_nat_of, bytes_eq, clone_bytes, is_be_one};
use crate::codec::{decode, spec_decode, Operation, SpecOperation};
use crate::counter::{Config, ProcessCount, SpecConfig};
use crate::crypto::{derive_identity, spec_derived_identity};
use crate::errors::MessengerError;
use crate::registry::{spec_origin_ok, verify_origin, EmitterRegistration, SpecEmitterRegistration};

verus! {

/// The downstream streaming-program call that an accepted operation asks
/// for.
#[derive(Clone, Copy, Debug, PartialEq, Eq, Structural)]
pub enum DownstreamAction {
    /// Open a stream.
    OpenStream { start_time: u64, end_time: u64, amount: u64, can_cancel: bool, can_update: bool },
    /// Let the receiver withdraw from a stream.
    Withdraw,
    /// Deposit into the vault.
    Deposit { amount: u64 },
    /// Let the sender withdraw from the vault.
    SenderWithdraw { amount: u64 },
    /// Pause or resume a stream.
    PauseResume,
    /// Cancel a stream.
    Cancel,
    /// Transfer instantly out of the vault.
    InstantTransfer { amount: u64 },
    /// Update a stream.
    UpdateStream { start_time: u64, end_time: u64, amount: u64 },
}

/// The shared gate of every entry point, in order: tamper-evidence check of
/// the attestation's address, origin check against the registration, total
/// payload decode, and sequence-claim check against the stored count.
pub open spec fn spec_gate(
    v: SpecMessageData,
    vaa_key: Seq<u8>,
    reg: SpecEmitterRegistration,
    core_bridge_id: Seq<u8>,
    stored_count: u8,
    current_count: u8,
) -> Result<SpecOperation, MessengerError> {
    match spec_verify_vaa_key(vaa_key, v, core_bridge_id) {
        Err(e) => Err(e),
        Ok(()) => if !spec_origin_ok(reg, v) {
            Err(MessengerError::VAAEmitterMismatch)
        } else {
            match spec_decode(v.payload) {
                Err(e) => Err(e),
                Ok(op) => match ProcessCount::spec_check(stored_count, current_count) {
                    Err(e) => Err(e),
                    Ok(()) => Ok(op),
                },
            }
        },
    }
}

/// Runs the shared gate without moving the counter.
fn gate(
    vaa: &MessageData,
    vaa_account_key: &Vec<u8>,
    emitter_acc: &EmitterRegistration,
    core_bridge_id: &Vec<u8>,
    counter: &ProcessCount,
    current_count: u8,
) -> (r: Result<Operation, MessengerError>)
    requires
        core_bridge_id@.len() == 32,
        emitter_acc@.wf(),
    ensures
        match r {
            Ok(op) => spec_gate(
                vaa@,
                vaa_account_key@,
                emitter_acc@,
                core_bridge_id@,
                counter.count,
                current_count,
            ) == Ok::<SpecOperation, MessengerError>(op@),
            Err(e) => spec_gate(
                vaa@,
                vaa_account_key@,
                emitter_acc@,
                core_bridge_id@,
                counter.count,
                current_count,
            ) == Err::<SpecOperation, MessengerError>(e),
        },
{
    match verify_vaa_key(vaa_account_key, vaa, core_bridge_id) {
        Err(e) => {
            return Err(e);
        }
        Ok(()) => {}
    }
    if !verify_origin(emitter_acc, vaa) {
        return Err(MessengerError::VAAEmitterMismatch);
    }
    let op = match decode(&vaa.payload) {
        Ok(op) => op,
        Err(e) => {
            return Err(e);
        }
    };
    match counter.check(current_count) {
        Err(e) => {
            return Err(e);
        }
        Ok(()) => {}
    }
    Ok(op)
}

/// The authorization step: whether a supplied authority account equals the
/// identity derived from the given bytes and chain id.  A derivation that
/// finds no address also rejects.
pub open spec fn spec_authority_ok(
    identity: Seq<u8>,
    chain_id: u16,
    program_id: Seq<u8>,
    supplied: Seq<u8>,
) -> bool {
    match spec_derived_identity(identity, chain_id, program_id) {
        Some(key_bump) => supplied == key_bump.0,
        None => false,
    }
}

/// Checks a supplied authority account against the derived identity.
fn check_authority(
    identity: &Vec<u8>,
    chain_id: u16,
    program_id: &Vec<u8>,
    supplied: &Vec<u8>,
) -> (r: bool)
    requires
        program_id@.len() == 32,
    ensures
        r == spec_authority_ok(identity@, chain_id, program_id@, supplied@),
{
    match derive_identity(identity, chain_id, program_id) {
        Some(key_bump) => bytes_eq(supplied, &key_bump.0),
        None => false,
    }
}

/// The outcome of a deposit submission.
pub open spec fn spec_xstream_deposit(
    v: SpecMessageData,
    vaa_key: Seq<u8>,
    reg: SpecEmitterRegistration,
    core_bridge_id: Seq<u8>,
    stored_count: u8,
    current_count: u8,
    sender: Seq<u8>,
    from_chain_id: u16,
    mint_key: Seq<u8>,
    source_account_key: Seq<u8>,
    program_id: Seq<u8>,
) -> Result<DownstreamAction, MessengerError> {
    match spec_gate(v, vaa_key, reg, core_bridge_id, stored_count, current_count) {
        Err(e) => Err(e),
        Ok(op) => match op {
            SpecOperation::Deposit(p) => {
                if mint_key != p.token_mint {
                    Err(MessengerError::MintKeyMismatch)
                } else if sender != p.sender {
                    Err(MessengerError::PdaSenderMismatch)
                } else if !spec_authority_ok(sender, from_chain_id, program_id, source_account_key) {
                    Err(MessengerError::SenderDerivedKeyMismatch)
                } else {
                    Ok(DownstreamAction::Deposit { amount: p.amount })
                }
            },
            _ => Err(MessengerError::InvalidPayload),
        },
    }
}

/// Consumes a deposit attestation: after the shared gate, the supplied
/// mint must be the payload's, the supplied sender identity the payload's
/// sender, and the supplied source account the sender's derived identity.
/// On success the counter advances to the claimed position; on failure it
/// is untouched.
pub fn xstream_deposit(
    vaa: &MessageData,
    vaa_account_key: &Vec<u8>,
    emitter_acc: &EmitterRegistration,
    core_bridge_id: &Vec<u8>,
    counter: &mut ProcessCount,
    current_count: u8,
    sender: &Vec<u8>,
    from_chain_id: u16,
    mint_key: &Vec<u8>,
    source_account_key: &Vec<u8>,
    program_id: &Vec<u8>,
) -> (r: Result<DownstreamAction, MessengerError>)
    requires
        core_bridge_id@.len() == 32,
        program_id@.len() == 32,
        emitter_acc@.wf(),
    ensures
        r == spec_xstream_deposit(
            vaa@,
            vaa_account_key@,
            emitter_acc@,
            core_bridge_id@,
            old(counter).count,
            current_count,
            sender@,
            from_chain_id,
            mint_key@,
            source_account_key@,
            program_id@,
        ),
        r is Ok ==> final(counter).count == current_count,
        r is Err ==> *final(counter) == *old(counter),
{
    let op = match gate(vaa, vaa_account_key, emitter_acc, core_bridge_id, counter, current_count) {
        Ok(op) => op,
        Err(e) => {
            return Err(e);
        }
    };
    let p = match op {
        Operation::Deposit(p) => p,
        _ => {
            return Err(MessengerError::InvalidPayload);
        }
    };
    if !bytes_eq(mint_key, &p.token_mint) {
        return Err(MessengerError::MintKeyMismatch);
    }
    if !bytes_eq(sender, &p.sender) {
        return Err(MessengerError::PdaSenderMismatch);
    }
    if !check_authority(sender, from_chain_id, program_id, source_account_key) {
        return Err(MessengerError::SenderDerivedKeyMismatch);
    }
    match counter.advance(current_count) {
        Ok(_) => Ok(DownstreamAction::Deposit { amount: p.amount }),
        Err(e) => Err(e),
    }
}


/// The outcome of a stream-opening submission.
pub open spec fn spec_xstream_start(
    v: SpecMessageData,
    vaa_key: Seq<u8>,
    reg: SpecEmitterRegistration,
    core_bridge_id: Seq<u8>,
    stored_count: u8,
    current_count: u8,
    sender: Seq<u8>,
    from_chain_id: u16,
    mint_key: Seq<u8>,
    source_account_key: Seq<u8>,
    dest_account_key: Seq<u8>,
    program_id: Seq<u8>,
) -> Result<DownstreamAction, MessengerError> {
    match spec_gate(v, vaa_key, reg, core_bridge_id, stored_count, current_count) {
        Err(e) => Err(e),
        Ok(op) => match op {
            SpecOperation::OpenStream(p) => {
                if mint_key != p.token_mint {
                    Err(MessengerError::MintKeyMismatch)
                } else if sender != p.sender {
                    Err(MessengerError::PdaSenderMismatch)
                } else if !spec_authority_ok(sender, from_chain_id, program_id, source_account_key) {
                    Err(MessengerError::SenderDerivedKeyMismatch)
                } else if !spec_authority_ok(p.receiver, from_chain_id, program_id, dest_account_key) {
                    Err(MessengerError::ReceiverDerivedKeyMismatch)
                } else {
                    Ok(DownstreamAction::OpenStream {
                        start_time: p.start_time,
                        end_time: p.end_time,
                        amount: p.amount,
                        can_cancel: p.can_cancel == 1,
                        can_update: p.can_update == 1,
                    })
                }
            },
            _ => Err(MessengerError::InvalidPayload),
        },
    }
}

/// Consumes a stream-opening attestation: after the shared gate, the
/// supplied mint, sender identity and both derived authorities must match
/// the payload; the action carries the stream's bounds, amount and flags.
pub fn xstream_start(
    vaa: &MessageData,
    vaa_account_key: &Vec<u8>,
    emitter_acc: &EmitterRegistration,
    core_bridge_id: &Vec<u8>,
    counter: &mut ProcessCount,
    current_count: u8,
    sender: &Vec<u8>,
    from_chain_id: u16,
    mint_key: &Vec<u8>,
    source_account_key: &Vec<u8>,
    dest_account_key: &Vec<u8>,
    program_id: &Vec<u8>,
) -> (r: Result<DownstreamAction, MessengerError>)
    requires
        core_bridge_id@.len() == 32,
        program_id@.len() == 32,
        emitter_acc@.wf(),
    ensures
        r == spec_xstream_start(
            vaa@,
            vaa_account_key@,
            emitter_acc@,
            core_bridge_id@,
            old(counter).count,
            current_count,
            sender@,
            from_chain_id,
            mint_key@,
            source_account_key@,
            dest_account_key@,
            program_id@,
        ),
        r is Ok ==> final(counter).count == current_count,
        r is Err ==> *final(counter) == *old(counter),
{
    let op = match gate(vaa, vaa_account_key, emitter_acc, core_bridge_id, counter, current_count) {
        Ok(op) => op,
        Err(e) => {
            return Err(e);
        }
    };
    let p = match op {
        Operation::OpenStream(p) => p,
        _ => {
            return Err(MessengerError::InvalidPayload);
        }
    };
    if !bytes_eq(mint_key, &p.token_mint) {
        return Err(MessengerError::MintKeyMismatch);
    }
    if !bytes_eq(sender, &p.sender) {
        return Err(MessengerError::PdaSenderMismatch);
    }
    if !check_authority(sender, from_chain_id, program_id, source_account_key) {
        return Err(MessengerError::SenderDerivedKeyMismatch);
    }
    if !check_authority(&p.receiver, from_chain_id, program_id, dest_account_key) {
        return Err(MessengerError::ReceiverDerivedKeyMismatch);
    }
    match counter.advance(current_count) {
        Ok(_) => Ok(
            DownstreamAction::OpenStream {
                start_time: p.start_time,
                end_time: p.end_time,
                amount: p.amount,
                can_cancel: p.can_cancel == 1,
                can_update: p.can_update == 1,
            },
        ),
        Err(e) => Err(e),
    }
}

/// The outcome of a receiver-withdrawal submission.
pub open spec fn spec_xstream_withdraw(
    v: SpecMessageData,
    vaa_key: Seq<u8>,
    reg: SpecEmitterRegistration,
    core_bridge_id: Seq<u8>,
    stored_count: u8,
    current_count: u8,
    sender: Seq<u8>,
    from_chain_id: u16,
    mint_key: Seq<u8>,
    data_account_key: Seq<u8>,
    source_account_key: Seq<u8>,
    dest_account_key: Seq<u8>,
    program_id: Seq<u8>,
) -> Result<DownstreamAction, MessengerError> {
    match spec_gate(v, vaa_key, reg, core_bridge_id, stored_count, current_count) {
        Err(e) => Err(e),
        Ok(op) => match op {
            SpecOperation::ReceiverWithdraw(p) => {
                if mint_key != p.token_mint {
                    Err(MessengerError::MintKeyMismatch)
                } else if data_account_key != p.data_account {
                    Err(MessengerError::DataAccountMismatch)
                } else if sender != p.withdrawer {
                    Err(MessengerError::PdaReceiverMismatch)
                } else if !spec_authority_ok(p.depositor, from_chain_id, program_id, source_account_key) {
                    Err(MessengerError::SenderDerivedKeyMismatch)
                } else if !spec_authority_ok(p.withdrawer, from_chain_id, program_id, dest_account_key) {
                    Err(MessengerError::ReceiverDerivedKeyMismatch)
                } else {
                    Ok(DownstreamAction::Withdraw)
                }
            },
            _ => Err(MessengerError::InvalidPayload),
        },
    }
}

/// Consumes a receiver-withdrawal attestation: after the shared gate, the
/// supplied mint and data account must be the payload's, the caller's
/// identity must be the payload's withdrawer, and the source and
/// destination accounts must be the derived identities of the depositor
/// and the withdrawer.
pub fn xstream_withdraw(
    vaa: &MessageData,
    vaa_account_key: &Vec<u8>,
    emitter_acc: &EmitterRegistration,
    core_bridge_id: &Vec<u8>,
    counter: &mut ProcessCount,
    current_count: u8,
    sender: &Vec<u8>,
    from_chain_id: u16,
    mint_key: &Vec<u8>,
    data_account_key: &Vec<u8>,
    source_account_key: &Vec<u8>,
    dest_account_key: &Vec<u8>,
    program_id: &Vec<u8>,
) -> (r: Result<DownstreamAction, MessengerError>)
    requires
        core_bridge_id@.len() == 32,
        program_id@.len() == 32,
        emitter_acc@.wf(),
    ensures
        r == spec_xstream_withdraw(
            vaa@,
            vaa_account_key@,
            emitter_acc@,
            core_bridge_id@,
            old(counter).count,
            current_count,
            sender@,
            from_chain_id,
            mint_key@,
            data_account_key@,
            source_account_key@,
            dest_account_key@,
            program_id@,
        ),
        r is Ok ==> final(counter).count == current_count,
        r is Err ==> *final(counter) == *old(counter),
{
    let op = match gate(vaa, vaa_account_key, emitter_acc, core_bridge_id, counter, current_count) {
        Ok(op) => op,
        Err(e) => {
            return Err(e);
        }
    };
    let p = match op {
        Operation::ReceiverWithdraw(p) => p,
        _ => {
            return Err(MessengerError::InvalidPayload);
        }
    };
    if !bytes_eq(mint_key, &p.token_mint) {
        return Err(MessengerError::MintKeyMismatch);
    }
    if !bytes_eq(data_account_key, &p.data_account) {
        return Err(MessengerError::DataAccountMismatch);
    }
    if !bytes_eq(sender, &p.withdrawer) {
        return Err(MessengerError::PdaReceiverMismatch);
    }
    if !check_authority(&p.depositor, from_chain_id, program_id, source_account_key) {
        return Err(MessengerError::SenderDerivedKeyMismatch);
    }
    if !check_authority(&p.withdrawer, from_chain_id, program_id, dest_account_key) {
        return Err(MessengerError::ReceiverDerivedKeyMismatch);
    }
    match counter.advance(current_count) {
        Ok(_) => Ok(DownstreamAction::Withdraw),
        Err(e) => Err(e),
    }
}

/// The outcome of a stream-update submission.
pub open spec fn spec_xstream_update(
    v: SpecMessageData,
    vaa_key: Seq<u8>,
    reg: SpecEmitterRegistration,
    core_bridge_id: Seq<u8>,
    stored_count: u8,
    current_count: u8,
    sender: Seq<u8>,
    from_chain_id: u16,
    mint_key: Seq<u8>,
    data_account_key: Seq<u8>,
    source_account_key: Seq<u8>,
    dest_account_key: Seq<u8>,
    program_id: Seq<u8>,
) -> Result<DownstreamAction, MessengerError> {
    match spec_gate(v, vaa_key, reg, core_bridge_id, stored_count, current_count) {
        Err(e) => Err(e),
        Ok(op) => match op {
            SpecOperation::UpdateStream(p) => {
                if mint_key != p.token_mint {
                    Err(MessengerError::MintKeyMismatch)
                } else if data_account_key != p.data_account {
                    Err(MessengerError::DataAccountMismatch)
                } else if sender != p.sender {
                    Err(MessengerError::PdaReceiverMismatch)
                } else if !spec_authority_ok(p.sender, from_chain_id, program_id, source_account_key) {
                    Err(MessengerError::SenderDerivedKeyMismatch)
                } else if !spec_authority_ok(p.receiver, from_chain_id, program_id, dest_account_key) {
                    Err(MessengerError::ReceiverDerivedKeyMismatch)
                } else {
                    Ok(DownstreamAction::UpdateStream {
                        start_time: p.start_time,
                        end_time: p.end_time,
                        amount: p.amount,
                    })
                }
            },
            _ => Err(MessengerError::InvalidPayload),
        },
    }
}

/// Consumes a stream-update attestation: after the shared gate, the
/// supplied mint and data account must be the payload's, the caller's
/// identity the payload's sender, and both supplied accounts the derived
/// identities of the payload's sender and receiver.
pub fn xstream_update(
    vaa: &MessageData,
    vaa_account_key: &Vec<u8>,
    emitter_acc: &EmitterRegistration,
    core_bridge_id: &Vec<u8>,
    counter: &mut ProcessCount,
    current_count: u8,
    sender: &Vec<u8>,
    from_chain_id: u16,
    mint_key: &Vec<u8>,
    data_account_key: &Vec<u8>,
    source_account_key: &Vec<u8>,
    dest_account_key: &Vec<u8>,
    program_id: &Vec<u8>,
) -> (r: Result<DownstreamAction, MessengerError>)
    requires
        core_bridge_id@.len() == 32,
        program_id@.len() == 32,
        emitter_acc@.wf(),
    ensures
        r == spec_xstream_update(
            vaa@,
            vaa_account_key@,
            emitter_acc@,
            core_bridge_id@,
            old(counter).count,
            current_count,
            sender@,
            from_chain_id,
            mint_key@,
            data_account_key@,
            source_account_key@,
            dest_account_key@,
            program_id@,
        ),
        r is Ok ==> final(counter).count == current_count,
        r is Err ==> *final(counter) == *old(counter),
{
    let op = match gate(vaa, vaa_account_key, emitter_acc, core_bridge_id, counter, current_count) {
        Ok(op) => op,
        Err(e) => {
            return Err(e);
        }
    };
    let p = match op {
        Operation::UpdateStream(p) => p,
        _ => {
            return Err(MessengerError::InvalidPayload);
        }
    };
    if !bytes_eq(mint_key, &p.token_mint) {
        return Err(MessengerError::MintKeyMismatch);
    }
    if !bytes_eq(data_account_key, &p.data_account) {
        return Err(MessengerError::DataAccountMismatch);
    }
    if !bytes_eq(sender, &p.sender) {
        return Err(MessengerError::PdaReceiverMismatch);
    }
    if !check_authority(&p.sender, from_chain_id, program_id, source_account_key) {
        return Err(MessengerError::SenderDerivedKeyMismatch);
    }
    if !check_authority(&p.receiver, from_chain_id, program_id, dest_account_key) {
        return Err(MessengerError::ReceiverDerivedKeyMismatch);
    }
    match counter.advance(current_count) {
        Ok(_) => Ok(
            DownstreamAction::UpdateStream {
                start_time: p.start_time,
                end_time: p.end_time,
                amount: p.amount,
            },
        ),
        Err(e) => Err(e),
    }
}

/// The outcome of a sender-withdrawal submission.
pub open spec fn spec_xstream_sender_withdraw(
    v: SpecMessageData,
    vaa_key: Seq<u8>,
    reg: SpecEmitterRegistration,
    core_bridge_id: Seq<u8>,
    stored_count: u8,
    current_count: u8,
    sender: Seq<u8>,
    from_chain_id: u16,
    mint_key: Seq<u8>,
    source_account_key: Seq<u8>,
    program_id: Seq<u8>,
) -> Result<DownstreamAction, MessengerError> {
    match spec_gate(v, vaa_key, reg, core_bridge_id, stored_count, current_count) {
        Err(e) => Err(e),
        Ok(op) => match op {
            SpecOperation::SenderWithdraw(p) => {
                if mint_key != p.token_mint {
                    Err(MessengerError::MintKeyMismatch)
                } else if sender != p.withdrawer {
                    Err(MessengerError::PdaSenderMismatch)
                } else if !spec_authority_ok(sender, from_chain_id, program_id, source_account_key) {
                    Err(MessengerError::SenderDerivedKeyMismatch)
                } else {
                    Ok(DownstreamAction::SenderWithdraw { amount: p.amount })
                }
            },
            _ => Err(MessengerError::InvalidPayload),
        },
    }
}

/// Consumes a sender-withdrawal attestation: after the shared gate, the
/// supplied mint must be the payload's, the caller's identity the
/// payload's withdrawer, and the source account its derived identity.
pub fn xstream_sender_withdraw(
    vaa: &MessageData,
    vaa_account_key: &Vec<u8>,
    emitter_acc: &EmitterRegistration,
    core_bridge_id: &Vec<u8>,
    counter: &mut ProcessCount,
    current_count: u8,
    sender: &Vec<u8>,
    from_chain_id: u16,
    mint_key: &Vec<u8>,
    source_account_key: &Vec<u8>,
    program_id: &Vec<u8>,
) -> (r: Result<DownstreamAction, MessengerError>)
    requires
        core_bridge_id@.len() == 32,
        program_id@.len() == 32,
        emitter_acc@.wf(),
    ensures
        r == spec_xstream_sender_withdraw(
            vaa@,
            vaa_account_key@,
            emitter_acc@,
            core_bridge_id@,
            old(counter).count,
            current_count,
            sender@,
            from_chain_id,
            mint_key@,
            source_account_key@,
            program_id@,
        ),
        r is Ok ==> final(counter).count == current_count,
        r is Err ==> *final(counter) == *old(counter),
{
    let op = match gate(vaa, vaa_account_key, emitter_acc, core_bridge_id, counter, current_count) {
        Ok(op) => op,
        Err(e) => {
            return Err(e);
        }
    };
    let p = match op {
        Operation::SenderWithdraw(p) => p,
        _ => {
            return Err(MessengerError::InvalidPayload);
        }
    };
    if !bytes_eq(mint_key, &p.token_mint) {
        return Err(MessengerError::MintKeyMismatch);
    }
    if !bytes_eq(sender, &p.withdrawer) {
        return Err(MessengerError::PdaSenderMismatch);
    }
    if !check_authority(sender, from_chain_id, program_id, source_account_key) {
        return Err(MessengerError::SenderDerivedKeyMismatch);
    }
    match counter.advance(current_count) {
        Ok(_) => Ok(DownstreamAction::SenderWithdraw { amount: p.amount }),
        Err(e) => Err(e),
    }
}

/// The outcome of a pause/resume submission.
pub open spec fn spec_xstream_pause(
    v: SpecMessageData,
    vaa_key: Seq<u8>,
    reg: SpecEmitterRegistration,
    core_bridge_id: Seq<u8>,
    stored_count: u8,
    current_count: u8,
    sender: Seq<u8>,
    from_chain_id: u16,
    data_account_key: Seq<u8>,
    source_account_key: Seq<u8>,
    dest_account_key: Seq<u8>,
    program_id: Seq<u8>,
) -> Result<DownstreamAction, MessengerError> {
    match spec_gate(v, vaa_key, reg, core_bridge_id, stored_count, current_count) {
        Err(e) => Err(e),
        Ok(op) => match op {
            SpecOperation::PauseResume(p) => {
                if data_account_key != p.data_account {
                    Err(MessengerError::DataAccountMismatch)
                } else if sender != p.depositor {
                    Err(MessengerError::PdaSenderMismatch)
                } else if !spec_authority_ok(sender, from_chain_id, program_id, source_account_key) {
                    Err(MessengerError::SenderDerivedKeyMismatch)
                } else if !spec_authority_ok(p.receiver, from_chain_id, program_id, dest_account_key) {
                    Err(MessengerError::ReceiverDerivedKeyMismatch)
                } else {
                    Ok(DownstreamAction::PauseResume)
                }
            },
            _ => Err(MessengerError::InvalidPayload),
        },
    }
}

/// Consumes a pause/resume attestation: after the shared gate, the
/// supplied data account must be the payload's, the caller's identity the
/// payload's depositor, and the supplied accounts the derived identities
/// of depositor and receiver.
pub fn xstream_pause(
    vaa: &MessageData,
    vaa_account_key: &Vec<u8>,
    emitter_acc: &EmitterRegistration,
    core_bridge_id: &Vec<u8>,
    counter: &mut ProcessCount,
    current_count: u8,
    sender: &Vec<u8>,
    from_chain_id: u16,
    data_account_key: &Vec<u8>,
    source_account_key: &Vec<u8>,
    dest_account_key: &Vec<u8>,
    program_id: &Vec<u8>,
) -> (r: Result<DownstreamAction, MessengerError>)
    requires
        core_bridge_id@.len() == 32,
        program_id@.len() == 32,
        emitter_acc@.wf(),
    ensures
        r == spec_xstream_pause(
            vaa@,
            vaa_account_key@,
            emitter_acc@,
            core_bridge_id@,
            old(counter).count,
            current_count,
            sender@,
            from_chain_id,
            data_account_key@,
            source_account_key@,
            dest_account_key@,
            program_id@,
        ),
        r is Ok ==> final(counter).count == current_count,
        r is Err ==> *final(counter) == *old(counter),
{
    let op = match gate(vaa, vaa_account_key, emitter_acc, core_bridge_id, counter, current_count) {
        Ok(op) => op,
        Err(e) => {
            return Err(e);
        }
    };
    let p = match op {
        Operation::PauseResume(p) => p,
        _ => {
            return Err(MessengerError::InvalidPayload);
        }
    };
    if !bytes_eq(data_account_key, &p.data_account) {
        return Err(MessengerError::DataAccountMismatch);
    }
    if !bytes_eq(sender, &p.depositor) {
        return Err(MessengerError::PdaSenderMismatch);
    }
    if !check_authority(sender, from_chain_id, program_id, source_account_key) {
        return Err(MessengerError::SenderDerivedKeyMismatch);
    }
    if !check_authority(&p.receiver, from_chain_id, program_id, dest_account_key) {
        return Err(MessengerError::ReceiverDerivedKeyMismatch);
    }
    match counter.advance(current_count) {
        Ok(_) => Ok(DownstreamAction::PauseResume),
        Err(e) => Err(e),
    }
}

/// The outcome of a cancel submission.
pub open spec fn spec_xstream_cancel(
    v: SpecMessageData,
    vaa_key: Seq<u8>,
    reg: SpecEmitterRegistration,
    core_bridge_id: Seq<u8>,
    stored_count: u8,
    current_count: u8,
    sender: Seq<u8>,
    from_chain_id: u16,
    mint_key: Seq<u8>,
    data_account_key: Seq<u8>,
    source_account_key: Seq<u8>,
    dest_account_key: Seq<u8>,
    program_id: Seq<u8>,
) -> Result<DownstreamAction, MessengerError> {
    match spec_gate(v, vaa_key, reg, core_bridge_id, stored_count, current_count) {
        Err(e) => Err(e),
        Ok(op) => match op {
            SpecOperation::CancelStream(p) => {
                if mint_key != p.token_mint {
                    Err(MessengerError::MintKeyMismatch)
                } else if data_account_key != p.data_account {
                    Err(MessengerError::DataAccountMismatch)
                } else if sender != p.depositor {
                    Err(MessengerError::PdaSenderMismatch)
                } else if !spec_authority_ok(sender, from_chain_id, program_id, source_account_key) {
                    Err(MessengerError::SenderDerivedKeyMismatch)
                } else if !spec_authority_ok(p.receiver, from_chain_id, program_id, dest_account_key) {
                    Err(MessengerError::ReceiverDerivedKeyMismatch)
                } else {
                    Ok(DownstreamAction::Cancel)
                }
            },
            _ => Err(MessengerError::InvalidPayload),
        },
    }
}

/// Consumes a cancel attestation: after the shared gate, the supplied mint
/// and data account must be the payload's, the caller's identity the
/// payload's depositor, and the supplied accounts the derived identities
/// of depositor and receiver.
pub fn xstream_cancel(
    vaa: &MessageData,
    vaa_account_key: &Vec<u8>,
    emitter_acc: &EmitterRegistration,
    core_bridge_id: &Vec<u8>,
    counter: &mut ProcessCount,
    current_count: u8,
    sender: &Vec<u8>,
    from_chain_id: u16,
    mint_key: &Vec<u8>,
    data_account_key: &Vec<u8>,
    source_account_key: &Vec<u8>,
    dest_account_key: &Vec<u8>,
    program_id: &Vec<u8>,
) -> (r: Result<DownstreamAction, MessengerError>)
    requires
        core_bridge_id@.len() == 32,
        program_id@.len() == 32,
        emitter_acc@.wf(),
    ensures
        r == spec_xstream_cancel(
            vaa@,
            vaa_account_key@,
            emitter_acc@,
            core_bridge_id@,
            old(counter).count,
            current_count,
            sender@,
            from_chain_id,
            mint_key@,
            data_account_key@,
            source_account_key@,
            dest_account_key@,
            program_id@,
        ),
        r is Ok ==> final(counter).count == current_count,
        r is Err ==> *final(counter) == *old(counter),
{
    let op = match gate(vaa, vaa_account_key, emitter_acc, core_bridge_id, counter, current_count) {
        Ok(op) => op,
        Err(e) => {
            return Err(e);
        }
    };
    let p = match op {
        Operation::CancelStream(p) => p,
        _ => {
            return Err(MessengerError::InvalidPayload);
        }
    };
    if !bytes_eq(mint_key, &p.token_mint) {
        return Err(MessengerError::MintKeyMismatch);
    }
    if !bytes_eq(data_account_key, &p.data_account) {
        return Err(MessengerError::DataAccountMismatch);
    }
    if !bytes_eq(sender, &p.depositor) {
        return Err(MessengerError::PdaSenderMismatch);
    }
    if !check_authority(sender, from_chain_id, program_id, source_account_key) {
        return Err(MessengerError::SenderDerivedKeyMismatch);
    }
    if !check_authority(&p.receiver, from_chain_id, program_id, dest_account_key) {
        return Err(MessengerError::ReceiverDerivedKeyMismatch);
    }
    match counter.advance(current_count) {
        Ok(_) => Ok(DownstreamAction::Cancel),
        Err(e) => Err(e),
    }
}

/// The outcome of an instant-transfer submission.
pub open spec fn spec_instant_transfer(
    v: SpecMessageData,
    vaa_key: Seq<u8>,
    reg: SpecEmitterRegistration,
    core_bridge_id: Seq<u8>,
    stored_count: u8,
    current_count: u8,
    sender: Seq<u8>,
    from_chain_id: u16,
    mint_key: Seq<u8>,
    source_account_key: Seq<u8>,
    dest_account_key: Seq<u8>,
    program_id: Seq<u8>,
) -> Result<DownstreamAction, MessengerError> {
    match spec_gate(v, vaa_key, reg, core_bridge_id, stored_count, current_count) {
        Err(e) => Err(e),
        Ok(op) => match op {
            SpecOperation::InstantTransfer(p) => {
                if mint_key != p.token_mint {
                    Err(MessengerError::MintKeyMismatch)
                } else if sender != p.sender {
                    Err(MessengerError::PdaSenderMismatch)
                } else if !spec_authority_ok(sender, from_chain_id, program_id, source_account_key) {
                    Err(MessengerError::SenderDerivedKeyMismatch)
                } else if !spec_authority_ok(p.receiver, from_chain_id, program_id, dest_account_key) {
                    Err(MessengerError::ReceiverDerivedKeyMismatch)
                } else {
                    Ok(DownstreamAction::InstantTransfer { amount: p.amount })
                }
            },
            _ => Err(MessengerError::InvalidPayload),
        },
    }
}

/// Consumes an instant-transfer attestation: after the shared gate, the
/// supplied mint must be the payload's, the caller's identity the
/// payload's sender, and the supplied accounts the derived identities of
/// sender and receiver.
pub fn instant_transfer(
    vaa: &MessageData,
    vaa_account_key: &Vec<u8>,
    emitter_acc: &EmitterRegistration,
    core_bridge_id: &Vec<u8>,
    counter: &mut ProcessCount,
    current_count: u8,
    sender: &Vec<u8>,
    from_chain_id: u16,
    mint_key: &Vec<u8>,
    source_account_key: &Vec<u8>,
    dest_account_key: &Vec<u8>,
    program_id: &Vec<u8>,
) -> (r: Result<DownstreamAction, MessengerError>)
    requires
        core_bridge_id@.len() == 32,
        program_id@.len() == 32,
        emitter_acc@.wf(),
    ensures
        r == spec_instant_transfer(
            vaa@,
            vaa_account_key@,
            emitter_acc@,
            core_bridge_id@,
            old(counter).count,
            current_count,
            sender@,
            from_chain_id,
            mint_key@,
            source_account_key@,
            dest_account_key@,
            program_id@,
        ),
        r is Ok ==> final(counter).count == current_count,
        r is Err ==> *final(counter) == *old(counter),
{
    let op = match gate(vaa, vaa_account_key, emitter_acc, core_bridge_id, counter, current_count) {
        Ok(op) => op,
        Err(e) => {
            return Err(e);
        }
    };
    let p = match op {
        Operation::InstantTransfer(p) => p,
        _ => {
            return Err(MessengerError::InvalidPayload);
        }
    };
    if !bytes_eq(mint_key, &p.token_mint) {
        return Err(MessengerError::MintKeyMismatch);
    }
    if !bytes_eq(sender, &p.sender) {
        return Err(MessengerError::PdaSenderMismatch);
    }
    if !check_authority(sender, from_chain_id, program_id, source_account_key) {
        return Err(MessengerError::SenderDerivedKeyMismatch);
    }
    if !check_authority(&p.receiver, from_chain_id, program_id, dest_account_key) {
        return Err(MessengerError::ReceiverDerivedKeyMismatch);
    }
    match counter.advance(current_count) {
        Ok(_) => Ok(DownstreamAction::InstantTransfer { amount: p.amount }),
        Err(e) => Err(e),
    }
}


/// The data of an outbound bridge transfer, handed to the portal program.
#[derive(Clone, Debug, PartialEq, Eq)]
pub struct PortalTransferData {
    pub nonce: u32,
    pub amount: u64,
    pub fee: u64,
    pub target_address: Vec<u8>,
    pub target_chain: u16,
}

/// The mathematical value of an outbound transfer's data.
#[verifier::ext_equal]
pub struct SpecPortalTransferData {
    pub nonce: u32,
    pub amount: u64,
    pub fee: u64,
    pub target_address: Seq<u8>,
    pub target_chain: u16,
}

impl View for PortalTransferData {
    type V = SpecPortalTransferData;

    open spec fn view(&self) -> SpecPortalTransferData {
        SpecPortalTransferData {
            nonce: self.nonce,
            amount: self.amount,
            fee: self.fee,
            target_address: self.target_address@,
            target_chain: self.target_chain,
        }
    }
}

/// The outcome of preparing an outbound transfer: the caller must be the
/// configured owner, the configuration's nonce must not wrap, and the
/// transfer carries the nonce before the increment.
pub open spec fn spec_prepare_transfer(
    cfg: SpecConfig,
    zebec_eoa_key: Seq<u8>,
    amount: u64,
    target_chain: u16,
    fee: u64,
    receiver: Seq<u8>,
) -> Result<(SpecPortalTransferData, SpecConfig), MessengerError> {
    if cfg.owner != zebec_eoa_key {
        Err(MessengerError::InvalidCaller)
    } else if cfg.nonce == u32::MAX {
        Err(MessengerError::Overflow)
    } else {
        Ok(
            (
                SpecPortalTransferData {
                    nonce: cfg.nonce,
                    amount,
                    fee,
                    target_address: receiver,
                    target_chain,
                },
                SpecConfig { nonce: (cfg.nonce + 1) as u32, ..cfg },
            ),
        )
    }
}

/// Builds the data of an outbound transfer and advances the configuration's
/// nonce; the body shared by the native and the wrapped form.
fn prepare_transfer(
    config: &mut Config,
    zebec_eoa_key: &Vec<u8>,
    amount: u64,
    target_chain: u16,
    fee: u64,
    receiver: &Vec<u8>,
) -> (r: Result<PortalTransferData, MessengerError>)
    ensures
        match r {
            Ok(d) => spec_prepare_transfer(
                old(config)@,
                zebec_eoa_key@,
                amount,
                target_chain,
                fee,
                receiver@,
            ) == Ok::<(SpecPortalTransferData, SpecConfig), MessengerError>((d@, final(config)@)),
            Err(e) => spec_prepare_transfer(
                old(config)@,
                zebec_eoa_key@,
                amount,
                target_chain,
                fee,
                receiver@,
            ) == Err::<(SpecPortalTransferData, SpecConfig), MessengerError>(e) && *final(config)
                == *old(config),
        },
{
    if !bytes_eq(&config.owner, zebec_eoa_key) {
        return Err(MessengerError::InvalidCaller);
    }
    let next = match config.nonce.checked_add(1) {
        None => {
            return Err(MessengerError::Overflow);
        }
        Some(next) => next,
    };
    let data = PortalTransferData {
        nonce: config.nonce,
        amount,
        fee,
        target_address: clone_bytes(receiver),
        target_chain,
    };
    config.nonce = next;
    proof {
        assert(config@ =~= SpecConfig { nonce: (old(config)@.nonce + 1) as u32, ..old(config)@ });
    }
    Ok(data)
}

/// Prepares a native-token outbound transfer: checks the caller against
/// the configured owner, builds the transfer data with the current nonce,
/// and advances the nonce without wrapping.
pub fn transfer_native(
    config: &mut Config,
    zebec_eoa_key: &Vec<u8>,
    amount: u64,
    target_chain: u16,
    fee: u64,
    receiver: &Vec<u8>,
) -> (r: Result<PortalTransferData, MessengerError>)
    ensures
        match r {
            Ok(d) => spec_prepare_transfer(
                old(config)@,
                zebec_eoa_key@,
                amount,
                target_chain,
                fee,
                receiver@,
            ) == Ok::<(SpecPortalTransferData, SpecConfig), MessengerError>((d@, final(config)@)),
            Err(e) => spec_prepare_transfer(
                old(config)@,
                zebec_eoa_key@,
                amount,
                target_chain,
                fee,
                receiver@,
            ) == Err::<(SpecPortalTransferData, SpecConfig), MessengerError>(e) && *final(config)
                == *old(config),
        },
{
    prepare_transfer(config, zebec_eoa_key, amount, target_chain, fee, receiver)
}

/// Prepares a wrapped-token outbound transfer; the data is the same shape
/// as the native form, the account plumbing around the call differs.
pub fn transfer_wrapped(
    config: &mut Config,
    zebec_eoa_key: &Vec<u8>,
    amount: u64,
    target_chain: u16,
    fee: u64,
    receiver: &Vec<u8>,
) -> (r: Result<PortalTransferData, MessengerError>)
    ensures
        match r {
            Ok(d) => spec_prepare_transfer(
                old(config)@,
                zebec_eoa_key@,
                amount,
                target_chain,
                fee,
                receiver@,
            ) == Ok::<(SpecPortalTransferData, SpecConfig), MessengerError>((d@, final(config)@)),
            Err(e) => spec_prepare_transfer(
                old(config)@,
                zebec_eoa_key@,
                amount,
                target_chain,
                fee,
                receiver@,
            ) == Err::<(SpecPortalTransferData, SpecConfig), MessengerError>(e) && *final(config)
                == *old(config),
        },
{
    prepare_transfer(config, zebec_eoa_key, amount, target_chain, fee, receiver)
}

/// The outcome of a direct-transfer submission, native or wrapped: the
/// shared gate, the sender-identity and derived-authority checks, then the
/// outbound transfer preparation against the configuration.
pub open spec fn spec_direct_transfer(
    v: SpecMessageData,
    vaa_key: Seq<u8>,
    reg: SpecEmitterRegistration,
    core_bridge_id: Seq<u8>,
    stored_count: u8,
    current_count: u8,
    sender: Seq<u8>,
    sender_chain: u16,
    target_chain: u16,
    fee: u64,
    pda_signer_key: Seq<u8>,
    program_id: Seq<u8>,
    cfg: SpecConfig,
    zebec_eoa_key: Seq<u8>,
) -> Result<(SpecPortalTransferData, SpecConfig), MessengerError> {
    match spec_gate(v, vaa_key, reg, core_bridge_id, stored_count, current_count) {
        Err(e) => Err(e),
        Ok(op) => match op {
            SpecOperation::DirectTransfer(p) => {
                if sender != p.sender {
                    Err(MessengerError::PdaSenderMismatch)
                } else if !spec_authority_ok(sender, sender_chain, program_id, pda_signer_key) {
                    Err(MessengerError::SenderDerivedKeyMismatch)
                } else {
                    spec_prepare_transfer(cfg, zebec_eoa_key, p.amount, target_chain, fee, p.receiver)
                }
            },
            _ => Err(MessengerError::InvalidPayload),
        },
    }
}

/// Consumes a direct-transfer attestation and prepares the outbound
/// native-token transfer: after the shared gate, the caller's identity
/// must be the payload's sender and the supplied signer its derived
/// identity; the transfer data then carries the payload's amount and
/// receiver.  On success the counter and the nonce advance; on failure
/// both stay as they were.
pub fn xstream_direct_transfer_native(
    vaa: &MessageData,
    vaa_account_key: &Vec<u8>,
    emitter_acc: &EmitterRegistration,
    core_bridge_id: &Vec<u8>,
    counter: &mut ProcessCount,
    current_count: u8,
    sender: &Vec<u8>,
    chain_id: u16,
    target_chain: u16,
    fee: u64,
    pda_signer_key: &Vec<u8>,
    program_id: &Vec<u8>,
    config: &mut Config,
    zebec_eoa_key: &Vec<u8>,
) -> (r: Result<PortalTransferData, MessengerError>)
    requires
        core_bridge_id@.len() == 32,
        program_id@.len() == 32,
        emitter_acc@.wf(),
    ensures
        match r {
            Ok(d) => spec_direct_transfer(
                vaa@,
                vaa_account_key@,
                emitter_acc@,
                core_bridge_id@,
                old(counter).count,
                current_count,
                sender@,
                chain_id,
                target_chain,
                fee,
                pda_signer_key@,
                program_id@,
                old(config)@,
                zebec_eoa_key@,
            ) == Ok::<(SpecPortalTransferData, SpecConfig), MessengerError>((d@, final(config)@))
                && final(counter).count == current_count,
            Err(e) => spec_direct_transfer(
                vaa@,
                vaa_account_key@,
                emitter_acc@,
                core_bridge_id@,
                old(counter).count,
                current_count,
                sender@,
                chain_id,
                target_chain,
                fee,
                pda_signer_key@,
                program_id@,
                old(config)@,
                zebec_eoa_key@,
            ) == Err::<(SpecPortalTransferData, SpecConfig), MessengerError>(e) && *final(config)
                == *old(config) && *final(counter) == *old(counter),
        },
{
    direct_transfer(
        vaa,
        vaa_account_key,
        emitter_acc,
        core_bridge_id,
        counter,
        current_count,
        sender,
        chain_id,
        target_chain,
        fee,
        pda_signer_key,
        program_id,
        config,
        zebec_eoa_key,
    )
}

/// Consumes a direct-transfer attestation and prepares the outbound
/// wrapped-token transfer; the checks and the data are those of the native
/// form.
pub fn xstream_direct_transfer_wrapped(
    vaa: &MessageData,
    vaa_account_key: &Vec<u8>,
    emitter_acc: &EmitterRegistration,
    core_bridge_id: &Vec<u8>,
    counter: &mut ProcessCount,
    current_count: u8,
    sender: &Vec<u8>,
    sender_chain: u16,
    target_chain: u16,
    fee: u64,
    pda_signer_key: &Vec<u8>,
    program_id: &Vec<u8>,
    config: &mut Config,
    zebec_eoa_key: &Vec<u8>,
) -> (r: Result<PortalTransferData, MessengerError>)
    requires
        core_bridge_id@.len() == 32,
        program_id@.len() == 32,
        emitter_acc@.wf(),
    ensures
        match r {
            Ok(d) => spec_direct_transfer(
                vaa@,
                vaa_account_key@,
                emitter_acc@,
                core_bridge_id@,
                old(counter).count,
                current_count,
                sender@,
                sender_chain,
                target_chain,
                fee,
                pda_signer_key@,
                program_id@,
                old(config)@,
                zebec_eoa_key@,
            ) == Ok::<(SpecPortalTransferData, SpecConfig), MessengerError>((d@, final(config)@))
                && final(counter).count == current_count,
            Err(e) => spec_direct_transfer(
                vaa@,
                vaa_account_key@,
                emitter_acc@,
                core_bridge_id@,
                old(counter).count,
                current_count,
                sender@,
                sender_chain,
                target_chain,
                fee,
                pda_signer_key@,
                program_id@,
                old(config)@,
                zebec_eoa_key@,
            ) == Err::<(SpecPortalTransferData, SpecConfig), MessengerError>(e) && *final(config)
                == *old(config) && *final(counter) == *old(counter),
        },
{
    direct_transfer(
        vaa,
        vaa_account_key,
        emitter_acc,
        core_bridge_id,
        counter,
        current_count,
        sender,
        sender_chain,
        target_chain,
        fee,
        pda_signer_key,
        program_id,
        config,
        zebec_eoa_key,
    )
}

/// The body shared by both direct-transfer entry points.
fn direct_transfer(
    vaa: &MessageData,
    vaa_account_key: &Vec<u8>,
    emitter_acc: &EmitterRegistration,
    core_bridge_id: &Vec<u8>,
    counter: &mut ProcessCount,
    current_count: u8,
    sender: &Vec<u8>,
    sender_chain: u16,
    target_chain: u16,
    fee: u64,
    pda_signer_key: &Vec<u8>,
    program_id: &Vec<u8>,
    config: &mut Config,
    zebec_eoa_key: &Vec<u8>,
) -> (r: Result<PortalTransferData, MessengerError>)
    requires
        core_bridge_id@.len() == 32,
        program_id@.len() == 32,
        emitter_acc@.wf(),
    ensures
        match r {
            Ok(d) => spec_direct_transfer(
                vaa@,
                vaa_account_key@,
                emitter_acc@,
                core_bridge_id@,
                old(counter).count,
                current_count,
                sender@,
                sender_chain,
                target_chain,
                fee,
                pda_signer_key@,
                program_id@,
                old(config)@,
                zebec_eoa_key@,
            ) == Ok::<(SpecPortalTransferData, SpecConfig), MessengerError>((d@, final(config)@))
                && final(counter).count == current_count,
            Err(e) => spec_direct_transfer(
                vaa@,
                vaa_account_key@,
                emitter_acc@,
                core_bridge_id@,
                old(counter).count,
                current_count,
                sender@,
                sender_chain,
                target_chain,
                fee,
                pda_signer_key@,
                program_id@,
                old(config)@,
                zebec_eoa_key@,
            ) == Err::<(SpecPortalTransferData, SpecConfig), MessengerError>(e) && *final(config)
                == *old(config) && *final(counter) == *old(counter),
        },
{
    let op = match gate(vaa, vaa_account_key, emitter_acc, core_bridge_id, counter, current_count) {
        Ok(op) => op,
        Err(e) => {
            return Err(e);
        }
    };
    let p = match op {
        Operation::DirectTransfer(p) => p,
        _ => {
            return Err(MessengerError::InvalidPayload);
        }
    };
    if !bytes_eq(sender, &p.sender) {
        return Err(MessengerError::PdaSenderMismatch);
    }
    if !check_authority(sender, sender_chain, program_id, pda_signer_key) {
        return Err(MessengerError::SenderDerivedKeyMismatch);
    }
    let data = match prepare_transfer(config, zebec_eoa_key, p.amount, target_chain, fee, &p.receiver) {
        Ok(d) => d,
        Err(e) => {
            return Err(e);
        }
    };
    match counter.advance(current_count) {
        Ok(_) => Ok(data),
        Err(e) => Err(e),
    }
}

/// The outcome of a derived-account initialization: after the shared gate,
/// the supplied account must be the address derived from the payload's
/// seed and the attestation's emitter chain, and the destination chain
/// must read as one.
pub open spec fn spec_initialize_pda(
    v: SpecMessageData,
    vaa_key: Seq<u8>,
    reg: SpecEmitterRegistration,
    core_bridge_id: Seq<u8>,
    stored_count: u8,
    current_count: u8,
    pda_account_key: Seq<u8>,
    program_id: Seq<u8>,
) -> Result<Seq<u8>, MessengerError> {
    match spec_gate(v, vaa_key, reg, core_bridge_id, stored_count, current_count) {
        Err(e) => Err(e),
        Ok(op) => match op {
            SpecOperation::InitAccount(p) => {
                match spec_derived_identity(p.pda_seed, v.emitter_chain, program_id) {
                    Some(key_bump) => if key_bump.0 != pda_account_key {
                        Err(MessengerError::InvalidPDAAccount)
                    } else if !(p.to_chain.len() > 0 && be_nat_of(p.to_chain) == 1) {
                        Err(MessengerError::InvalidToChainId)
                    } else {
                        Ok(key_bump.0)
                    },
                    None => Err(MessengerError::InvalidPDAAccount),
                }
            },
            _ => Err(MessengerError::InvalidPayload),
        },
    }
}

/// Consumes a derived-account initialization attestation and returns the
/// derived account address whose creation the caller must fund.
pub fn initialize_pda(
    vaa: &MessageData,
    vaa_account_key: &Vec<u8>,
    emitter_acc: &EmitterRegistration,
    core_bridge_id: &Vec<u8>,
    counter: &mut ProcessCount,
    current_count: u8,
    pda_account_key: &Vec<u8>,
    program_id: &Vec<u8>,
) -> (r: Result<Vec<u8>, MessengerError>)
    requires
        core_bridge_id@.len() == 32,
        program_id@.len() == 32,
        emitter_acc@.wf(),
    ensures
        match r {
            Ok(pda) => spec_initialize_pda(
                vaa@,
                vaa_account_key@,
                emitter_acc@,
                core_bridge_id@,
                old(counter).count,
                current_count,
                pda_account_key@,
                program_id@,
            ) == Ok::<Seq<u8>, MessengerError>(pda@) && final(counter).count == current_count,
            Err(e) => spec_initialize_pda(
                vaa@,
                vaa_account_key@,
                emitter_acc@,
                core_bridge_id@,
                old(counter).count,
                current_count,
                pda_account_key@,
                program_id@,
            ) == Err::<Seq<u8>, MessengerError>(e) && *final(counter) == *old(counter),
        },
{
    let op = match gate(vaa, vaa_account_key, emitter_acc, core_bridge_id, counter, current_count) {
        Ok(op) => op,
        Err(e) => {
            return Err(e);
        }
    };
    let p = match op {
        Operation::InitAccount(p) => p,
        _ => {
            return Err(MessengerError::InvalidPayload);
        }
    };
    let derived = match derive_identity(&p.pda_seed, vaa.emitter_chain, program_id) {
        Some(key_bump) => key_bump.0,
        None => {
            return Err(MessengerError::InvalidPDAAccount);
        }
    };
    if !bytes_eq(&derived, pda_account_key) {
        return Err(MessengerError::InvalidPDAAccount);
    }
    if !is_be_one(&p.to_chain) {
        return Err(MessengerError::InvalidToChainId);
    }
    match counter.advance(current_count) {
        Ok(_) => Ok(derived),
        Err(e) => Err(e),
    }
}

/// The outcome of a derived token-account initialization: after the shared
/// gate, the destination chain must read as one, the supplied account must
/// be the derived address, and the supplied mint the payload's.
pub open spec fn spec_initialize_pda_token_account(
    v: SpecMessageData,
    vaa_key: Seq<u8>,
    reg: SpecEmitterRegistration,
    core_bridge_id: Seq<u8>,
    stored_count: u8,
    current_count: u8,
    pda_account_key: Seq<u8>,
    mint_key: Seq<u8>,
    program_id: Seq<u8>,
) -> Result<Seq<u8>, MessengerError> {
    match spec_gate(v, vaa_key, reg, core_bridge_id, stored_count, current_count) {
        Err(e) => Err(e),
        Ok(op) => match op {
            SpecOperation::InitTokenAccount(p) => {
                if !(p.to_chain.len() > 0 && be_nat_of(p.to_chain) == 1) {
                    Err(MessengerError::InvalidToChainId)
                } else {
                    match spec_derived_identity(p.pda_seed, v.emitter_chain, program_id) {
                        Some(key_bump) => if key_bump.0 != pda_account_key {
                            Err(MessengerError::InvalidPDAAccount)
                        } else if mint_key != p.token_mint {
                            Err(MessengerError::MintKeyMismatch)
                        } else {
                            Ok(key_bump.0)
                        },
                        None => Err(MessengerError::InvalidPDAAccount),
                    }
                }
            },
            _ => Err(MessengerError::InvalidPayload),
        },
    }
}

/// Consumes a derived token-account initialization attestation and returns
/// the derived account address for which the token account is created.
pub fn initialize_pda_token_account(
    vaa: &MessageData,
    vaa_account_key: &Vec<u8>,
    emitter_acc: &EmitterRegistration,
    core_bridge_id: &Vec<u8>,
    counter: &mut ProcessCount,
    current_count: u8,
    pda_account_key: &Vec<u8>,
    mint_key: &Vec<u8>,
    program_id: &Vec<u8>,
) -> (r: Result<Vec<u8>, MessengerError>)
    requires
        core_bridge_id@.len() == 32,
        program_id@.len() == 32,
        emitter_acc@.wf(),
    ensures
        match r {
            Ok(pda) => spec_initialize_pda_token_account(
                vaa@,
                vaa_account_key@,
                emitter_acc@,
                core_bridge_id@,
                old(counter).count,
                current_count,
                pda_account_key@,
                mint_key@,
                program_id@,
            ) == Ok::<Seq<u8>, MessengerError>(pda@) && final(counter).count == current_count,
            Err(e) => spec_initialize_pda_token_account(
                vaa@,
                vaa_account_key@,
                emitter_acc@,
                core_bridge_id@,
                old(counter).count,
                current_count,
                pda_account_key@,
                mint_key@,
                program_id@,
            ) == Err::<Seq<u8>, MessengerError>(e) && *final(counter) == *old(counter),
        },
{
    let op = match gate(vaa, vaa_account_key, emitter_acc, core_bridge_id, counter, current_count) {
        Ok(op) => op,
        Err(e) => {
            return Err(e);
        }
    };
    let p = match op {
        Operation::InitTokenAccount(p) => p,
        _ => {
            return Err(MessengerError::InvalidPayload);
        }
    };
    if !is_be_one(&p.to_chain) {
        return Err(MessengerError::InvalidToChainId);
    }
    let derived = match derive_identity(&p.pda_seed, vaa.emitter_chain, program_id) {
        Some(key_bump) => key_bump.0,
        None => {
            return Err(MessengerError::InvalidPDAAccount);
        }
    };
    if !bytes_eq(&derived, pda_account_key) {
        return Err(MessengerError::InvalidPDAAccount);
    }
    if !bytes_eq(mint_key, &p.token_mint) {
        return Err(MessengerError::MintKeyMismatch);
    }
    match counter.advance(current_count) {
        Ok(_) => Ok(derived),
        Err(e) => Err(e),
    }
}


/// A tampered attestation is turned away before anything else is looked
/// at: whenever the recomputed content-derived address differs from the
/// supplied account, the shared admission checks end in `VAAKeyMismatch`,
/// whatever the registration, payload or counter hold.
pub proof fn lemma_gate_rejects_tampered_attestation(
    v: SpecMessageData,
    vaa_key: Seq<u8>,
    reg: SpecEmitterRegistration,
    core_bridge_id: Seq<u8>,
    stored_count: u8,
    current_count: u8,
)
    requires
        match crate::attestation::spec_expected_address(v, core_bridge_id) {
            Some(key_bump) => key_bump.0 != vaa_key,
            None => true,
        },
    ensures
        spec_gate(v, vaa_key, reg, core_bridge_id, stored_count, current_count) == Err::<
            SpecOperation,
            MessengerError,
        >(MessengerError::VAAKeyMismatch),
{
}

/// A wrong origin is turned away before the payload is decoded: whenever
/// the attestation's address is correct but its origin is not the
/// registered emitter, the shared admission checks end in
/// `VAAEmitterMismatch`, whatever bytes the payload holds.
pub proof fn lemma_gate_rejects_wrong_origin(
    v: SpecMessageData,
    vaa_key: Seq<u8>,
    reg: SpecEmitterRegistration,
    core_bridge_id: Seq<u8>,
    stored_count: u8,
    current_count: u8,
)
    requires
        spec_verify_vaa_key(vaa_key, v, core_bridge_id) is Ok,
        !spec_origin_ok(reg, v),
    ensures
        spec_gate(v, vaa_key, reg, core_bridge_id, stored_count, current_count) == Err::<
            SpecOperation,
            MessengerError,
        >(MessengerError::VAAEmitterMismatch),
{
}

/// Authorization is independent of payload correctness: a deposit whose
/// payload fields are all self-consistent is still rejected with
/// `SenderDerivedKeyMismatch` when the supplied source account is not the
/// sender's derived identity.
pub proof fn lemma_deposit_requires_authority(
    v: SpecMessageData,
    vaa_key: Seq<u8>,
    reg: SpecEmitterRegistration,
    core_bridge_id: Seq<u8>,
    stored_count: u8,
    current_count: u8,
    sender: Seq<u8>,
    from_chain_id: u16,
    mint_key: Seq<u8>,
    source_account_key: Seq<u8>,
    program_id: Seq<u8>,
    p: crate::codec::SpecXstreamDepositPayload,
)
    requires
        spec_gate(v, vaa_key, reg, core_bridge_id, stored_count, current_count) == Ok::<
            SpecOperation,
            MessengerError,
        >(SpecOperation::Deposit(p)),
        mint_key == p.token_mint,
        sender == p.sender,
        !spec_authority_ok(sender, from_chain_id, program_id, source_account_key),
    ensures
        spec_xstream_deposit(
            v,
            vaa_key,
            reg,
            core_bridge_id,
            stored_count,
            current_count,
            sender,
            from_chain_id,
            mint_key,
            source_account_key,
            program_id,
        ) == Err::<DownstreamAction, MessengerError>(MessengerError::SenderDerivedKeyMismatch),
{
}

/// Authorization is independent of payload correctness for stream opening:
/// with every payload field self-consistent, a source account that is not
/// the sender's derived identity is rejected with
/// `SenderDerivedKeyMismatch`, and a destination account that is not the
/// receiver's derived identity with `ReceiverDerivedKeyMismatch`.
pub proof fn lemma_start_requires_authority(
    v: SpecMessageData,
    vaa_key: Seq<u8>,
    reg: SpecEmitterRegistration,
    core_bridge_id: Seq<u8>,
    stored_count: u8,
    current_count: u8,
    sender: Seq<u8>,
    from_chain_id: u16,
    mint_key: Seq<u8>,
    source_account_key: Seq<u8>,
    dest_account_key: Seq<u8>,
    program_id: Seq<u8>,
    p: crate::codec::SpecXstreamStartPayload,
)
    requires
        spec_gate(v, vaa_key, reg, core_bridge_id, stored_count, current_count) == Ok::<
            SpecOperation,
            MessengerError,
        >(SpecOperation::OpenStream(p)),
        mint_key == p.token_mint,
        sender == p.sender,
    ensures
        !spec_authority_ok(sender, from_chain_id, program_id, source_account_key)
            ==> spec_xstream_start(
            v,
            vaa_key,
            reg,
            core_bridge_id,
            stored_count,
            current_count,
            sender,
            from_chain_id,
            mint_key,
            source_account_key,
            dest_account_key,
            program_id,
        ) == Err::<DownstreamAction, MessengerError>(MessengerError::SenderDerivedKeyMismatch),
        spec_authority_ok(sender, from_chain_id, program_id, source_account_key)
            && !spec_authority_ok(p.receiver, from_chain_id, program_id, dest_account_key)
            ==> spec_xstream_start(
            v,
            vaa_key,
            reg,
            core_bridge_id,
            stored_count,
            current_count,
            sender,
            from_chain_id,
            mint_key,
            source_account_key,
            dest_account_key,
            program_id,
        ) == Err::<DownstreamAction, MessengerError>(MessengerError::ReceiverDerivedKeyMismatch),
{
}

/// Authorization is independent of payload correctness for direct
/// transfers: with the payload's sender matching the caller's identity, a
/// supplied signer that is not the derived identity is rejected with
/// `SenderDerivedKeyMismatch` before the configuration is consulted.
pub proof fn lemma_direct_transfer_requires_authority(
    v: SpecMessageData,
    vaa_key: Seq<u8>,
    reg: SpecEmitterRegistration,
    core_bridge_id: Seq<u8>,
    stored_count: u8,
    current_count: u8,
    sender: Seq<u8>,
    sender_chain: u16,
    target_chain: u16,
    fee: u64,
    pda_signer_key: Seq<u8>,
    program_id: Seq<u8>,
    cfg: SpecConfig,
    zebec_eoa_key: Seq<u8>,
    p: crate::codec::SpecXstreamTransferPayload,
)
    requires
        spec_gate(v, vaa_key, reg, core_bridge_id, stored_count, current_count) == Ok::<
            SpecOperation,
            MessengerError,
        >(SpecOperation::DirectTransfer(p)),
        sender == p.sender,
        !spec_authority_ok(sender, sender_chain, program_id, pda_signer_key),
    ensures
        spec_direct_transfer(
            v,
            vaa_key,
            reg,
            core_bridge_id,
            stored_count,
            current_count,
            sender,
            sender_chain,
            target_chain,
            fee,
            pda_signer_key,
            program_id,
            cfg,
            zebec_eoa_key,
        ) == Err::<(SpecPortalTransferData, SpecConfig), MessengerError>(
            MessengerError::SenderDerivedKeyMismatch,
        ),
{
}

/// Derived identities separate chains: one account can stand as the
/// authority for the same raw identity bytes under two chain ids only
/// when the two derivations both succeed and agree on that address, which
/// the derivation's collision resistance is relied upon to prevent for
/// distinct chain ids.
pub proof fn lemma_authority_is_chain_specific(
    identity: Seq<u8>,
    chain_a: u16,
    chain_b: u16,
    program_id: Seq<u8>,
    supplied: Seq<u8>,
)
    requires
        spec_authority_ok(identity, chain_a, program_id, supplied),
        spec_authority_ok(identity, chain_b, program_id, supplied),
    ensures
        match (
            spec_derived_identity(identity, chain_a, program_id),
            spec_derived_identity(identity, chain_b, program_id),
        ) {
            (Some(key_a), Some(key_b)) => key_a.0 == key_b.0,
            _ => false,
        },
{
}


/// Authorization is independent of payload correctness for receiver
/// withdrawals: with the mint, data account and withdrawer identity all
/// matching the payload, a source account that is not the depositor's
/// derived identity is rejected with `SenderDerivedKeyMismatch`, and a
/// destination account that is not the withdrawer's derived identity with
/// `ReceiverDerivedKeyMismatch`.
pub proof fn lemma_withdraw_requires_authority(
    v: SpecMessageData,
    vaa_key: Seq<u8>,
    reg: SpecEmitterRegistration,
    core_bridge_id: Seq<u8>,
    stored_count: u8,
    current_count: u8,
    sender: Seq<u8>,
    from_chain_id: u16,
    mint_key: Seq<u8>,
    data_account_key: Seq<u8>,
    source_account_key: Seq<u8>,
    dest_account_key: Seq<u8>,
    program_id: Seq<u8>,
    p: crate::codec::SpecXstreamWithdrawPayload,
)
    requires
        spec_gate(v, vaa_key, reg, core_bridge_id, stored_count, current_count) == Ok::<
            SpecOperation,
            MessengerError,
        >(SpecOperation::ReceiverWithdraw(p)),
        mint_key == p.token_mint,
        data_account_key == p.data_account,
        sender == p.withdrawer,
    ensures
        !spec_authority_ok(p.depositor, from_chain_id, program_id, source_account_key)
            ==> spec_xstream_withdraw(
            v,
            vaa_key,
            reg,
            core_bridge_id,
            stored_count,
            current_count,
            sender,
            from_chain_id,
            mint_key,
            data_account_key,
            source_account_key,
            dest_account_key,
            program_id,
        ) == Err::<DownstreamAction, MessengerError>(MessengerError::SenderDerivedKeyMismatch),
        spec_authority_ok(p.depositor, from_chain_id, program_id, source_account_key)
            && !spec_authority_ok(p.withdrawer, from_chain_id, program_id, dest_account_key)
            ==> spec_xstream_withdraw(
            v,
            vaa_key,
            reg,
            core_bridge_id,
            stored_count,
            current_count,
            sender,
            from_chain_id,
            mint_key,
            data_account_key,
            source_account_key,
            dest_account_key,
            program_id,
        ) == Err::<DownstreamAction, MessengerError>(MessengerError::ReceiverDerivedKeyMismatch),
{
}

/// Authorization is independent of payload correctness for stream updates.
pub proof fn lemma_update_requires_authority(
    v: SpecMessageData,
    vaa_key: Seq<u8>,
    reg: SpecEmitterRegistration,
    core_bridge_id: Seq<u8>,
    stored_count: u8,
    current_count: u8,
    sender: Seq<u8>,
    from_chain_id: u16,
    mint_key: Seq<u8>,
    data_account_key: Seq<u8>,
    source_account_key: Seq<u8>,
    dest_account_key: Seq<u8>,
    program_id: Seq<u8>,
    p: crate::codec::SpecXstreamUpdatePayload,
)
    requires
        spec_gate(v, vaa_key, reg, core_bridge_id, stored_count, current_count) == Ok::<
            SpecOperation,
            MessengerError,
        >(SpecOperation::UpdateStream(p)),
        mint_key == p.token_mint,
        data_account_key == p.data_account,
        sender == p.sender,
        !spec_authority_ok(p.sender, from_chain_id, program_id, source_account_key),
    ensures
        spec_xstream_update(
            v,
            vaa_key,
            reg,
            core_bridge_id,
            stored_count,
            current_count,
            sender,
            from_chain_id,
            mint_key,
            data_account_key,
            source_account_key,
            dest_account_key,
            program_id,
        ) == Err::<DownstreamAction, MessengerError>(MessengerError::SenderDerivedKeyMismatch),
{
}

/// Authorization is independent of payload correctness for sender
/// withdrawals.
pub proof fn lemma_sender_withdraw_requires_authority(
    v: SpecMessageData,
    vaa_key: Seq<u8>,
    reg: SpecEmitterRegistration,
    core_bridge_id: Seq<u8>,
    stored_count: u8,
    current_count: u8,
    sender: Seq<u8>,
    from_chain_id: u16,
    mint_key: Seq<u8>,
    source_account_key: Seq<u8>,
    program_id: Seq<u8>,
    p: crate::codec::SpecXstreamWithdrawDepositPayload,
)
    requires
        spec_gate(v, vaa_key, reg, core_bridge_id, stored_count, current_count) == Ok::<
            SpecOperation,
            MessengerError,
        >(SpecOperation::SenderWithdraw(p)),
        mint_key == p.token_mint,
        sender == p.withdrawer,
        !spec_authority_ok(sender, from_chain_id, program_id, source_account_key),
    ensures
        spec_xstream_sender_withdraw(
            v,
            vaa_key,
            reg,
            core_bridge_id,
            stored_count,
            current_count,
            sender,
            from_chain_id,
            mint_key,
            source_account_key,
            program_id,
        ) == Err::<DownstreamAction, MessengerError>(MessengerError::SenderDerivedKeyMismatch),
{
}

/// Authorization is independent of payload correctness for pause/resume.
pub proof fn lemma_pause_requires_authority(
    v: SpecMessageData,
    vaa_key: Seq<u8>,
    reg: SpecEmitterRegistration,
    core_bridge_id: Seq<u8>,
    stored_count: u8,
    current_count: u8,
    sender: Seq<u8>,
    from_chain_id: u16,
    data_account_key: Seq<u8>,
    source_account_key: Seq<u8>,
    dest_account_key: Seq<u8>,
    program_id: Seq<u8>,
    p: crate::codec::SpecXstreamPausePayload,
)
    requires
        spec_gate(v, vaa_key, reg, core_bridge_id, stored_count, current_count) == Ok::<
            SpecOperation,
            MessengerError,
        >(SpecOperation::PauseResume(p)),
        data_account_key == p.data_account,
        sender == p.depositor,
        !spec_authority_ok(sender, from_chain_id, program_id, source_account_key),
    ensures
        spec_xstream_pause(
            v,
            vaa_key,
            reg,
            core_bridge_id,
            stored_count,
            current_count,
            sender,
            from_chain_id,
            data_account_key,
            source_account_key,
            dest_account_key,
            program_id,
        ) == Err::<DownstreamAction, MessengerError>(MessengerError::SenderDerivedKeyMismatch),
{
}

/// Authorization is independent of payload correctness for cancellation.
pub proof fn lemma_cancel_requires_authority(
    v: SpecMessageData,
    vaa_key: Seq<u8>,
    reg: SpecEmitterRegistration,
    core_bridge_id: Seq<u8>,
    stored_count: u8,
    current_count: u8,
    sender: Seq<u8>,
    from_chain_id: u16,
    mint_key: Seq<u8>,
    data_account_key: Seq<u8>,
    source_account_key: Seq<u8>,
    dest_account_key: Seq<u8>,
    program_id: Seq<u8>,
    p: crate::codec::SpecXstreamPausePayload,
)
    requires
        spec_gate(v, vaa_key, reg, core_bridge_id, stored_count, current_count) == Ok::<
            SpecOperation,
            MessengerError,
        >(SpecOperation::CancelStream(p)),
        mint_key == p.token_mint,
        data_account_key == p.data_account,
        sender == p.depositor,
        !spec_authority_ok(sender, from_chain_id, program_id, source_account_key),
    ensures
        spec_xstream_cancel(
            v,
            vaa_key,
            reg,
            core_bridge_id,
            stored_count,
            current_count,
            sender,
            from_chain_id,
            mint_key,
            data_account_key,
            source_account_key,
            dest_account_key,
            program_id,
        ) == Err::<DownstreamAction, MessengerError>(MessengerError::SenderDerivedKeyMismatch),
{
}

/// Authorization is independent of payload correctness for instant
/// transfers.
pub proof fn lemma_instant_transfer_requires_authority(
    v: SpecMessageData,
    vaa_key: Seq<u8>,
    reg: SpecEmitterRegistration,
    core_bridge_id: Seq<u8>,
    stored_count: u8,
    current_count: u8,
    sender: Seq<u8>,
    from_chain_id: u16,
    mint_key: Seq<u8>,
    source_account_key: Seq<u8>,
    dest_account_key: Seq<u8>,
    program_id: Seq<u8>,
    p: crate::codec::SpecXstreamTransferPayload,
)
    requires
        spec_gate(v, vaa_key, reg, core_bridge_id, stored_count, current_count) == Ok::<
            SpecOperation,
            MessengerError,
        >(SpecOperation::InstantTransfer(p)),
        mint_key == p.token_mint,
        sender == p.sender,
        !spec_authority_ok(sender, from_chain_id, program_id, source_account_key),
    ensures
        spec_instant_transfer(
            v,
            vaa_key,
            reg,
            core_bridge_id,
            stored_count,
            current_count,
            sender,
            from_chain_id,
            mint_key,
            source_account_key,
            dest_account_key,
            program_id,
        ) == Err::<DownstreamAction, MessengerError>(MessengerError::SenderDerivedKeyMismatch),
{
}

} // verus!
