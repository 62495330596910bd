//! The bridge configuration and the operation-sequence counter.
//!
//! The counter imposes a strict total order over accepted operations: each
//! submission claims the position it believes it holds, and is accepted
//! only when that claim equals the stored count plus one.  A rejected claim
//! leaves the stored count untouched, and the count never wraps: at its
//! maximum every further claim fails with `Overflow`.

use vstd::prelude::*;

use crate::errors::MessengerError;

verus! {

/// The bridge configuration: the owner's account address and the nonce
/// carried by outbound bridge transfers.
#[derive(Clone, Debug, PartialEq, Eq)]
pub struct Config {
    pub owner: Vec<u8>,
    pub nonce: u32,
}

/// The mathematical value of the configuration.
#[verifier::ext_equal]
pub struct SpecConfig {
    pub owner: Seq<u8>,
    pub nonce: u32,
}

impl View for Config {
    type V = SpecConfig;

    open spec fn view(&self) -> SpecConfig {
        SpecConfig { owner: self.owner@, nonce: self.nonce }
    }
}

/// Creates the configuration for a bridge owner; the outbound nonce starts
/// at one.
pub fn initialize(owner: Vec<u8>) -> (r: Config)
    ensures
        r@.owner == owner@,
        r@.nonce == 1,
{
    Config { owner, nonce: 1 }
}

/// The monotonically increasing count of accepted operations.
#[derive(Clone, Copy, Debug, PartialEq, Eq, Structural)]
pub struct ProcessCount {
    pub count: u8,
}

impl ProcessCount {
    /// A fresh counter, before any operation was accepted.
    pub fn new() -> (r: ProcessCount)
        ensures
            r.count == 0,
    {
        ProcessCount { count: 0 }
    }

    /// The outcome a claim will meet against a stored count: accepted
    /// exactly when the count is below its maximum and the claim is the
    /// count plus one; a counter at its maximum fails with `Overflow`, any
    /// other wrong claim with `InvalidDataProvided`.
    pub open spec fn spec_check(stored: u8, current_count: u8) -> Result<(), MessengerError> {
        if stored == 255 {
            Err(MessengerError::Overflow)
        } else if current_count == stored + 1 {
            Ok(())
        } else {
            Err(MessengerError::InvalidDataProvided)
        }
    }

    /// Tests a claimed position without moving the counter.
    pub fn check(&self, current_count: u8) -> (r: Result<(), MessengerError>)
        ensures
            r == ProcessCount::spec_check(self.count, current_count),
    {
        match self.count.checked_add(1) {
            None => Err(MessengerError::Overflow),
            Some(next) => if current_count == next {
                Ok(())
            } else {
                Err(MessengerError::InvalidDataProvided)
            },
        }
    }

    /// Accepts a claimed position: the stored count becomes the claim
    /// exactly when the claim is the stored count plus one; on any failure
    /// the stored count is left as it was.
    pub fn advance(&mut self, current_count: u8) -> (r: Result<u8, MessengerError>)
        ensures
            match r {
                Ok(c) => {
                    &&& ProcessCount::spec_check(old(self).count, current_count) is Ok
                    &&& c == current_count
                    &&& final(self).count == current_count
                    &&& current_count == old(self).count + 1
                },
                Err(e) => {
                    &&& ProcessCount::spec_check(old(self).count, current_count) == Err::<
                        (),
                        MessengerError,
                    >(e)
                    &&& *final(self) == *old(self)
                },
            },
    {
        match self.count.checked_add(1) {
            None => Err(MessengerError::Overflow),
            Some(next) => if current_count == next {
                self.count = next;
                Ok(next)
            } else {
                Err(MessengerError::InvalidDataProvided)
            },
        }
    }
}

/// The counter accepts a claim exactly when it names the next position:
/// `advance` succeeds if and only if the claim equals the stored count plus
/// one, the stored count then becomes the claim, and a failed claim leaves
/// the stored count exactly as it was.
pub proof fn lemma_advance_exact(stored: u8, current_count: u8)
    ensures
        ProcessCount::spec_check(stored, current_count) is Ok <==> current_count == stored + 1,
{
}

} // verus!
