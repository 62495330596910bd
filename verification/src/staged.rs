//! The two-phase execution guard.
//!
//! A two-phase operation first stages a transaction record and later
//! consumes it exactly once.  Execution flips the record's `did_execute`
//! flag from false to true, never back, and every further attempt fails
//! with `AlreadyExecuted` whatever else is supplied.  Authority is attached
//! by building a fresh call descriptor in which exactly the accounts whose
//! address equals the derived signing identity are marked as signers; the
//! staged record itself is never rewritten.

use vstd::prelude::*;

use crate::bytes::{bytes_eq, clone_bytes};
use crate::errors::MessengerError;

verus! {

/// One account of a staged call: its address and its access flags.
#[derive(Clone, Debug, PartialEq, Eq)]
pub struct TransactionAccount {
    pub pubkey: Vec<u8>,
    pub is_signer: bool,
    pub is_writable: bool,
}

/// The mathematical value of a staged call account.
#[verifier::ext_equal]
pub struct SpecTransactionAccount {
    pub pubkey: Seq<u8>,
    pub is_signer: bool,
    pub is_writable: bool,
}

impl View for TransactionAccount {
    type V = SpecTransactionAccount;

    open spec fn view(&self) -> SpecTransactionAccount {
        SpecTransactionAccount {
            pubkey: self.pubkey@,
            is_signer: self.is_signer,
            is_writable: self.is_writable,
        }
    }
}

/// A staged transaction: the downstream program to call, the accounts and
/// data of the call, and whether it has already been consumed.
#[derive(Clone, Debug, PartialEq, Eq)]
pub struct StagedTransaction {
    pub program_id: Vec<u8>,
    pub accounts: Vec<TransactionAccount>,
    pub data: Vec<u8>,
    pub did_execute: bool,
}

/// The mathematical value of a staged transaction.
#[verifier::ext_equal]
pub struct SpecStagedTransaction {
    pub program_id: Seq<u8>,
    pub accounts: Seq<SpecTransactionAccount>,
    pub data: Seq<u8>,
    pub did_execute: bool,
}

impl View for StagedTransaction {
    type V = SpecStagedTransaction;

    open spec fn view(&self) -> SpecStagedTransaction {
        SpecStagedTransaction {
            program_id: self.program_id@,
            accounts: Seq::new(self.accounts@.len(), |i: int| self.accounts@[i]@),
            data: self.data@,
            did_execute: self.did_execute,
        }
    }
}

/// Whether some account of the list has the given address.
pub open spec fn spec_has_account(accounts: Seq<SpecTransactionAccount>, identity: Seq<u8>) -> bool {
    exists|i: int| 0 <= i < accounts.len() && accounts[i].pubkey == identity
}

/// The call descriptor with the signing capability attached: every account
/// whose address is the derived identity is marked as a signer, and no
/// other account changes.
pub open spec fn spec_attach_capability(
    accounts: Seq<SpecTransactionAccount>,
    identity: Seq<u8>,
) -> Seq<SpecTransactionAccount> {
    Seq::new(
        accounts.len(),
        |i: int| SpecTransactionAccount {
            pubkey: accounts[i].pubkey,
            is_signer: accounts[i].is_signer || accounts[i].pubkey == identity,
            is_writable: accounts[i].is_writable,
        },
    )
}

/// What executing a staged transaction yields and what it leaves behind:
/// a consumed record rejects with `AlreadyExecuted` and stays as it is; a
/// record whose accounts nowhere name the identity rejects with
/// `InvalidPDASigner` and stays as it is; otherwise the record is consumed
/// and the call descriptor with the capability attached comes back.
pub open spec fn spec_execute(tx: SpecStagedTransaction, identity: Seq<u8>) -> (Result<
    Seq<SpecTransactionAccount>,
    MessengerError,
>, SpecStagedTransaction) {
    if tx.did_execute {
        (Err(MessengerError::AlreadyExecuted), tx)
    } else if !spec_has_account(tx.accounts, identity) {
        (Err(MessengerError::InvalidPDASigner), tx)
    } else {
        (
            Ok(spec_attach_capability(tx.accounts, identity)),
            SpecStagedTransaction { did_execute: true, ..tx },
        )
    }
}

impl StagedTransaction {
    /// Stages a transaction for later execution; the record starts
    /// unconsumed.
    pub fn stage(program_id: Vec<u8>, accounts: Vec<TransactionAccount>, data: Vec<u8>) -> (r:
        StagedTransaction)
        ensures
            r@.program_id == program_id@,
            r@.accounts == Seq::new(accounts@.len(), |i: int| accounts@[i]@),
            r@.data == data@,
            !r@.did_execute,
    {
        StagedTransaction { program_id, accounts, data, did_execute: false }
    }

    /// Consumes the staged record exactly once.
    ///
    /// The result and the record afterwards are exactly `spec_execute` of
    /// the record before and the supplied identity: a consumed record
    /// always fails with `AlreadyExecuted`, whatever identity is supplied.
    pub fn execute(&mut self, derived_identity: &Vec<u8>) -> (r: Result<
        Vec<TransactionAccount>,
        MessengerError,
    >)
        ensures
            match r {
                Ok(accs) => {
                    &&& spec_execute(old(self)@, derived_identity@).0 == Ok::<
                        Seq<SpecTransactionAccount>,
                        MessengerError,
                    >(Seq::new(accs@.len(), |i: int| accs@[i]@))
                    &&& final(self)@ == spec_execute(old(self)@, derived_identity@).1
                },
                Err(e) => {
                    &&& spec_execute(old(self)@, derived_identity@).0 == Err::<
                        Seq<SpecTransactionAccount>,
                        MessengerError,
                    >(e)
                    &&& *final(self) == *old(self)
                },
            },
    {
        if self.did_execute {
            return Err(MessengerError::AlreadyExecuted);
        }
        let n = self.accounts.len();
        let mut out: Vec<TransactionAccount> = Vec::new();
        let mut found = false;
        let mut i: usize = 0;
        while i < n
            invariant
                n == self.accounts@.len(),
                i <= n,
                out@.len() == i,
                forall|j: int| 0 <= j < i ==> out@[j]@ == spec_attach_capability(
                    self@.accounts,
                    derived_identity@,
                )[j],
                found == spec_has_account(self@.accounts.take(i as int), derived_identity@),
            decreases n - i,
        {
            let acc = &self.accounts[i];
            let matched = bytes_eq(&acc.pubkey, derived_identity);
            if matched {
                found = true;
            }
            out.push(
                TransactionAccount {
                    pubkey: clone_bytes(&acc.pubkey),
                    is_signer: acc.is_signer || matched,
                    is_writable: acc.is_writable,
                },
            );
            proof {
                assert(self@.accounts.take(i + 1).drop_last() =~= self@.accounts.take(i as int));
                assert(self@.accounts.take(i + 1).last() == self@.accounts[i as int]);
            }
            i = i + 1;
        }
        proof {
            assert(self@.accounts.take(n as int) =~= self@.accounts);
        }
        if !found {
            return Err(MessengerError::InvalidPDASigner);
        }
        self.did_execute = true;
        proof {
            assert(Seq::new(out@.len(), |i: int| out@[i]@) =~= spec_attach_capability(
                old(self)@.accounts,
                derived_identity@,
            ));
            assert(self@ =~= SpecStagedTransaction { did_execute: true, ..old(self)@ });
        }
        Ok(out)
    }
}

/// Replay protection: a staged transaction that was already consumed
/// rejects every further execution with `AlreadyExecuted` and is left
/// exactly as it was, whatever accounts or identity are supplied.
pub proof fn lemma_replay_rejected(tx: SpecStagedTransaction, identity: Seq<u8>)
    requires
        tx.did_execute,
    ensures
        spec_execute(tx, identity).0 == Err::<Seq<SpecTransactionAccount>, MessengerError>(
            MessengerError::AlreadyExecuted,
        ),
        spec_execute(tx, identity).1 == tx,
{
}

} // verus!
