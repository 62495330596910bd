//! The staged operation intent.
//!
//! A build-phase submission decodes its payload into this single-slot
//! scratch record; the execute phase re-derives the same fields from the
//! attestation and demands byte-for-byte equality with what was staged.
//! Fields an operation does not carry are left empty or zero; each store
//! overwrites the whole slot.

use vstd::prelude::*;

use crate::bytes::{bytes_eq, clone_bytes};
use crate::codec::{Operation, SpecOperation};
use crate::errors::MessengerError;

verus! {

/// The decoded fields of the currently staged operation.
#[derive(Clone, Debug, PartialEq, Eq)]
pub struct OperationIntent {
    pub amount: u64,
    pub sender: Vec<u8>,
    pub receiver: Vec<u8>,
    pub from_chain_id: u16,
    pub token_mint: Vec<u8>,
    pub start_time: u64,
    pub end_time: u64,
    pub can_cancel: bool,
    pub can_update: bool,
    pub data_account: Vec<u8>,
}

/// The mathematical value of a staged intent.
#[verifier::ext_equal]
pub struct SpecOperationIntent {
    pub amount: u64,
    pub sender: Seq<u8>,
    pub receiver: Seq<u8>,
    pub from_chain_id: u16,
    pub token_mint: Seq<u8>,
    pub start_time: u64,
    pub end_time: u64,
    pub can_cancel: bool,
    pub can_update: bool,
    pub data_account: Seq<u8>,
}

impl View for OperationIntent {
    type V = SpecOperationIntent;

    open spec fn view(&self) -> SpecOperationIntent {
        SpecOperationIntent {
            amount: self.amount,
            sender: self.sender@,
            receiver: self.receiver@,
            from_chain_id: self.from_chain_id,
            token_mint: self.token_mint@,
            start_time: self.start_time,
            end_time: self.end_time,
            can_cancel: self.can_cancel,
            can_update: self.can_update,
            data_account: self.data_account@,
        }
    }
}

/// The empty intent slot.
pub open spec fn spec_empty_intent() -> SpecOperationIntent {
    SpecOperationIntent {
        amount: 0,
        sender: seq![],
        receiver: seq![],
        from_chain_id: 0,
        token_mint: seq![],
        start_time: 0,
        end_time: 0,
        can_cancel: false,
        can_update: false,
        data_account: seq![],
    }
}

/// The intent slot an operation stores: its decoded fields in the named
/// positions, everything it does not carry left at the empty value.  The
/// wire's depositor and withdrawer travel in the sender and receiver slots;
/// the eight-byte wire flags count as set exactly when they hold one.
pub open spec fn spec_intent_of(op: SpecOperation) -> SpecOperationIntent {
    match op {
        SpecOperation::OpenStream(p) => SpecOperationIntent {
            amount: p.amount,
            sender: p.sender,
            receiver: p.receiver,
            from_chain_id: p.to_chain_id,
            token_mint: p.token_mint,
            start_time: p.start_time,
            end_time: p.end_time,
            can_cancel: p.can_cancel == 1,
            can_update: p.can_update == 1,
            ..spec_empty_intent()
        },
        SpecOperation::ReceiverWithdraw(p) => SpecOperationIntent {
            sender: p.depositor,
            receiver: p.withdrawer,
            from_chain_id: p.to_chain_id,
            token_mint: p.token_mint,
            data_account: p.data_account,
            ..spec_empty_intent()
        },
        SpecOperation::Deposit(p) => SpecOperationIntent {
            amount: p.amount,
            sender: p.sender,
            from_chain_id: p.to_chain_id,
            token_mint: p.token_mint,
            ..spec_empty_intent()
        },
        SpecOperation::PauseResume(p) => SpecOperationIntent {
            sender: p.depositor,
            receiver: p.receiver,
            from_chain_id: p.to_chain_id,
            token_mint: p.token_mint,
            data_account: p.data_account,
            ..spec_empty_intent()
        },
        SpecOperation::SenderWithdraw(p) => SpecOperationIntent {
            amount: p.amount,
            sender: p.withdrawer,
            from_chain_id: p.to_chain_id,
            token_mint: p.token_mint,
            ..spec_empty_intent()
        },
        SpecOperation::InstantTransfer(p) => SpecOperationIntent {
            amount: p.amount,
            sender: p.sender,
            receiver: p.receiver,
            from_chain_id: p.to_chain_id,
            token_mint: p.token_mint,
            ..spec_empty_intent()
        },
        SpecOperation::UpdateStream(p) => SpecOperationIntent {
            amount: p.amount,
            sender: p.sender,
            receiver: p.receiver,
            from_chain_id: p.to_chain_id,
            token_mint: p.token_mint,
            start_time: p.start_time,
            end_time: p.end_time,
            data_account: p.data_account,
            ..spec_empty_intent()
        },
        SpecOperation::CancelStream(p) => SpecOperationIntent {
            sender: p.depositor,
            receiver: p.receiver,
            from_chain_id: p.to_chain_id,
            token_mint: p.token_mint,
            data_account: p.data_account,
            ..spec_empty_intent()
        },
        SpecOperation::DirectTransfer(p) => SpecOperationIntent {
            amount: p.amount,
            sender: p.sender,
            receiver: p.receiver,
            from_chain_id: p.to_chain_id,
            token_mint: p.token_mint,
            ..spec_empty_intent()
        },
        SpecOperation::InitAccount(p) => SpecOperationIntent {
            sender: p.pda_seed,
            ..spec_empty_intent()
        },
        SpecOperation::InitTokenAccount(p) => SpecOperationIntent {
            sender: p.pda_seed,
            token_mint: p.token_mint,
            ..spec_empty_intent()
        },
    }
}

impl OperationIntent {
    /// Stores a decoded operation into a fresh intent slot.
    pub fn from_operation(op: &Operation) -> (r: OperationIntent)
        ensures
            r@ == spec_intent_of(op@),
    {
        let mut intent = OperationIntent {
            amount: 0,
            sender: Vec::new(),
            receiver: Vec::new(),
            from_chain_id: 0,
            token_mint: Vec::new(),
            start_time: 0,
            end_time: 0,
            can_cancel: false,
            can_update: false,
            data_account: Vec::new(),
        };
        match op {
            Operation::OpenStream(p) => {
                intent.amount = p.amount;
                intent.sender = clone_bytes(&p.sender);
                intent.receiver = clone_bytes(&p.receiver);
                intent.from_chain_id = p.to_chain_id;
                intent.token_mint = clone_bytes(&p.token_mint);
                intent.start_time = p.start_time;
                intent.end_time = p.end_time;
                intent.can_cancel = p.can_cancel == 1;
                intent.can_update = p.can_update == 1;
            }
            Operation::ReceiverWithdraw(p) => {
                intent.sender = clone_bytes(&p.depositor);
                intent.receiver = clone_bytes(&p.withdrawer);
                intent.from_chain_id = p.to_chain_id;
                intent.token_mint = clone_bytes(&p.token_mint);
                intent.data_account = clone_bytes(&p.data_account);
            }
            Operation::Deposit(p) => {
                intent.amount = p.amount;
                intent.sender = clone_bytes(&p.sender);
                intent.from_chain_id = p.to_chain_id;
                intent.token_mint = clone_bytes(&p.token_mint);
            }
            Operation::PauseResume(p) => {
                intent.sender = clone_bytes(&p.depositor);
                intent.receiver = clone_bytes(&p.receiver);
                intent.from_chain_id = p.to_chain_id;
                intent.token_mint = clone_bytes(&p.token_mint);
                intent.data_account = clone_bytes(&p.data_account);
            }
            Operation::SenderWithdraw(p) => {
                intent.amount = p.amount;
                intent.sender = clone_bytes(&p.withdrawer);
                intent.from_chain_id = p.to_chain_id;
                intent.token_mint = clone_bytes(&p.token_mint);
            }
            Operation::InstantTransfer(p) => {
                intent.amount = p.amount;
                intent.sender = clone_bytes(&p.sender);
                intent.receiver = clone_bytes(&p.receiver);
                intent.from_chain_id = p.to_chain_id;
                intent.token_mint = clone_bytes(&p.token_mint);
            }
            Operation::UpdateStream(p) => {
                intent.amount = p.amount;
                intent.sender = clone_bytes(&p.sender);
                intent.receiver = clone_bytes(&p.receiver);
                intent.from_chain_id = p.to_chain_id;
                intent.token_mint = clone_bytes(&p.token_mint);
                intent.start_time = p.start_time;
                intent.end_time = p.end_time;
                intent.data_account = clone_bytes(&p.data_account);
            }
            Operation::CancelStream(p) => {
                intent.sender = clone_bytes(&p.depositor);
                intent.receiver = clone_bytes(&p.receiver);
                intent.from_chain_id = p.to_chain_id;
                intent.token_mint = clone_bytes(&p.token_mint);
                intent.data_account = clone_bytes(&p.data_account);
            }
            Operation::DirectTransfer(p) => {
                intent.amount = p.amount;
                intent.sender = clone_bytes(&p.sender);
                intent.receiver = clone_bytes(&p.receiver);
                intent.from_chain_id = p.to_chain_id;
                intent.token_mint = clone_bytes(&p.token_mint);
            }
            Operation::InitAccount(p) => {
                intent.sender = clone_bytes(&p.pda_seed);
            }
            Operation::InitTokenAccount(p) => {
                intent.sender = clone_bytes(&p.pda_seed);
                intent.token_mint = clone_bytes(&p.token_mint);
            }
        }
        proof {
            assert(intent@ =~= spec_intent_of(op@));
        }
        intent
    }

    /// Compares a staged intent with a freshly derived one; any field
    /// difference is `InvalidDataProvided`.
    pub fn matches(&self, other: &OperationIntent) -> (r: Result<(), MessengerError>)
        ensures
            match r {
                Ok(()) => self@ == other@,
                Err(e) => e == MessengerError::InvalidDataProvided && self@ != other@,
            },
    {
        let fields_equal = self.amount == other.amount && bytes_eq(&self.sender, &other.sender)
            && bytes_eq(&self.receiver, &other.receiver)
            && self.from_chain_id == other.from_chain_id
            && bytes_eq(&self.token_mint, &other.token_mint)
            && self.start_time == other.start_time && self.end_time == other.end_time
            && self.can_cancel == other.can_cancel && self.can_update == other.can_update
            && bytes_eq(&self.data_account, &other.data_account);
        if fields_equal {
            proof {
                assert(self@ =~= other@);
            }
            Ok(())
        } else {
            Err(MessengerError::InvalidDataProvided)
        }
    }
}

} // verus!
