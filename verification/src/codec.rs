//! The wire payload codec.
//!
//! Every attestation carries a payload whose first byte is an operation tag
//! and whose remaining bytes are fields at fixed offsets.  All multi-byte
//! integers are big-endian; identity, mint and account fields are 32 bytes.
//! One total decoder turns a byte buffer into a closed sum of operation
//! records; a payload too short for its tag is `MalformedPayload`, and an
//! unknown tag is rejected as `InvalidPayload` rather than ignored.

use vstd::prelude::*;

use crate::bytes::{
    be_u16_of, be_u64_of, push_bytes, push_u16_be, push_u64_be, read_bytes, read_u16_be,
    read_u64_be, u16_be_bytes, u64_be_bytes,
};
use crate::errors::MessengerError;

verus! {

/// Tag of a stream-opening payload.
pub const TAG_OPEN_STREAM: u8 = 2;

/// Tag of a receiver withdrawal from a stream.
pub const TAG_RECEIVER_WITHDRAW: u8 = 4;

/// Tag of a vault deposit.
pub const TAG_DEPOSIT: u8 = 6;

/// Tag of a stream pause or resume.
pub const TAG_PAUSE_RESUME: u8 = 8;

/// Tag of a sender withdrawal from the vault.
pub const TAG_SENDER_WITHDRAW: u8 = 10;

/// Tag of an instant transfer out of the vault.
pub const TAG_INSTANT_TRANSFER: u8 = 12;

/// Tag of a stream update.
pub const TAG_UPDATE_STREAM: u8 = 14;

/// Tag of a stream cancellation.
pub const TAG_CANCEL_STREAM: u8 = 16;

/// Tag of a direct transfer back across the bridge.
pub const TAG_DIRECT_TRANSFER: u8 = 17;

/// Tag of a derived-account initialization.
pub const TAG_INIT_ACCOUNT: u8 = 18;

/// Tag of a derived token-account initialization.
pub const TAG_INIT_TOKEN_ACCOUNT: u8 = 19;

/// Fields of a stream-opening payload (tag 2).
///
/// Wire layout after the tag: start_time(8) end_time(8) amount(8)
/// to_chain_id(2) sender(32) receiver(32) can_update(8) can_cancel(8)
/// token_mint(32); 139 bytes in all.
#[derive(Clone, Debug, PartialEq, Eq)]
pub struct XstreamStartPayload {
    pub start_time: u64,
    pub end_time: u64,
    pub amount: u64,
    pub to_chain_id: u16,
    pub sender: Vec<u8>,
    pub receiver: Vec<u8>,
    pub can_update: u64,
    pub can_cancel: u64,
    pub token_mint: Vec<u8>,
}

/// The mathematical value of a stream-opening payload.
#[verifier::ext_equal]
pub struct SpecXstreamStartPayload {
    pub start_time: u64,
    pub end_time: u64,
    pub amount: u64,
    pub to_chain_id: u16,
    pub sender: Seq<u8>,
    pub receiver: Seq<u8>,
    pub can_update: u64,
    pub can_cancel: u64,
    pub token_mint: Seq<u8>,
}

impl View for XstreamStartPayload {
    type V = SpecXstreamStartPayload;

    open spec fn view(&self) -> SpecXstreamStartPayload {
        SpecXstreamStartPayload {
            start_time: self.start_time,
            end_time: self.end_time,
            amount: self.amount,
            to_chain_id: self.to_chain_id,
            sender: self.sender@,
            receiver: self.receiver@,
            can_update: self.can_update,
            can_cancel: self.can_cancel,
            token_mint: self.token_mint@,
        }
    }
}

impl SpecXstreamStartPayload {
    /// All identity fields have their fixed width.
    pub open spec fn wf(self) -> bool {
        self.sender.len() == 32 && self.receiver.len() == 32 && self.token_mint.len() == 32
    }
}

/// Fields of a receiver-withdrawal payload (tag 4).
///
/// Wire layout after the tag: to_chain_id(2) withdrawer(32) token_mint(32)
/// depositor(32) data_account(32); 131 bytes in all.
#[derive(Clone, Debug, PartialEq, Eq)]
pub struct XstreamWithdrawPayload {
    pub to_chain_id: u16,
    pub withdrawer: Vec<u8>,
    pub token_mint: Vec<u8>,
    pub depositor: Vec<u8>,
    pub data_account: Vec<u8>,
}

/// The mathematical value of a receiver-withdrawal payload.
#[verifier::ext_equal]
pub struct SpecXstreamWithdrawPayload {
    pub to_chain_id: u16,
    pub withdrawer: Seq<u8>,
    pub token_mint: Seq<u8>,
    pub depositor: Seq<u8>,
    pub data_account: Seq<u8>,
}

impl View for XstreamWithdrawPayload {
    type V = SpecXstreamWithdrawPayload;

    open spec fn view(&self) -> SpecXstreamWithdrawPayload {
        SpecXstreamWithdrawPayload {
            to_chain_id: self.to_chain_id,
            withdrawer: self.withdrawer@,
            token_mint: self.token_mint@,
            depositor: self.depositor@,
            data_account: self.data_account@,
        }
    }
}

impl SpecXstreamWithdrawPayload {
    /// All identity fields have their fixed width.
    pub open spec fn wf(self) -> bool {
        self.withdrawer.len() == 32 && self.token_mint.len() == 32 && self.depositor.len() == 32
            && self.data_account.len() == 32
    }
}

/// Fields of a deposit payload (tag 6).
///
/// Wire layout after the tag: amount(8) to_chain_id(2) sender(32)
/// token_mint(32); 75 bytes in all.
#[derive(Clone, Debug, PartialEq, Eq)]
pub struct XstreamDepositPayload {
    pub amount: u64,
    pub to_chain_id: u16,
    pub sender: Vec<u8>,
    pub token_mint: Vec<u8>,
}

/// The mathematical value of a deposit payload.
#[verifier::ext_equal]
pub struct SpecXstreamDepositPayload {
    pub amount: u64,
    pub to_chain_id: u16,
    pub sender: Seq<u8>,
    pub token_mint: Seq<u8>,
}

impl View for XstreamDepositPayload {
    type V = SpecXstreamDepositPayload;

    open spec fn view(&self) -> SpecXstreamDepositPayload {
        SpecXstreamDepositPayload {
            amount: self.amount,
            to_chain_id: self.to_chain_id,
            sender: self.sender@,
            token_mint: self.token_mint@,
        }
    }
}

impl SpecXstreamDepositPayload {
    /// All identity fields have their fixed width.
    pub open spec fn wf(self) -> bool {
        self.sender.len() == 32 && self.token_mint.len() == 32
    }
}

/// Fields of a pause/resume payload (tag 8).
///
/// Wire layout after the tag: to_chain_id(2) depositor(32) token_mint(32)
/// receiver(32) data_account(32); 131 bytes in all.
#[derive(Clone, Debug, PartialEq, Eq)]
pub struct XstreamPausePayload {
    pub to_chain_id: u16,
    pub depositor: Vec<u8>,
    pub token_mint: Vec<u8>,
    pub receiver: Vec<u8>,
    pub data_account: Vec<u8>,
}

/// The mathematical value of a pause/resume payload.
#[verifier::ext_equal]
pub struct SpecXstreamPausePayload {
    pub to_chain_id: u16,
    pub depositor: Seq<u8>,
    pub token_mint: Seq<u8>,
    pub receiver: Seq<u8>,
    pub data_account: Seq<u8>,
}

impl View for XstreamPausePayload {
    type V = SpecXstreamPausePayload;

    open spec fn view(&self) -> SpecXstreamPausePayload {
        SpecXstreamPausePayload {
            to_chain_id: self.to_chain_id,
            depositor: self.depositor@,
            token_mint: self.token_mint@,
            receiver: self.receiver@,
            data_account: self.data_account@,
        }
    }
}

impl SpecXstreamPausePayload {
    /// All identity fields have their fixed width.
    pub open spec fn wf(self) -> bool {
        self.depositor.len() == 32 && self.token_mint.len() == 32 && self.receiver.len() == 32
            && self.data_account.len() == 32
    }
}

/// Fields of a sender-withdrawal payload (tag 10).
///
/// Wire layout after the tag: amount(8) to_chain_id(2) withdrawer(32)
/// token_mint(32); 75 bytes in all.
#[derive(Clone, Debug, PartialEq, Eq)]
pub struct XstreamWithdrawDepositPayload {
    pub amount: u64,
    pub to_chain_id: u16,
    pub withdrawer: Vec<u8>,
    pub token_mint: Vec<u8>,
}

/// The mathematical value of a sender-withdrawal payload.
#[verifier::ext_equal]
pub struct SpecXstreamWithdrawDepositPayload {
    pub amount: u64,
    pub to_chain_id: u16,
    pub withdrawer: Seq<u8>,
    pub token_mint: Seq<u8>,
}

impl View for XstreamWithdrawDepositPayload {
    type V = SpecXstreamWithdrawDepositPayload;

    open spec fn view(&self) -> SpecXstreamWithdrawDepositPayload {
        SpecXstreamWithdrawDepositPayload {
            amount: self.amount,
            to_chain_id: self.to_chain_id,
            withdrawer: self.withdrawer@,
            token_mint: self.token_mint@,
        }
    }
}

impl SpecXstreamWithdrawDepositPayload {
    /// All identity fields have their fixed width.
    pub open spec fn wf(self) -> bool {
        self.withdrawer.len() == 32 && self.token_mint.len() == 32
    }
}

/// Fields of an instant-transfer or direct-transfer payload (tags 12 and 17).
///
/// Wire layout after the tag: amount(8) to_chain_id(2) sender(32)
/// token_mint(32) receiver(32); 107 bytes in all.
#[derive(Clone, Debug, PartialEq, Eq)]
pub struct XstreamTransferPayload {
    pub amount: u64,
    pub to_chain_id: u16,
    pub sender: Vec<u8>,
    pub token_mint: Vec<u8>,
    pub receiver: Vec<u8>,
}

/// The mathematical value of an instant- or direct-transfer payload.
#[verifier::ext_equal]
pub struct SpecXstreamTransferPayload {
    pub amount: u64,
    pub to_chain_id: u16,
    pub sender: Seq<u8>,
    pub token_mint: Seq<u8>,
    pub receiver: Seq<u8>,
}

impl View for XstreamTransferPayload {
    type V = SpecXstreamTransferPayload;

    open spec fn view(&self) -> SpecXstreamTransferPayload {
        SpecXstreamTransferPayload {
            amount: self.amount,
            to_chain_id: self.to_chain_id,
            sender: self.sender@,
            token_mint: self.token_mint@,
            receiver: self.receiver@,
        }
    }
}

impl SpecXstreamTransferPayload {
    /// All identity fields have their fixed width.
    pub open spec fn wf(self) -> bool {
        self.sender.len() == 32 && self.token_mint.len() == 32 && self.receiver.len() == 32
    }
}

/// Fields of a stream-update payload (tag 14).
///
/// Wire layout after the tag: start_time(8) end_time(8) amount(8)
/// to_chain_id(2) sender(32) receiver(32) token_mint(32) data_account(32);
/// 155 bytes in all.
#[derive(Clone, Debug, PartialEq, Eq)]
pub struct XstreamUpdatePayload {
    pub start_time: u64,
    pub end_time: u64,
    pub amount: u64,
    pub to_chain_id: u16,
    pub sender: Vec<u8>,
    pub receiver: Vec<u8>,
    pub token_mint: Vec<u8>,
    pub data_account: Vec<u8>,
}

/// The mathematical value of a stream-update payload.
#[verifier::ext_equal]
pub struct SpecXstreamUpdatePayload {
    pub start_time: u64,
    pub end_time: u64,
    pub amount: u64,
    pub to_chain_id: u16,
    pub sender: Seq<u8>,
    pub receiver: Seq<u8>,
    pub token_mint: Seq<u8>,
    pub data_account: Seq<u8>,
}

impl View for XstreamUpdatePayload {
    type V = SpecXstreamUpdatePayload;

    open spec fn view(&self) -> SpecXstreamUpdatePayload {
        SpecXstreamUpdatePayload {
            start_time: self.start_time,
            end_time: self.end_time,
            amount: self.amount,
            to_chain_id: self.to_chain_id,
            sender: self.sender@,
            receiver: self.receiver@,
            token_mint: self.token_mint@,
            data_account: self.data_account@,
        }
    }
}

impl SpecXstreamUpdatePayload {
    /// All identity fields have their fixed width.
    pub open spec fn wf(self) -> bool {
        self.sender.len() == 32 && self.receiver.len() == 32 && self.token_mint.len() == 32
            && self.data_account.len() == 32
    }
}

/// Fields of a derived-account initialization payload (tag 18).
///
/// Wire layout after the tag: pda_seed(32) to_chain(32, a big-endian
/// integer); 65 bytes in all.
#[derive(Clone, Debug, PartialEq, Eq)]
pub struct InitAccountPayload {
    pub pda_seed: Vec<u8>,
    pub to_chain: Vec<u8>,
}

/// The mathematical value of a derived-account initialization payload.
#[verifier::ext_equal]
pub struct SpecInitAccountPayload {
    pub pda_seed: Seq<u8>,
    pub to_chain: Seq<u8>,
}

impl View for InitAccountPayload {
    type V = SpecInitAccountPayload;

    open spec fn view(&self) -> SpecInitAccountPayload {
        SpecInitAccountPayload { pda_seed: self.pda_seed@, to_chain: self.to_chain@ }
    }
}

impl SpecInitAccountPayload {
    /// Both fields have their fixed width.
    pub open spec fn wf(self) -> bool {
        self.pda_seed.len() == 32 && self.to_chain.len() == 32
    }
}

/// Fields of a derived token-account initialization payload (tag 19).
///
/// Wire layout after the tag: pda_seed(32) token_mint(32) to_chain(32, a
/// big-endian integer); 97 bytes in all.
#[derive(Clone, Debug, PartialEq, Eq)]
pub struct InitTokenAccountPayload {
    pub pda_seed: Vec<u8>,
    pub token_mint: Vec<u8>,
    pub to_chain: Vec<u8>,
}

/// The mathematical value of a token-account initialization payload.
#[verifier::ext_equal]
pub struct SpecInitTokenAccountPayload {
    pub pda_seed: Seq<u8>,
    pub token_mint: Seq<u8>,
    pub to_chain: Seq<u8>,
}

impl View for InitTokenAccountPayload {
    type V = SpecInitTokenAccountPayload;

    open spec fn view(&self) -> SpecInitTokenAccountPayload {
        SpecInitTokenAccountPayload {
            pda_seed: self.pda_seed@,
            token_mint: self.token_mint@,
            to_chain: self.to_chain@,
        }
    }
}

impl SpecInitTokenAccountPayload {
    /// All fields have their fixed width.
    pub open spec fn wf(self) -> bool {
        self.pda_seed.len() == 32 && self.token_mint.len() == 32 && self.to_chain.len() == 32
    }
}

/// A decoded wire payload: a closed sum over every known operation tag.
#[derive(Clone, Debug, PartialEq, Eq)]
pub enum Operation {
    OpenStream(XstreamStartPayload),
    ReceiverWithdraw(XstreamWithdrawPayload),
    Deposit(XstreamDepositPayload),
    PauseResume(XstreamPausePayload),
    SenderWithdraw(XstreamWithdrawDepositPayload),
    InstantTransfer(XstreamTransferPayload),
    UpdateStream(XstreamUpdatePayload),
    CancelStream(XstreamPausePayload),
    DirectTransfer(XstreamTransferPayload),
    InitAccount(InitAccountPayload),
    InitTokenAccount(InitTokenAccountPayload),
}

/// The mathematical value of a decoded wire payload.
#[verifier::ext_equal]
pub enum SpecOperation {
    OpenStream(SpecXstreamStartPayload),
    ReceiverWithdraw(SpecXstreamWithdrawPayload),
    Deposit(SpecXstreamDepositPayload),
    PauseResume(SpecXstreamPausePayload),
    SenderWithdraw(SpecXstreamWithdrawDepositPayload),
    InstantTransfer(SpecXstreamTransferPayload),
    UpdateStream(SpecXstreamUpdatePayload),
    CancelStream(SpecXstreamPausePayload),
    DirectTransfer(SpecXstreamTransferPayload),
    InitAccount(SpecInitAccountPayload),
    InitTokenAccount(SpecInitTokenAccountPayload),
}

impl View for Operation {
    type V = SpecOperation;

    open spec fn view(&self) -> SpecOperation {
        match self {
            Operation::OpenStream(p) => SpecOperation::OpenStream(p@),
            Operation::ReceiverWithdraw(p) => SpecOperation::ReceiverWithdraw(p@),
            Operation::Deposit(p) => SpecOperation::Deposit(p@),
            Operation::PauseResume(p) => SpecOperation::PauseResume(p@),
            Operation::SenderWithdraw(p) => SpecOperation::SenderWithdraw(p@),
            Operation::InstantTransfer(p) => SpecOperation::InstantTransfer(p@),
            Operation::UpdateStream(p) => SpecOperation::UpdateStream(p@),
            Operation::CancelStream(p) => SpecOperation::CancelStream(p@),
            Operation::DirectTransfer(p) => SpecOperation::DirectTransfer(p@),
            Operation::InitAccount(p) => SpecOperation::InitAccount(p@),
            Operation::InitTokenAccount(p) => SpecOperation::InitTokenAccount(p@),
        }
    }
}

impl SpecOperation {
    /// The tag byte under which this operation travels.
    pub open spec fn tag(self) -> u8 {
        match self {
            SpecOperation::OpenStream(_) => TAG_OPEN_STREAM,
            SpecOperation::ReceiverWithdraw(_) => TAG_RECEIVER_WITHDRAW,
            SpecOperation::Deposit(_) => TAG_DEPOSIT,
            SpecOperation::PauseResume(_) => TAG_PAUSE_RESUME,
            SpecOperation::SenderWithdraw(_) => TAG_SENDER_WITHDRAW,
            SpecOperation::InstantTransfer(_) => TAG_INSTANT_TRANSFER,
            SpecOperation::UpdateStream(_) => TAG_UPDATE_STREAM,
            SpecOperation::CancelStream(_) => TAG_CANCEL_STREAM,
            SpecOperation::DirectTransfer(_) => TAG_DIRECT_TRANSFER,
            SpecOperation::InitAccount(_) => TAG_INIT_ACCOUNT,
            SpecOperation::InitTokenAccount(_) => TAG_INIT_TOKEN_ACCOUNT,
        }
    }

    /// Every identity field of the operation has its fixed width.
    pub open spec fn wf(self) -> bool {
        match self {
            SpecOperation::OpenStream(p) => p.wf(),
            SpecOperation::ReceiverWithdraw(p) => p.wf(),
            SpecOperation::Deposit(p) => p.wf(),
            SpecOperation::PauseResume(p) => p.wf(),
            SpecOperation::SenderWithdraw(p) => p.wf(),
            SpecOperation::InstantTransfer(p) => p.wf(),
            SpecOperation::UpdateStream(p) => p.wf(),
            SpecOperation::CancelStream(p) => p.wf(),
            SpecOperation::DirectTransfer(p) => p.wf(),
            SpecOperation::InitAccount(p) => p.wf(),
            SpecOperation::InitTokenAccount(p) => p.wf(),
        }
    }
}

/// The stream-opening fields read from a buffer of at least 139 bytes.
pub open spec fn spec_open_stream_of(b: Seq<u8>) -> SpecXstreamStartPayload {
    SpecXstreamStartPayload {
        start_time: be_u64_of(b.subrange(1, 9)),
        end_time: be_u64_of(b.subrange(9, 17)),
        amount: be_u64_of(b.subrange(17, 25)),
        to_chain_id: be_u16_of(b.subrange(25, 27)),
        sender: b.subrange(27, 59),
        receiver: b.subrange(59, 91),
        can_update: be_u64_of(b.subrange(91, 99)),
        can_cancel: be_u64_of(b.subrange(99, 107)),
        token_mint: b.subrange(107, 139),
    }
}

/// The receiver-withdrawal fields read from a buffer of at least 131 bytes.
pub open spec fn spec_receiver_withdraw_of(b: Seq<u8>) -> SpecXstreamWithdrawPayload {
    SpecXstreamWithdrawPayload {
        to_chain_id: be_u16_of(b.subrange(1, 3)),
        withdrawer: b.subrange(3, 35),
        token_mint: b.subrange(35, 67),
        depositor: b.subrange(67, 99),
        data_account: b.subrange(99, 131),
    }
}

/// The deposit fields read from a buffer of at least 75 bytes.
pub open spec fn spec_deposit_of(b: Seq<u8>) -> SpecXstreamDepositPayload {
    SpecXstreamDepositPayload {
        amount: be_u64_of(b.subrange(1, 9)),
        to_chain_id: be_u16_of(b.subrange(9, 11)),
        sender: b.subrange(11, 43),
        token_mint: b.subrange(43, 75),
    }
}

/// The pause/resume or cancel fields read from a buffer of at least 131 bytes.
pub open spec fn spec_pause_of(b: Seq<u8>) -> SpecXstreamPausePayload {
    SpecXstreamPausePayload {
        to_chain_id: be_u16_of(b.subrange(1, 3)),
        depositor: b.subrange(3, 35),
        token_mint: b.subrange(35, 67),
        receiver: b.subrange(67, 99),
        data_account: b.subrange(99, 131),
    }
}

/// The sender-withdrawal fields read from a buffer of at least 75 bytes.
pub open spec fn spec_sender_withdraw_of(b: Seq<u8>) -> SpecXstreamWithdrawDepositPayload {
    SpecXstreamWithdrawDepositPayload {
        amount: be_u64_of(b.subrange(1, 9)),
        to_chain_id: be_u16_of(b.subrange(9, 11)),
        withdrawer: b.subrange(11, 43),
        token_mint: b.subrange(43, 75),
    }
}

/// The transfer fields read from a buffer of at least 107 bytes.
pub open spec fn spec_transfer_of(b: Seq<u8>) -> SpecXstreamTransferPayload {
    SpecXstreamTransferPayload {
        amount: be_u64_of(b.subrange(1, 9)),
        to_chain_id: be_u16_of(b.subrange(9, 11)),
        sender: b.subrange(11, 43),
        token_mint: b.subrange(43, 75),
        receiver: b.subrange(75, 107),
    }
}

/// The stream-update fields read from a buffer of at least 155 bytes.
pub open spec fn spec_update_of(b: Seq<u8>) -> SpecXstreamUpdatePayload {
    SpecXstreamUpdatePayload {
        start_time: be_u64_of(b.subrange(1, 9)),
        end_time: be_u64_of(b.subrange(9, 17)),
        amount: be_u64_of(b.subrange(17, 25)),
        to_chain_id: be_u16_of(b.subrange(25, 27)),
        sender: b.subrange(27, 59),
        receiver: b.subrange(59, 91),
        token_mint: b.subrange(91, 123),
        data_account: b.subrange(123, 155),
    }
}

/// The account-initialization fields read from a buffer of at least 65 bytes.
pub open spec fn spec_init_account_of(b: Seq<u8>) -> SpecInitAccountPayload {
    SpecInitAccountPayload { pda_seed: b.subrange(1, 33), to_chain: b.subrange(33, 65) }
}

/// The token-account-initialization fields read from a buffer of at least 97 bytes.
pub open spec fn spec_init_token_account_of(b: Seq<u8>) -> SpecInitTokenAccountPayload {
    SpecInitTokenAccountPayload {
        pda_seed: b.subrange(1, 33),
        token_mint: b.subrange(33, 65),
        to_chain: b.subrange(65, 97),
    }
}

/// The number of bytes the payload of a given tag occupies, tag included;
/// zero for an unknown tag.
pub open spec fn spec_payload_len(tag: u8) -> int {
    if tag == TAG_OPEN_STREAM {
        139
    } else if tag == TAG_RECEIVER_WITHDRAW {
        131
    } else if tag == TAG_DEPOSIT {
        75
    } else if tag == TAG_PAUSE_RESUME {
        131
    } else if tag == TAG_SENDER_WITHDRAW {
        75
    } else if tag == TAG_INSTANT_TRANSFER {
        107
    } else if tag == TAG_UPDATE_STREAM {
        155
    } else if tag == TAG_CANCEL_STREAM {
        131
    } else if tag == TAG_DIRECT_TRANSFER {
        107
    } else if tag == TAG_INIT_ACCOUNT {
        65
    } else if tag == TAG_INIT_TOKEN_ACCOUNT {
        97
    } else {
        0
    }
}

/// The operation read from a buffer whose tag is known and whose length
/// suffices.
pub open spec fn spec_operation_of(b: Seq<u8>) -> SpecOperation
    recommends
        b.len() >= 1,
{
    let tag = b[0];
    if tag == TAG_OPEN_STREAM {
        SpecOperation::OpenStream(spec_open_stream_of(b))
    } else if tag == TAG_RECEIVER_WITHDRAW {
        SpecOperation::ReceiverWithdraw(spec_receiver_withdraw_of(b))
    } else if tag == TAG_DEPOSIT {
        SpecOperation::Deposit(spec_deposit_of(b))
    } else if tag == TAG_PAUSE_RESUME {
        SpecOperation::PauseResume(spec_pause_of(b))
    } else if tag == TAG_SENDER_WITHDRAW {
        SpecOperation::SenderWithdraw(spec_sender_withdraw_of(b))
    } else if tag == TAG_INSTANT_TRANSFER {
        SpecOperation::InstantTransfer(spec_transfer_of(b))
    } else if tag == TAG_UPDATE_STREAM {
        SpecOperation::UpdateStream(spec_update_of(b))
    } else if tag == TAG_CANCEL_STREAM {
        SpecOperation::CancelStream(spec_pause_of(b))
    } else if tag == TAG_DIRECT_TRANSFER {
        SpecOperation::DirectTransfer(spec_transfer_of(b))
    } else if tag == TAG_INIT_ACCOUNT {
        SpecOperation::InitAccount(spec_init_account_of(b))
    } else {
        SpecOperation::InitTokenAccount(spec_init_token_account_of(b))
    }
}

/// The total decoder: an empty buffer or one too short for its tag is
/// malformed, an unknown tag is invalid, and anything else reads as the
/// fields at the tag's fixed offsets.  Bytes past the tag's extent are
/// ignored.
pub open spec fn spec_decode(b: Seq<u8>) -> Result<SpecOperation, MessengerError> {
    if b.len() < 1 {
        Err(MessengerError::MalformedPayload)
    } else if spec_payload_len(b[0]) == 0 {
        Err(MessengerError::InvalidPayload)
    } else if b.len() < spec_payload_len(b[0]) {
        Err(MessengerError::MalformedPayload)
    } else {
        Ok(spec_operation_of(b))
    }
}

/// The canonical bytes of an operation: its tag followed by its fields at
/// their fixed offsets.
pub open spec fn spec_encode(op: SpecOperation) -> Seq<u8> {
    match op {
        SpecOperation::OpenStream(p) => seq![TAG_OPEN_STREAM] + u64_be_bytes(p.start_time)
            + u64_be_bytes(p.end_time) + u64_be_bytes(p.amount) + u16_be_bytes(p.to_chain_id)
            + p.sender + p.receiver + u64_be_bytes(p.can_update) + u64_be_bytes(p.can_cancel)
            + p.token_mint,
        SpecOperation::ReceiverWithdraw(p) => seq![TAG_RECEIVER_WITHDRAW]
            + u16_be_bytes(p.to_chain_id) + p.withdrawer + p.token_mint + p.depositor
            + p.data_account,
        SpecOperation::Deposit(p) => seq![TAG_DEPOSIT] + u64_be_bytes(p.amount)
            + u16_be_bytes(p.to_chain_id) + p.sender + p.token_mint,
        SpecOperation::PauseResume(p) => seq![TAG_PAUSE_RESUME] + u16_be_bytes(p.to_chain_id)
            + p.depositor + p.token_mint + p.receiver + p.data_account,
        SpecOperation::SenderWithdraw(p) => seq![TAG_SENDER_WITHDRAW] + u64_be_bytes(p.amount)
            + u16_be_bytes(p.to_chain_id) + p.withdrawer + p.token_mint,
        SpecOperation::InstantTransfer(p) => seq![TAG_INSTANT_TRANSFER] + u64_be_bytes(p.amount)
            + u16_be_bytes(p.to_chain_id) + p.sender + p.token_mint + p.receiver,
        SpecOperation::UpdateStream(p) => seq![TAG_UPDATE_STREAM] + u64_be_bytes(p.start_time)
            + u64_be_bytes(p.end_time) + u64_be_bytes(p.amount) + u16_be_bytes(p.to_chain_id)
            + p.sender + p.receiver + p.token_mint + p.data_account,
        SpecOperation::CancelStream(p) => seq![TAG_CANCEL_STREAM] + u16_be_bytes(p.to_chain_id)
            + p.depositor + p.token_mint + p.receiver + p.data_account,
        SpecOperation::DirectTransfer(p) => seq![TAG_DIRECT_TRANSFER] + u64_be_bytes(p.amount)
            + u16_be_bytes(p.to_chain_id) + p.sender + p.token_mint + p.receiver,
        SpecOperation::InitAccount(p) => seq![TAG_INIT_ACCOUNT] + p.pda_seed + p.to_chain,
        SpecOperation::InitTokenAccount(p) => seq![TAG_INIT_TOKEN_ACCOUNT] + p.pda_seed
            + p.token_mint + p.to_chain,
    }
}


/// Decodes a wire payload into its operation.
///
/// The result is exactly `spec_decode` of the buffer's contents: too short
/// fails with `MalformedPayload`, an unknown tag with `InvalidPayload`.
pub fn decode(bytes: &Vec<u8>) -> (r: Result<Operation, MessengerError>)
    ensures
        match r {
            Ok(op) => spec_decode(bytes@) == Ok::<SpecOperation, MessengerError>(op@),
            Err(e) => spec_decode(bytes@) == Err::<SpecOperation, MessengerError>(e),
        },
{
    let n = bytes.len();
    if n < 1 {
        return Err(MessengerError::MalformedPayload);
    }
    let tag = bytes[0];
    if tag == TAG_OPEN_STREAM {
        if n < 139 {
            return Err(MessengerError::MalformedPayload);
        }
        let p = XstreamStartPayload {
            start_time: read_u64_be(bytes, 1),
            end_time: read_u64_be(bytes, 9),
            amount: read_u64_be(bytes, 17),
            to_chain_id: read_u16_be(bytes, 25),
            sender: read_bytes(bytes, 27, 32),
            receiver: read_bytes(bytes, 59, 32),
            can_update: read_u64_be(bytes, 91),
            can_cancel: read_u64_be(bytes, 99),
            token_mint: read_bytes(bytes, 107, 32),
        };
        proof {
            assert(p@ =~= spec_open_stream_of(bytes@));
        }
        Ok(Operation::OpenStream(p))
    } else if tag == TAG_RECEIVER_WITHDRAW {
        if n < 131 {
            return Err(MessengerError::MalformedPayload);
        }
        let p = XstreamWithdrawPayload {
            to_chain_id: read_u16_be(bytes, 1),
            withdrawer: read_bytes(bytes, 3, 32),
            token_mint: read_bytes(bytes, 35, 32),
            depositor: read_bytes(bytes, 67, 32),
            data_account: read_bytes(bytes, 99, 32),
        };
        proof {
            assert(p@ =~= spec_receiver_withdraw_of(bytes@));
        }
        Ok(Operation::ReceiverWithdraw(p))
    } else if tag == TAG_DEPOSIT {
        if n < 75 {
            return Err(MessengerError::MalformedPayload);
        }
        let p = XstreamDepositPayload {
            amount: read_u64_be(bytes, 1),
            to_chain_id: read_u16_be(bytes, 9),
            sender: read_bytes(bytes, 11, 32),
            token_mint: read_bytes(bytes, 43, 32),
        };
        proof {
            assert(p@ =~= spec_deposit_of(bytes@));
        }
        Ok(Operation::Deposit(p))
    } else if tag == TAG_PAUSE_RESUME {
        if n < 131 {
            return Err(MessengerError::MalformedPayload);
        }
        let p = read_pause_fields(bytes);
        Ok(Operation::PauseResume(p))
    } else if tag == TAG_SENDER_WITHDRAW {
        if n < 75 {
            return Err(MessengerError::MalformedPayload);
        }
        let p = XstreamWithdrawDepositPayload {
            amount: read_u64_be(bytes, 1),
            to_chain_id: read_u16_be(bytes, 9),
            withdrawer: read_bytes(bytes, 11, 32),
            token_mint: read_bytes(bytes, 43, 32),
        };
        proof {
            assert(p@ =~= spec_sender_withdraw_of(bytes@));
        }
        Ok(Operation::SenderWithdraw(p))
    } else if tag == TAG_INSTANT_TRANSFER {
        if n < 107 {
            return Err(MessengerError::MalformedPayload);
        }
        let p = read_transfer_fields(bytes);
        Ok(Operation::InstantTransfer(p))
    } else if tag == TAG_UPDATE_STREAM {
        if n < 155 {
            return Err(MessengerError::MalformedPayload);
        }
        let p = XstreamUpdatePayload {
            start_time: read_u64_be(bytes, 1),
            end_time: read_u64_be(bytes, 9),
            amount: read_u64_be(bytes, 17),
            to_chain_id: read_u16_be(bytes, 25),
            sender: read_bytes(bytes, 27, 32),
            receiver: read_bytes(bytes, 59, 32),
            token_mint: read_bytes(bytes, 91, 32),
            data_account: read_bytes(bytes, 123, 32),
        };
        proof {
            assert(p@ =~= spec_update_of(bytes@));
        }
        Ok(Operation::UpdateStream(p))
    } else if tag == TAG_CANCEL_STREAM {
        if n < 131 {
            return Err(MessengerError::MalformedPayload);
        }
        let p = read_pause_fields(bytes);
        Ok(Operation::CancelStream(p))
    } else if tag == TAG_DIRECT_TRANSFER {
        if n < 107 {
            return Err(MessengerError::MalformedPayload);
        }
        let p = read_transfer_fields(bytes);
        Ok(Operation::DirectTransfer(p))
    } else if tag == TAG_INIT_ACCOUNT {
        if n < 65 {
            return Err(MessengerError::MalformedPayload);
        }
        let p = InitAccountPayload {
            pda_seed: read_bytes(bytes, 1, 32),
            to_chain: read_bytes(bytes, 33, 32),
        };
        proof {
            assert(p@ =~= spec_init_account_of(bytes@));
        }
        Ok(Operation::InitAccount(p))
    } else if tag == TAG_INIT_TOKEN_ACCOUNT {
        if n < 97 {
            return Err(MessengerError::MalformedPayload);
        }
        let p = InitTokenAccountPayload {
            pda_seed: read_bytes(bytes, 1, 32),
            token_mint: read_bytes(bytes, 33, 32),
            to_chain: read_bytes(bytes, 65, 32),
        };
        proof {
            assert(p@ =~= spec_init_token_account_of(bytes@));
        }
        Ok(Operation::InitTokenAccount(p))
    } else {
        Err(MessengerError::InvalidPayload)
    }
}

/// Reads the shared field shape of pause/resume and cancel payloads.
fn read_pause_fields(bytes: &Vec<u8>) -> (p: XstreamPausePayload)
    requires
        bytes@.len() >= 131,
    ensures
        p@ == spec_pause_of(bytes@),
{
    let p = XstreamPausePayload {
        to_chain_id: read_u16_be(bytes, 1),
        depositor: read_bytes(bytes, 3, 32),
        token_mint: read_bytes(bytes, 35, 32),
        receiver: read_bytes(bytes, 67, 32),
        data_account: read_bytes(bytes, 99, 32),
    };
    proof {
        assert(p@ =~= spec_pause_of(bytes@));
    }
    p
}

/// Reads the shared field shape of instant- and direct-transfer payloads.
fn read_transfer_fields(bytes: &Vec<u8>) -> (p: XstreamTransferPayload)
    requires
        bytes@.len() >= 107,
    ensures
        p@ == spec_transfer_of(bytes@),
{
    let p = XstreamTransferPayload {
        amount: read_u64_be(bytes, 1),
        to_chain_id: read_u16_be(bytes, 9),
        sender: read_bytes(bytes, 11, 32),
        token_mint: read_bytes(bytes, 43, 32),
        receiver: read_bytes(bytes, 75, 32),
    };
    proof {
        assert(p@ =~= spec_transfer_of(bytes@));
    }
    p
}

/// Encodes an operation into its canonical wire bytes.
pub fn encode(op: &Operation) -> (r: Vec<u8>)
    ensures
        r@ == spec_encode(op@),
{
    let mut out: Vec<u8> = Vec::new();
    match op {
        Operation::OpenStream(p) => {
            out.push(TAG_OPEN_STREAM);
            push_u64_be(&mut out, p.start_time);
            push_u64_be(&mut out, p.end_time);
            push_u64_be(&mut out, p.amount);
            push_u16_be(&mut out, p.to_chain_id);
            push_bytes(&mut out, &p.sender);
            push_bytes(&mut out, &p.receiver);
            push_u64_be(&mut out, p.can_update);
            push_u64_be(&mut out, p.can_cancel);
            push_bytes(&mut out, &p.token_mint);
        }
        Operation::ReceiverWithdraw(p) => {
            out.push(TAG_RECEIVER_WITHDRAW);
            push_u16_be(&mut out, p.to_chain_id);
            push_bytes(&mut out, &p.withdrawer);
            push_bytes(&mut out, &p.token_mint);
            push_bytes(&mut out, &p.depositor);
            push_bytes(&mut out, &p.data_account);
        }
        Operation::Deposit(p) => {
            out.push(TAG_DEPOSIT);
            push_u64_be(&mut out, p.amount);
            push_u16_be(&mut out, p.to_chain_id);
            push_bytes(&mut out, &p.sender);
            push_bytes(&mut out, &p.token_mint);
        }
        Operation::PauseResume(p) => {
            out.push(TAG_PAUSE_RESUME);
            push_u16_be(&mut out, p.to_chain_id);
            push_bytes(&mut out, &p.depositor);
            push_bytes(&mut out, &p.token_mint);
            push_bytes(&mut out, &p.receiver);
            push_bytes(&mut out, &p.data_account);
        }
        Operation::SenderWithdraw(p) => {
            out.push(TAG_SENDER_WITHDRAW);
            push_u64_be(&mut out, p.amount);
            push_u16_be(&mut out, p.to_chain_id);
            push_bytes(&mut out, &p.withdrawer);
            push_bytes(&mut out, &p.token_mint);
        }
        Operation::InstantTransfer(p) => {
            out.push(TAG_INSTANT_TRANSFER);
            push_u64_be(&mut out, p.amount);
            push_u16_be(&mut out, p.to_chain_id);
            push_bytes(&mut out, &p.sender);
            push_bytes(&mut out, &p.token_mint);
            push_bytes(&mut out, &p.receiver);
        }
        Operation::UpdateStream(p) => {
            out.push(TAG_UPDATE_STREAM);
            push_u64_be(&mut out, p.start_time);
            push_u64_be(&mut out, p.end_time);
            push_u64_be(&mut out, p.amount);
            push_u16_be(&mut out, p.to_chain_id);
            push_bytes(&mut out, &p.sender);
            push_bytes(&mut out, &p.receiver);
            push_bytes(&mut out, &p.token_mint);
            push_bytes(&mut out, &p.data_account);
        }
        Operation::CancelStream(p) => {
            out.push(TAG_CANCEL_STREAM);
            push_u16_be(&mut out, p.to_chain_id);
            push_bytes(&mut out, &p.depositor);
            push_bytes(&mut out, &p.token_mint);
            push_bytes(&mut out, &p.receiver);
            push_bytes(&mut out, &p.data_account);
        }
        Operation::DirectTransfer(p) => {
            out.push(TAG_DIRECT_TRANSFER);
            push_u64_be(&mut out, p.amount);
            push_u16_be(&mut out, p.to_chain_id);
            push_bytes(&mut out, &p.sender);
            push_bytes(&mut out, &p.token_mint);
            push_bytes(&mut out, &p.receiver);
        }
        Operation::InitAccount(p) => {
            out.push(TAG_INIT_ACCOUNT);
            push_bytes(&mut out, &p.pda_seed);
            push_bytes(&mut out, &p.to_chain);
        }
        Operation::InitTokenAccount(p) => {
            out.push(TAG_INIT_TOKEN_ACCOUNT);
            push_bytes(&mut out, &p.pda_seed);
            push_bytes(&mut out, &p.token_mint);
            push_bytes(&mut out, &p.to_chain);
        }
    }
    proof {
        assert(out@ =~= spec_encode(op@));
    }
    out
}


/// Round trip: decoding the canonical bytes of any well-formed operation
/// yields that operation back, for every payload shape.
#[verifier::rlimit(60)]
pub proof fn lemma_codec_round_trip(op: SpecOperation)
    requires
        op.wf(),
    ensures
        spec_decode(spec_encode(op)) == Ok::<SpecOperation, MessengerError>(op),
{
    let b = spec_encode(op);
    match op {
        SpecOperation::OpenStream(p) => {
            assert(b.len() == 139);
            assert(b[0] == TAG_OPEN_STREAM);
            assert(b.subrange(1, 9) =~= u64_be_bytes(p.start_time));
            assert(b.subrange(9, 17) =~= u64_be_bytes(p.end_time));
            assert(b.subrange(17, 25) =~= u64_be_bytes(p.amount));
            assert(b.subrange(25, 27) =~= u16_be_bytes(p.to_chain_id));
            assert(b.subrange(27, 59) =~= p.sender);
            assert(b.subrange(59, 91) =~= p.receiver);
            assert(b.subrange(91, 99) =~= u64_be_bytes(p.can_update));
            assert(b.subrange(99, 107) =~= u64_be_bytes(p.can_cancel));
            assert(b.subrange(107, 139) =~= p.token_mint);
            crate::bytes::lemma_u64_be_round_trip(p.start_time);
            crate::bytes::lemma_u64_be_round_trip(p.end_time);
            crate::bytes::lemma_u64_be_round_trip(p.amount);
            crate::bytes::lemma_u16_be_round_trip(p.to_chain_id);
            crate::bytes::lemma_u64_be_round_trip(p.can_update);
            crate::bytes::lemma_u64_be_round_trip(p.can_cancel);
            assert(spec_open_stream_of(b) =~= p);
        }
        SpecOperation::ReceiverWithdraw(p) => {
            assert(b.len() == 131);
            assert(b[0] == TAG_RECEIVER_WITHDRAW);
            assert(b.subrange(1, 3) =~= u16_be_bytes(p.to_chain_id));
            assert(b.subrange(3, 35) =~= p.withdrawer);
            assert(b.subrange(35, 67) =~= p.token_mint);
            assert(b.subrange(67, 99) =~= p.depositor);
            assert(b.subrange(99, 131) =~= p.data_account);
            crate::bytes::lemma_u16_be_round_trip(p.to_chain_id);
            assert(spec_receiver_withdraw_of(b) =~= p);
        }
        SpecOperation::Deposit(p) => {
            assert(b.len() == 75);
            assert(b[0] == TAG_DEPOSIT);
            assert(b.subrange(1, 9) =~= u64_be_bytes(p.amount));
            assert(b.subrange(9, 11) =~= u16_be_bytes(p.to_chain_id));
            assert(b.subrange(11, 43) =~= p.sender);
            assert(b.subrange(43, 75) =~= p.token_mint);
            crate::bytes::lemma_u64_be_round_trip(p.amount);
            crate::bytes::lemma_u16_be_round_trip(p.to_chain_id);
            assert(spec_deposit_of(b) =~= p);
        }
        SpecOperation::PauseResume(p) => {
            lemma_pause_fields_round_trip(p, b, TAG_PAUSE_RESUME);
        }
        SpecOperation::SenderWithdraw(p) => {
            assert(b.len() == 75);
            assert(b[0] == TAG_SENDER_WITHDRAW);
            assert(b.subrange(1, 9) =~= u64_be_bytes(p.amount));
            assert(b.subrange(9, 11) =~= u16_be_bytes(p.to_chain_id));
            assert(b.subrange(11, 43) =~= p.withdrawer);
            assert(b.subrange(43, 75) =~= p.token_mint);
            crate::bytes::lemma_u64_be_round_trip(p.amount);
            crate::bytes::lemma_u16_be_round_trip(p.to_chain_id);
            assert(spec_sender_withdraw_of(b) =~= p);
        }
        SpecOperation::InstantTransfer(p) => {
            lemma_transfer_fields_round_trip(p, b, TAG_INSTANT_TRANSFER);
        }
        SpecOperation::UpdateStream(p) => {
            assert(b.len() == 155);
            assert(b[0] == TAG_UPDATE_STREAM);
            assert(b.subrange(1, 9) =~= u64_be_bytes(p.start_time));
            assert(b.subrange(9, 17) =~= u64_be_bytes(p.end_time));
            assert(b.subrange(17, 25) =~= u64_be_bytes(p.amount));
            assert(b.subrange(25, 27) =~= u16_be_bytes(p.to_chain_id));
            assert(b.subrange(27, 59) =~= p.sender);
            assert(b.subrange(59, 91) =~= p.receiver);
            assert(b.subrange(91, 123) =~= p.token_mint);
            assert(b.subrange(123, 155) =~= p.data_account);
            crate::bytes::lemma_u64_be_round_trip(p.start_time);
            crate::bytes::lemma_u64_be_round_trip(p.end_time);
            crate::bytes::lemma_u64_be_round_trip(p.amount);
            crate::bytes::lemma_u16_be_round_trip(p.to_chain_id);
            assert(spec_update_of(b) =~= p);
        }
        SpecOperation::CancelStream(p) => {
            lemma_pause_fields_round_trip(p, b, TAG_CANCEL_STREAM);
        }
        SpecOperation::DirectTransfer(p) => {
            lemma_transfer_fields_round_trip(p, b, TAG_DIRECT_TRANSFER);
        }
        SpecOperation::InitAccount(p) => {
            assert(b.len() == 65);
            assert(b[0] == TAG_INIT_ACCOUNT);
            assert(b.subrange(1, 33) =~= p.pda_seed);
            assert(b.subrange(33, 65) =~= p.to_chain);
            assert(spec_init_account_of(b) =~= p);
        }
        SpecOperation::InitTokenAccount(p) => {
            assert(b.len() == 97);
            assert(b[0] == TAG_INIT_TOKEN_ACCOUNT);
            assert(b.subrange(1, 33) =~= p.pda_seed);
            assert(b.subrange(33, 65) =~= p.token_mint);
            assert(b.subrange(65, 97) =~= p.to_chain);
            assert(spec_init_token_account_of(b) =~= p);
        }
    }
}

/// Round trip of the shared pause/cancel field shape.
proof fn lemma_pause_fields_round_trip(p: SpecXstreamPausePayload, b: Seq<u8>, tag: u8)
    requires
        p.wf(),
        tag == TAG_PAUSE_RESUME || tag == TAG_CANCEL_STREAM,
        b == seq![tag] + u16_be_bytes(p.to_chain_id) + p.depositor + p.token_mint + p.receiver
            + p.data_account,
    ensures
        b.len() == 131,
        b[0] == tag,
        spec_pause_of(b) == p,
{
    assert(b.subrange(1, 3) =~= u16_be_bytes(p.to_chain_id));
    assert(b.subrange(3, 35) =~= p.depositor);
    assert(b.subrange(35, 67) =~= p.token_mint);
    assert(b.subrange(67, 99) =~= p.receiver);
    assert(b.subrange(99, 131) =~= p.data_account);
    crate::bytes::lemma_u16_be_round_trip(p.to_chain_id);
    assert(spec_pause_of(b) =~= p);
}

/// Round trip of the shared instant/direct transfer field shape.
proof fn lemma_transfer_fields_round_trip(p: SpecXstreamTransferPayload, b: Seq<u8>, tag: u8)
    requires
        p.wf(),
        tag == TAG_INSTANT_TRANSFER || tag == TAG_DIRECT_TRANSFER,
        b == seq![tag] + u64_be_bytes(p.amount) + u16_be_bytes(p.to_chain_id) + p.sender
            + p.token_mint + p.receiver,
    ensures
        b.len() == 107,
        b[0] == tag,
        spec_transfer_of(b) == p,
{
    assert(b.subrange(1, 9) =~= u64_be_bytes(p.amount));
    assert(b.subrange(9, 11) =~= u16_be_bytes(p.to_chain_id));
    assert(b.subrange(11, 43) =~= p.sender);
    assert(b.subrange(43, 75) =~= p.token_mint);
    assert(b.subrange(75, 107) =~= p.receiver);
    crate::bytes::lemma_u64_be_round_trip(p.amount);
    crate::bytes::lemma_u16_be_round_trip(p.to_chain_id);
    assert(spec_transfer_of(b) =~= p);
}

} // verus!
