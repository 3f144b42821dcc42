//! Escrow and accounting rules for crowdfunding campaigns.
//!
//! The crate decides; it moves no money and stores nothing. Each operation
//! takes the records it works on as plain values, judges the request, and
//! either changes the records and says what is to be paid and stored, or
//! refuses and leaves everything as it was.
//!
//! - [`address`]: who acts and who is paid.
//! - [`error`]: why an operation is refused.
//! - [`state`]: the program's settings record, its setup and its fee.
//! - [`campaign`]: campaign records, and how they are opened, edited and
//!   closed to donations.
//! - [`ledger`]: donations, withdrawals, the platform's share, receipts.
//! - [`transfer`]: the payment instruction that a donation asks for.
//! - [`laws`]: what holds over any run of operations.

pub mod address;
pub mod campaign;
pub mod error;
pub mod laws;
pub mod ledger;
pub mod state;
pub mod transfer;

pub use address::Address;
pub use campaign::{create_campaign, delete_campaign, update_campaign, Campaign};
pub use error::ErrorCode;
pub use ledger::{
    check_donation, check_withdrawal, check_withdrawal_request, donate, split_withdrawal, withdraw,
    Donation, Payout, ReceiptKey, Transaction, Withdrawal,
};
pub use state::{initialize, update_platform_settings, ProgramState};
pub use transfer::{request_donation, AccountRole, TransferInstruction};
