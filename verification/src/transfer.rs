//! The payment that a donation asks for: an instruction to the system
//! program, to be carried out by whoever holds the accounts.

use vstd::prelude::*;
use vstd::bytes::spec_u64_to_le_bytes;
use anchor_lang::solana_program::pubkey::Pubkey;
use anchor_lang::solana_program::system_instruction;
use crate::address::Address;
use crate::campaign::Campaign;
use crate::error::ErrorCode;
use crate::ledger::check_donation;

verus! {

/// An account that an instruction touches, and how.
#[derive(Clone, Copy, Debug, PartialEq, Eq)]
pub struct AccountRole {
    pub address: Address,
    /// The account's owner must have signed.
    pub is_signer: bool,
    /// The instruction may change the account.
    pub is_writable: bool,
}

/// An instruction that moves funds from one account to another.
#[derive(Clone, Debug, PartialEq, Eq)]
pub struct TransferInstruction {
    /// The program that carries the instruction out.
    pub program: Address,
    pub accounts: Vec<AccountRole>,
    pub data: Vec<u8>,
}

/// The system program's address: thirty-two zero bytes.
pub open spec fn system_program_address() -> Seq<u8> {
    Seq::new(32, |i: int| 0u8)
}

/// What the system program reads as "transfer `amount`": the number 2 in four
/// bytes, then the amount in eight, both with the low byte first.
pub open spec fn transfer_data(amount: u64) -> Seq<u8> {
    seq![2u8, 0u8, 0u8, 0u8] + spec_u64_to_le_bytes(amount)
}

impl TransferInstruction {
    /// The instruction is the system program's transfer of `amount` out of
    /// `from`, who must sign, into `to`.
    pub open spec fn moves(&self, from: Address, to: Address, amount: u64) -> bool {
        &&& self.program@ == system_program_address()
        &&& self.accounts@ == seq![
            AccountRole { address: from, is_signer: true, is_writable: true },
            AccountRole { address: to, is_signer: false, is_writable: true },
        ]
        &&& self.data@ == transfer_data(amount)
    }
}

/// Calls `solana_program::system_instruction::transfer` and hands its result
/// back field by field. Taken on trust from that function's source: the
/// instruction is addressed to the system program, names `from` as a writable
/// signer and `to` as writable, in that order, and its data is the transfer
/// variant's index followed by the amount, in bincode's fixed-width
/// little-endian form.
#[verifier::external_body]
fn system_transfer(from: &Address, to: &Address, amount: u64) -> (instruction: TransferInstruction)
    ensures
        instruction.moves(*from, *to, amount),
{
    let made = system_instruction::transfer(
        &Pubkey::new_from_array(from.bytes),
        &Pubkey::new_from_array(to.bytes),
        amount,
    );
    TransferInstruction {
        program: Address { bytes: made.program_id.to_bytes() },
        accounts: made.accounts.iter().map(|meta| AccountRole {
            address: Address { bytes: meta.pubkey.to_bytes() },
            is_signer: meta.is_signer,
            is_writable: meta.is_writable,
        }).collect(),
        data: made.data,
    }
}

/// Judges a donation before any money moves. Where the campaign is the one
/// asked for, active and short of its goal, and `amount` is a whole unit at
/// least, the result is the payment to make: exactly `amount`, out of the
/// donor's account into the campaign's. Otherwise it is the reason for the
/// refusal.
pub fn request_donation(
    campaign: &Campaign,
    campaign_address: Address,
    donor: Address,
    cid: u64,
    amount: u64,
) -> (result: Result<TransferInstruction, ErrorCode>)
    ensures
        match result {
            Ok(instruction) => {
                &&& campaign@.donation_refusal(cid as nat, amount as nat).is_none()
                &&& instruction.moves(donor, campaign_address, amount)
            },
            Err(e) => campaign@.donation_refusal(cid as nat, amount as nat) == Some(e),
        },
{
    match check_donation(campaign, cid, amount) {
        Err(e) => Err(e),
        Ok(_) => Ok(system_transfer(&donor, &campaign_address, amount)),
    }
}

} // verus!
