//! Money in and money out: donations, withdrawals, the platform's share, and
//! the receipt written for each movement.

use vstd::prelude::*;
use crate::address::Address;
use crate::campaign::{Campaign, CampaignView, WHOLE_UNIT};
use crate::error::ErrorCode;
use crate::state::{ProgramState, ProgramStateView};

verus! {

/// The receipt of one movement of funds. It is written once and never changed.
#[derive(Clone, Copy, Debug, PartialEq, Eq)]
pub struct Transaction {
    /// Who gave, or who withdrew.
    pub owner: Address,
    pub cid: u64,
    pub amount: u64,
    pub timestamp: u64,
    /// True where funds entered the campaign, false where they left it.
    pub credited: bool,
}

/// Where a receipt is stored: under who acted, on which campaign, and the
/// how-manieth donation or withdrawal of that campaign it was. Donations and
/// withdrawals are numbered apart, so `credited` is part of the key.
#[derive(Clone, Copy, Debug, PartialEq, Eq)]
pub struct ReceiptKey {
    pub owner: Address,
    pub cid: u64,
    pub sequence: u64,
    pub credited: bool,
}

/// A receipt's key with its numbers unbounded.
pub ghost struct ReceiptKeyView {
    pub owner: Address,
    pub cid: nat,
    pub sequence: nat,
    pub credited: bool,
}

impl View for ReceiptKey {
    type V = ReceiptKeyView;

    open spec fn view(&self) -> ReceiptKeyView {
        ReceiptKeyView {
            owner: self.owner,
            cid: self.cid as nat,
            sequence: self.sequence as nat,
            credited: self.credited,
        }
    }
}

/// What a donation that was booked leaves to store: the receipt, and the key
/// to store it under.
#[derive(Clone, Copy, Debug, PartialEq, Eq)]
pub struct Donation {
    pub receipt: Transaction,
    pub key: ReceiptKey,
}

/// The two payments that one withdrawal is split into.
#[derive(Clone, Copy, Debug, PartialEq, Eq)]
pub struct Payout {
    pub creator_amount: u64,
    pub platform_amount: u64,
}

/// What a withdrawal that was granted asks for: the payments out of the
/// campaign's funds, to the creator and to the platform, and the receipt to
/// store with its key.
#[derive(Clone, Copy, Debug, PartialEq, Eq)]
pub struct Withdrawal {
    pub creator: Address,
    pub platform: Address,
    pub payout: Payout,
    pub receipt: Transaction,
    pub key: ReceiptKey,
}

/// The platform's part of `amount` at `platform_fee` percent, rounded down.
pub open spec fn platform_share(amount: nat, platform_fee: nat) -> nat {
    amount * platform_fee / 100
}

/// The creator's part of `amount`: what the platform's part leaves.
pub open spec fn creator_share(amount: nat, platform_fee: nat) -> int {
    amount - platform_share(amount, platform_fee)
}

impl CampaignView {
    /// Why a donation of `amount` to the campaign `cid` is refused before any
    /// money moves, if anything stands against it.
    pub open spec fn donation_refusal(self, cid: nat, amount: nat) -> Option<ErrorCode> {
        if self.cid != cid {
            Some(ErrorCode::CampaignNotFound)
        } else if !self.active {
            Some(ErrorCode::InactiveCampaign)
        } else if amount < WHOLE_UNIT {
            Some(ErrorCode::InvalidDonationAmount)
        } else if self.amount_raised >= self.goal {
            Some(ErrorCode::CampaignGoalActualized)
        } else {
            None
        }
    }

    /// Why a donation fails, if it does: it is refused outright, or the
    /// donor's payment did not go through.
    pub open spec fn donation_error(
        self,
        cid: nat,
        amount: nat,
        transferred: bool,
    ) -> Option<ErrorCode> {
        if self.donation_refusal(cid, amount).is_some() {
            self.donation_refusal(cid, amount)
        } else if !transferred {
            Some(ErrorCode::InsufficientFund)
        } else {
            None
        }
    }

    /// The key of the receipt of the next donation, if `donor` makes it: the
    /// donor, the campaign, and the number of donors once this one is
    /// counted.
    pub open spec fn donation_key(self, donor: Address) -> ReceiptKeyView {
        ReceiptKeyView { owner: donor, cid: self.cid, sequence: self.donors + 1, credited: true }
    }

    /// The key of the receipt of the next withdrawal: the creator, the
    /// campaign, and the number of withdrawals once this one is counted.
    pub open spec fn withdrawal_key(self) -> ReceiptKeyView {
        ReceiptKeyView {
            owner: self.creator,
            cid: self.cid,
            sequence: self.withdrawals + 1,
            credited: false,
        }
    }

    /// The record after a donation of `amount` was taken in.
    pub open spec fn donated(self, amount: nat) -> CampaignView {
        CampaignView {
            amount_raised: self.amount_raised + amount,
            balance: self.balance + amount,
            donors: self.donors + 1,
            ..self
        }
    }

    /// Why `caller` may not ask for `amount` out of the campaign `cid`, if
    /// anything stands against it before the funds are looked at. Who is
    /// asking is judged first, then which campaign is asked for, the amount,
    /// and the address that the platform's share would be paid to.
    pub open spec fn withdrawal_refusal(
        self,
        state: ProgramStateView,
        caller: Address,
        platform_recipient: Address,
        cid: nat,
        amount: nat,
    ) -> Option<ErrorCode> {
        if self.owner_error(caller, cid).is_some() {
            self.owner_error(caller, cid)
        } else if amount < WHOLE_UNIT {
            Some(ErrorCode::InvalidWithdrawalAmount)
        } else if amount > self.balance {
            Some(ErrorCode::CampaignGoalActualized)
        } else if platform_recipient != state.platform_address {
            Some(ErrorCode::InvalidPlatformAddress)
        } else {
            None
        }
    }

    /// Why a withdrawal fails, if it does: it is refused outright, or the
    /// campaign's account does not hold the amount above what must stay in
    /// it. `held_funds` is what the account really holds and `reserve` the
    /// part of it that must stay there.
    pub open spec fn withdrawal_error(
        self,
        state: ProgramStateView,
        caller: Address,
        platform_recipient: Address,
        cid: nat,
        amount: nat,
        held_funds: nat,
        reserve: nat,
    ) -> Option<ErrorCode> {
        if self.withdrawal_refusal(state, caller, platform_recipient, cid, amount).is_some() {
            self.withdrawal_refusal(state, caller, platform_recipient, cid, amount)
        } else if amount > held_funds - reserve {
            Some(ErrorCode::InsufficientFund)
        } else {
            None
        }
    }

    /// The record after `amount` was paid out of it.
    pub open spec fn withdrawn(self, amount: nat) -> CampaignView
        recommends
            amount <= self.balance,
    {
        CampaignView {
            withdrawals: self.withdrawals + 1,
            balance: (self.balance - amount) as nat,
            ..self
        }
    }
}

impl Campaign {
    /// The record's numbers have room for a donation of `amount`: neither sum
    /// nor the count of donors would pass the largest number that a record
    /// can hold.
    pub open spec fn has_room_for_donation(&self, amount: u64) -> bool {
        &&& self.amount_raised + amount <= u64::MAX
        &&& self.balance + amount <= u64::MAX
        &&& self.donors < u64::MAX
    }

    /// The record can count one more withdrawal, and the fee is a percentage
    /// of no more than the whole.
    pub open spec fn has_room_for_withdrawal(&self, state: &ProgramState) -> bool {
        &&& self.withdrawals < u64::MAX
        &&& state.platform_fee <= 100
    }

    /// Tells whether a donation of `amount` can be booked on this record.
    pub fn can_book_donation(&self, amount: u64) -> (fits: bool)
        ensures
            fits == self.has_room_for_donation(amount),
    {
        amount <= u64::MAX - self.amount_raised && amount <= u64::MAX - self.balance
            && self.donors < u64::MAX
    }

    /// Tells whether a withdrawal can be booked on this record at the fee in
    /// `state`.
    pub fn can_book_withdrawal(&self, state: &ProgramState) -> (fits: bool)
        ensures
            fits == self.has_room_for_withdrawal(state),
    {
        self.withdrawals < u64::MAX && state.platform_fee <= 100
    }
}

/// Splits a withdrawal between the platform and the creator. The platform gets
/// `platform_fee` percent of `amount`, rounded down, and the creator all the
/// rest, so that nothing is lost to rounding.
pub fn split_withdrawal(amount: u64, platform_fee: u64) -> (payout: Payout)
    requires
        platform_fee <= 100,
    ensures
        payout.platform_amount == platform_share(amount as nat, platform_fee as nat),
        payout.creator_amount == creator_share(amount as nat, platform_fee as nat),
        payout.creator_amount + payout.platform_amount == amount,
{
    assert(amount * platform_fee <= 100 * amount) by (nonlinear_arith)
        requires
            platform_fee <= 100,
    ;
    let product: u128 = amount as u128 * platform_fee as u128;
    let platform_amount: u64 = (product / 100) as u64;
    Payout { creator_amount: amount - platform_amount, platform_amount }
}

/// Judges a donation of `amount` to the campaign `cid` before any money
/// moves: see [`CampaignView::donation_refusal`].
pub fn check_donation(campaign: &Campaign, cid: u64, amount: u64) -> (result: Result<(), ErrorCode>)
    ensures
        match result {
            Ok(_) => campaign@.donation_refusal(cid as nat, amount as nat).is_none(),
            Err(e) => campaign@.donation_refusal(cid as nat, amount as nat) == Some(e),
        },
{
    if campaign.cid != cid {
        return Err(ErrorCode::CampaignNotFound);
    }
    if !campaign.active {
        return Err(ErrorCode::InactiveCampaign);
    }
    if amount < WHOLE_UNIT {
        return Err(ErrorCode::InvalidDonationAmount);
    }
    if campaign.amount_raised >= campaign.goal {
        return Err(ErrorCode::CampaignGoalActualized);
    }
    Ok(())
}

/// Books a donation of `amount` by `donor` to the campaign `cid`.
/// `transferred` tells whether the donor's payment of exactly `amount` into
/// the campaign's account went through. The campaign must be the one asked
/// for, active, and short of its goal, and the amount a whole unit at least.
/// Then the amount is added to what was raised and to what is held, the
/// donor is counted, and the receipt to store is returned with its key. A
/// refusal, or a payment that failed, changes nothing. A donation that is
/// booked needs room in the record's numbers: see
/// [`Campaign::has_room_for_donation`].
pub fn donate(
    campaign: &mut Campaign,
    donor: Address,
    cid: u64,
    amount: u64,
    transferred: bool,
    timestamp: u64,
) -> (result: Result<Donation, ErrorCode>)
    requires
        old(campaign)@.donation_error(cid as nat, amount as nat, transferred).is_none()
            ==> old(campaign).has_room_for_donation(amount),
    ensures
        match result {
            Ok(donation) => {
                &&& old(campaign)@.donation_error(cid as nat, amount as nat, transferred).is_none()
                &&& final(campaign)@ == old(campaign)@.donated(amount as nat)
                &&& donation.receipt == (Transaction {
                    owner: donor,
                    cid,
                    amount,
                    timestamp,
                    credited: true,
                })
                &&& donation.key@ == old(campaign)@.donation_key(donor)
            },
            Err(e) => {
                &&& old(campaign)@.donation_error(cid as nat, amount as nat, transferred) == Some(e)
                &&& final(campaign)@ == old(campaign)@
            },
        },
        old(campaign).balance <= old(campaign).amount_raised
            ==> final(campaign).balance <= final(campaign).amount_raised,
        old(campaign).wf() ==> final(campaign).wf(),
{
    match check_donation(campaign, cid, amount) {
        Err(e) => {
            return Err(e);
        },
        Ok(_) => {},
    }
    if !transferred {
        return Err(ErrorCode::InsufficientFund);
    }
    campaign.amount_raised = campaign.amount_raised + amount;
    campaign.balance = campaign.balance + amount;
    campaign.donors = campaign.donors + 1;
    Ok(
        Donation {
            receipt: Transaction { owner: donor, cid, amount, timestamp, credited: true },
            key: ReceiptKey { owner: donor, cid, sequence: campaign.donors, credited: true },
        },
    )
}

/// Judges a request to withdraw `amount` from the campaign `cid` before the
/// funds are looked at: see [`CampaignView::withdrawal_refusal`].
pub fn check_withdrawal_request(
    campaign: &Campaign,
    state: &ProgramState,
    caller: Address,
    platform_recipient: Address,
    cid: u64,
    amount: u64,
) -> (result: Result<(), ErrorCode>)
    ensures
        match result {
            Ok(_) => campaign@.withdrawal_refusal(
                state@,
                caller,
                platform_recipient,
                cid as nat,
                amount as nat,
            ).is_none(),
            Err(e) => campaign@.withdrawal_refusal(
                state@,
                caller,
                platform_recipient,
                cid as nat,
                amount as nat,
            ) == Some(e),
        },
{
    if campaign.creator != caller {
        return Err(ErrorCode::Unauthorized);
    }
    if campaign.cid != cid {
        return Err(ErrorCode::CampaignNotFound);
    }
    if amount < WHOLE_UNIT {
        return Err(ErrorCode::InvalidWithdrawalAmount);
    }
    if amount > campaign.balance {
        return Err(ErrorCode::CampaignGoalActualized);
    }
    if platform_recipient != state.platform_address {
        return Err(ErrorCode::InvalidPlatformAddress);
    }
    Ok(())
}

/// Judges a withdrawal in full, the funds included: see
/// [`CampaignView::withdrawal_error`]. Funds below the reserve cover no
/// withdrawal at all.
pub fn check_withdrawal(
    campaign: &Campaign,
    state: &ProgramState,
    caller: Address,
    platform_recipient: Address,
    cid: u64,
    amount: u64,
    held_funds: u64,
    reserve: u64,
) -> (result: Result<(), ErrorCode>)
    ensures
        match result {
            Ok(_) => campaign@.withdrawal_error(
                state@,
                caller,
                platform_recipient,
                cid as nat,
                amount as nat,
                held_funds as nat,
                reserve as nat,
            ).is_none(),
            Err(e) => campaign@.withdrawal_error(
                state@,
                caller,
                platform_recipient,
                cid as nat,
                amount as nat,
                held_funds as nat,
                reserve as nat,
            ) == Some(e),
        },
{
    match check_withdrawal_request(campaign, state, caller, platform_recipient, cid, amount) {
        Err(e) => {
            return Err(e);
        },
        Ok(_) => {},
    }
    if held_funds < reserve || amount > held_funds - reserve {
        return Err(ErrorCode::InsufficientFund);
    }
    Ok(())
}

/// Grants or refuses a withdrawal of `amount` by `caller` from the campaign
/// `cid`. Only the creator may withdraw, a whole unit at least, no more than
/// the campaign's balance, and no more than its account really holds above
/// `reserve`; the platform's share goes to the platform's own address and to
/// no other. A withdrawal that is granted is counted, taken off the balance
/// and split between creator and platform; the payments to make and the
/// receipt to store, with its key, are returned. A refusal changes nothing.
/// A withdrawal that is granted needs room in the record's counter and a fee
/// of no more than the whole: see [`Campaign::has_room_for_withdrawal`].
pub fn withdraw(
    campaign: &mut Campaign,
    state: &ProgramState,
    caller: Address,
    platform_recipient: Address,
    cid: u64,
    amount: u64,
    held_funds: u64,
    reserve: u64,
    timestamp: u64,
) -> (result: Result<Withdrawal, ErrorCode>)
    requires
        old(campaign)@.withdrawal_error(
            state@,
            caller,
            platform_recipient,
            cid as nat,
            amount as nat,
            held_funds as nat,
            reserve as nat,
        ).is_none() ==> old(campaign).has_room_for_withdrawal(state),
    ensures
        match result {
            Ok(withdrawal) => {
                &&& old(campaign)@.withdrawal_error(
                    state@,
                    caller,
                    platform_recipient,
                    cid as nat,
                    amount as nat,
                    held_funds as nat,
                    reserve as nat,
                ).is_none()
                &&& final(campaign)@ == old(campaign)@.withdrawn(amount as nat)
                &&& withdrawal.creator == caller
                &&& withdrawal.platform == state.platform_address
                &&& withdrawal.payout.platform_amount == platform_share(
                    amount as nat,
                    state.platform_fee as nat,
                )
                &&& withdrawal.payout.creator_amount == creator_share(
                    amount as nat,
                    state.platform_fee as nat,
                )
                &&& withdrawal.receipt == (Transaction {
                    owner: caller,
                    cid,
                    amount,
                    timestamp,
                    credited: false,
                })
                &&& withdrawal.key@ == old(campaign)@.withdrawal_key()
            },
            Err(e) => {
                &&& old(campaign)@.withdrawal_error(
                    state@,
                    caller,
                    platform_recipient,
                    cid as nat,
                    amount as nat,
                    held_funds as nat,
                    reserve as nat,
                ) == Some(e)
                &&& final(campaign)@ == old(campaign)@
            },
        },
        old(campaign).balance <= old(campaign).amount_raised
            ==> final(campaign).balance <= final(campaign).amount_raised,
        old(campaign).wf() ==> final(campaign).wf(),
{
    match check_withdrawal(
        campaign,
        state,
        caller,
        platform_recipient,
        cid,
        amount,
        held_funds,
        reserve,
    ) {
        Err(e) => {
            return Err(e);
        },
        Ok(_) => {},
    }
    let payout = split_withdrawal(amount, state.platform_fee);
    campaign.withdrawals = campaign.withdrawals + 1;
    campaign.balance = campaign.balance - amount;
    Ok(
        Withdrawal {
            creator: caller,
            platform: platform_recipient,
            payout,
            receipt: Transaction { owner: caller, cid, amount, timestamp, credited: false },
            key: ReceiptKey {
                owner: caller,
                cid,
                sequence: campaign.withdrawals,
                credited: false,
            },
        },
    )
}

} // verus!
