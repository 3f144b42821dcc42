//! What holds of the operations taken together, over any run of them.

use vstd::prelude::*;
use crate::address::Address;
use crate::campaign::{details_error, CampaignView, WHOLE_UNIT};
use crate::error::ErrorCode;
use crate::ledger::{creator_share, platform_share, ReceiptKeyView};
use crate::state::{ProgramStateView, DEFAULT_PLATFORM_FEE};

verus! {

/// One attempt to open a campaign: the details that were offered.
pub ghost struct Creation {
    pub title: Seq<char>,
    pub description: Seq<char>,
    pub image_url: Seq<char>,
    pub goal: nat,
}

impl Creation {
    /// The attempt succeeds.
    pub open spec fn accepted(self) -> bool {
        details_error(self.title, self.description, self.image_url, self.goal).is_none()
    }
}

/// The settings record after a run of attempts to open campaigns: each one
/// that succeeds counts one campaign more, each one that fails changes
/// nothing.
pub open spec fn after_creations(state: ProgramStateView, attempts: Seq<Creation>) -> ProgramStateView
    decreases attempts.len(),
{
    if attempts.len() == 0 {
        state
    } else {
        let before = after_creations(state, attempts.drop_last());
        if attempts.last().accepted() {
            before.with_one_more_campaign()
        } else {
            before
        }
    }
}

/// The identifiers given out over a run of attempts to open campaigns, in the
/// order in which they were given: each attempt that succeeds gets the
/// counter's value after it was raised.
pub open spec fn assigned_ids(state: ProgramStateView, attempts: Seq<Creation>) -> Seq<nat>
    decreases attempts.len(),
{
    if attempts.len() == 0 {
        Seq::empty()
    } else {
        let earlier = assigned_ids(state, attempts.drop_last());
        let before = after_creations(state, attempts.drop_last());
        if attempts.last().accepted() {
            earlier.push(before.with_one_more_campaign().campaign_count)
        } else {
            earlier
        }
    }
}

/// Over any run of attempts to open campaigns, the identifiers given out are
/// consecutive: the first is one more than the counter was, and each next one
/// is one more than the one before. Attempts that fail use up no identifier.
/// The counter ends at the last identifier given out.
pub proof fn lemma_campaign_ids_are_consecutive(state: ProgramStateView, attempts: Seq<Creation>)
    ensures
        forall|i: int|
            0 <= i < assigned_ids(state, attempts).len() ==> #[trigger] assigned_ids(
                state,
                attempts,
            )[i] == state.campaign_count + 1 + i,
        after_creations(state, attempts).campaign_count == state.campaign_count + assigned_ids(
            state,
            attempts,
        ).len(),
        assigned_ids(state, attempts).len() <= attempts.len(),
    decreases attempts.len(),
{
    if attempts.len() > 0 {
        lemma_campaign_ids_are_consecutive(state, attempts.drop_last());
    }
}

/// From the moment the program is initialized, the identifiers given out are
/// 1, 2, 3 and so on: strictly increasing, and none given twice.
pub proof fn lemma_campaign_ids_start_at_one(deployer: Address, attempts: Seq<Creation>)
    ensures
        ({
            let ids = assigned_ids(ProgramStateView::initialized_by(deployer), attempts);
            &&& forall|i: int| 0 <= i < ids.len() ==> #[trigger] ids[i] == i + 1
            &&& forall|i: int, j: int| 0 <= i < j < ids.len() ==> ids[i] < ids[j]
        }),
{
    lemma_campaign_ids_are_consecutive(ProgramStateView::initialized_by(deployer), attempts);
}

/// One operation on a campaign record, with all that it was called with.
pub ghost enum Operation {
    Update {
        caller: Address,
        cid: nat,
        title: Seq<char>,
        description: Seq<char>,
        image_url: Seq<char>,
        goal: nat,
    },
    Delete { caller: Address, cid: nat },
    Donate { donor: Address, cid: nat, amount: nat, transferred: bool },
    Withdraw {
        state: ProgramStateView,
        caller: Address,
        platform_recipient: Address,
        cid: nat,
        amount: nat,
        held_funds: nat,
        reserve: nat,
    },
}

/// The record after one operation: changed as the operation says where it
/// succeeds, and as it was where it fails.
pub open spec fn after_operation(campaign: CampaignView, operation: Operation) -> CampaignView {
    match operation {
        Operation::Update { caller, cid, title, description, image_url, goal } => {
            if campaign.update_error(caller, cid, title, description, image_url, goal).is_none() {
                campaign.updated(title, description, image_url, goal)
            } else {
                campaign
            }
        },
        Operation::Delete { caller, cid } => {
            if campaign.delete_error(caller, cid).is_none() {
                campaign.deactivated()
            } else {
                campaign
            }
        },
        Operation::Donate { donor, cid, amount, transferred } => {
            if campaign.donation_error(cid, amount, transferred).is_none() {
                campaign.donated(amount)
            } else {
                campaign
            }
        },
        Operation::Withdraw {
            state,
            caller,
            platform_recipient,
            cid,
            amount,
            held_funds,
            reserve,
        } => {
            if campaign.withdrawal_error(
                state,
                caller,
                platform_recipient,
                cid,
                amount,
                held_funds,
                reserve,
            ).is_none() {
                campaign.withdrawn(amount)
            } else {
                campaign
            }
        },
    }
}

/// The record after a run of operations, one after the other.
pub open spec fn after_operations(campaign: CampaignView, operations: Seq<Operation>) -> CampaignView
    decreases operations.len(),
{
    if operations.len() == 0 {
        campaign
    } else {
        after_operation(after_operations(campaign, operations.drop_last()), operations.last())
    }
}

/// No operation makes a valid record invalid, takes back what was raised,
/// lowers a counter, changes the identifier or the creator, or reactivates a
/// campaign.
pub proof fn lemma_operation_keeps_the_books(campaign: CampaignView, operation: Operation)
    requires
        campaign.wf(),
    ensures
        ({
            let next = after_operation(campaign, operation);
            &&& next.wf()
            &&& next.balance <= next.amount_raised
            &&& next.cid == campaign.cid
            &&& next.creator == campaign.creator
            &&& next.amount_raised >= campaign.amount_raised
            &&& next.donors >= campaign.donors
            &&& next.withdrawals >= campaign.withdrawals
            &&& next.active ==> campaign.active
        }),
{
}

/// After every run of donations and withdrawals, and of updates and
/// deactivations among them, whether they succeed or fail, the campaign holds
/// no more than it has raised. Its record stays valid, what was raised and
/// the counters never go down, the identifier and the creator stay, and a
/// campaign that was deactivated stays so.
pub proof fn lemma_balance_never_exceeds_raised(campaign: CampaignView, operations: Seq<Operation>)
    requires
        campaign.wf(),
    ensures
        ({
            let last = after_operations(campaign, operations);
            &&& last.wf()
            &&& last.balance <= last.amount_raised
            &&& last.cid == campaign.cid
            &&& last.creator == campaign.creator
            &&& last.amount_raised >= campaign.amount_raised
            &&& last.donors >= campaign.donors
            &&& last.withdrawals >= campaign.withdrawals
            &&& last.active ==> campaign.active
        }),
    decreases operations.len(),
{
    if operations.len() > 0 {
        lemma_balance_never_exceeds_raised(campaign, operations.drop_last());
        lemma_operation_keeps_the_books(
            after_operations(campaign, operations.drop_last()),
            operations.last(),
        );
    }
}

/// The key of the receipt that one operation leaves to store, if it is a
/// donation or a withdrawal and succeeds.
pub open spec fn issued_key(
    campaign: CampaignView,
    operation: Operation,
) -> Option<ReceiptKeyView> {
    match operation {
        Operation::Donate { donor, cid, amount, transferred } => {
            if campaign.donation_error(cid, amount, transferred).is_none() {
                Some(campaign.donation_key(donor))
            } else {
                None
            }
        },
        Operation::Withdraw {
            state,
            caller,
            platform_recipient,
            cid,
            amount,
            held_funds,
            reserve,
        } => {
            if campaign.withdrawal_error(
                state,
                caller,
                platform_recipient,
                cid,
                amount,
                held_funds,
                reserve,
            ).is_none() {
                Some(campaign.withdrawal_key())
            } else {
                None
            }
        },
        _ => None,
    }
}

/// The keys of all the receipts that a run of operations leaves to store, in
/// the order in which they were written.
pub open spec fn issued_keys(
    campaign: CampaignView,
    operations: Seq<Operation>,
) -> Seq<ReceiptKeyView>
    decreases operations.len(),
{
    if operations.len() == 0 {
        Seq::empty()
    } else {
        let earlier = issued_keys(campaign, operations.drop_last());
        match issued_key(after_operations(campaign, operations.drop_last()), operations.last()) {
            Some(key) => earlier.push(key),
            None => earlier,
        }
    }
}

/// Every key that a run of operations gives out is numbered above the
/// campaign's counter at the start and no higher than its counter at the end.
pub proof fn lemma_issued_keys_are_numbered(campaign: CampaignView, operations: Seq<Operation>)
    ensures
        after_operations(campaign, operations).donors >= campaign.donors,
        after_operations(campaign, operations).withdrawals >= campaign.withdrawals,
        forall|i: int|
            0 <= i < issued_keys(campaign, operations).len() ==> {
                let key = #[trigger] issued_keys(campaign, operations)[i];
                if key.credited {
                    campaign.donors < key.sequence <= after_operations(campaign, operations).donors
                } else {
                    campaign.withdrawals < key.sequence <= after_operations(
                        campaign,
                        operations,
                    ).withdrawals
                }
            },
    decreases operations.len(),
{
    if operations.len() > 0 {
        let earlier = issued_keys(campaign, operations.drop_last());
        let before = after_operations(campaign, operations.drop_last());
        let last = after_operations(campaign, operations);
        lemma_issued_keys_are_numbered(campaign, operations.drop_last());
        assert(last == after_operation(before, operations.last()));
        assert(last.donors >= before.donors && last.withdrawals >= before.withdrawals);
        assert forall|i: int| 0 <= i < issued_keys(campaign, operations).len() implies {
            let key = #[trigger] issued_keys(campaign, operations)[i];
            if key.credited {
                campaign.donors < key.sequence <= last.donors
            } else {
                campaign.withdrawals < key.sequence <= last.withdrawals
            }
        } by {
            if i < earlier.len() {
                assert(issued_keys(campaign, operations)[i] == earlier[i]);
            }
        }
    }
}

/// No two receipts of a campaign are stored under the same key: over any run
/// of operations, the keys given out differ from one another.
pub proof fn lemma_receipt_keys_never_collide(campaign: CampaignView, operations: Seq<Operation>)
    ensures
        forall|i: int, j: int|
            0 <= i < j < issued_keys(campaign, operations).len() ==> issued_keys(
                campaign,
                operations,
            )[i] != issued_keys(campaign, operations)[j],
    decreases operations.len(),
{
    if operations.len() > 0 {
        let earlier = issued_keys(campaign, operations.drop_last());
        lemma_receipt_keys_never_collide(campaign, operations.drop_last());
        lemma_issued_keys_are_numbered(campaign, operations.drop_last());
        assert forall|i: int, j: int|
            0 <= i < j < issued_keys(campaign, operations).len() implies issued_keys(
            campaign,
            operations,
        )[i] != issued_keys(campaign, operations)[j] by {
            assert(issued_keys(campaign, operations)[i] == earlier[i]);
            if j < earlier.len() {
                assert(issued_keys(campaign, operations)[j] == earlier[j]);
            }
        }
    }
}

/// A campaign that was just opened with details that pass is valid, so all
/// that holds of valid records holds from the start.
pub proof fn lemma_opened_campaign_is_valid(
    cid: nat,
    creator: Address,
    attempt: Creation,
    timestamp: nat,
)
    requires
        cid >= 1,
        attempt.accepted(),
    ensures
        CampaignView::opened(
            cid,
            creator,
            attempt.title,
            attempt.description,
            attempt.image_url,
            attempt.goal,
            timestamp,
        ).wf(),
{
}

/// A withdrawal is split without loss: the platform's share, rounded down,
/// and the creator's share add up to the amount exactly, and neither is
/// negative.
pub proof fn lemma_split_loses_nothing(amount: nat, platform_fee: nat)
    requires
        platform_fee <= 100,
    ensures
        platform_share(amount, platform_fee) == amount * platform_fee / 100,
        creator_share(amount, platform_fee) == amount - amount * platform_fee / 100,
        creator_share(amount, platform_fee) + platform_share(amount, platform_fee) == amount,
        0 <= platform_share(amount, platform_fee) <= amount,
        0 <= creator_share(amount, platform_fee) <= amount,
{
    assert(amount * platform_fee <= amount * 100) by (nonlinear_arith)
        requires
            platform_fee <= 100,
    ;
}

/// At the default fee the platform gets five hundredths of the amount,
/// rounded down, and the creator the rest.
pub proof fn lemma_split_at_default_fee(amount: nat)
    ensures
        platform_share(amount, DEFAULT_PLATFORM_FEE as nat) == amount * 5 / 100,
        creator_share(amount, DEFAULT_PLATFORM_FEE as nat) == amount - amount * 5 / 100,
        creator_share(amount, DEFAULT_PLATFORM_FEE as nat) + platform_share(
            amount,
            DEFAULT_PLATFORM_FEE as nat,
        ) == amount,
{
}

/// A donation of less than a whole unit, a donation to a campaign that is not
/// active, and a donation to a campaign that has raised its goal are refused
/// before any money moves, whatever else is true, and leave the record as it
/// was.
pub proof fn lemma_donation_refused(
    campaign: CampaignView,
    donor: Address,
    cid: nat,
    amount: nat,
    transferred: bool,
)
    requires
        amount < WHOLE_UNIT || !campaign.active || campaign.amount_raised >= campaign.goal,
    ensures
        campaign.donation_refusal(cid, amount).is_some(),
        campaign.donation_error(cid, amount, transferred).is_some(),
        after_operation(campaign, (Operation::Donate { donor, cid, amount, transferred }))
            == campaign,
{
}

/// A withdrawal by anyone but the creator fails as unauthorized, whatever the
/// identifier, the amount, the campaign's state, the recipient and the funds,
/// and leaves the record as it was.
pub proof fn lemma_withdrawal_by_stranger_unauthorized(
    campaign: CampaignView,
    state: ProgramStateView,
    caller: Address,
    platform_recipient: Address,
    cid: nat,
    amount: nat,
    held_funds: nat,
    reserve: nat,
)
    requires
        caller != campaign.creator,
    ensures
        campaign.withdrawal_refusal(state, caller, platform_recipient, cid, amount) == Some(
            ErrorCode::Unauthorized,
        ),
        campaign.withdrawal_error(
            state,
            caller,
            platform_recipient,
            cid,
            amount,
            held_funds,
            reserve,
        ) == Some(ErrorCode::Unauthorized),
        after_operation(
            campaign,
            (Operation::Withdraw {
                state,
                caller,
                platform_recipient,
                cid,
                amount,
                held_funds,
                reserve,
            }),
        ) == campaign,
{
}

} // verus!
