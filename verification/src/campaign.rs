//! Campaign records: how one is opened, edited and closed to donations.

use vstd::prelude::*;
use vstd::string::StrSliceExecFns;
use crate::address::Address;
use crate::error::ErrorCode;
use crate::state::ProgramState;

verus! {

/// One whole unit of currency, counted in the smallest unit. It is the least
/// goal, the least donation and the least withdrawal.
pub const WHOLE_UNIT: u64 = 1_000_000_000;

/// The most characters a title may have.
pub const MAX_TITLE_LEN: usize = 64;

/// The most characters a description may have.
pub const MAX_DESCRIPTION_LEN: usize = 512;

/// The most characters an image address may have.
pub const MAX_IMAGE_URL_LEN: usize = 256;

/// A campaign record, as stored.
#[derive(Clone, Debug, PartialEq, Eq)]
pub struct Campaign {
    pub cid: u64,
    pub creator: Address,
    pub title: String,
    pub description: String,
    pub image_url: String,
    pub goal: u64,
    pub amount_raised: u64,
    pub timestamp: u64,
    pub donors: u64,
    pub withdrawals: u64,
    pub balance: u64,
    pub active: bool,
}

/// A campaign record with its texts as sequences of characters and its numbers
/// unbounded.
pub ghost struct CampaignView {
    pub cid: nat,
    pub creator: Address,
    pub title: Seq<char>,
    pub description: Seq<char>,
    pub image_url: Seq<char>,
    pub goal: nat,
    pub amount_raised: nat,
    pub timestamp: nat,
    pub donors: nat,
    pub withdrawals: nat,
    pub balance: nat,
    pub active: bool,
}

/// Why a campaign may not carry these texts and this goal, if anything stands
/// against them. The title is judged first, then the description, the image
/// address and the goal.
pub open spec fn details_error(
    title: Seq<char>,
    description: Seq<char>,
    image_url: Seq<char>,
    goal: nat,
) -> Option<ErrorCode> {
    if title.len() > MAX_TITLE_LEN {
        Some(ErrorCode::TitleTooLong)
    } else if description.len() > MAX_DESCRIPTION_LEN {
        Some(ErrorCode::DescriptionTooLong)
    } else if image_url.len() > MAX_IMAGE_URL_LEN {
        Some(ErrorCode::ImageUrlTooLong)
    } else if goal < WHOLE_UNIT {
        Some(ErrorCode::InvalidGoalAmount)
    } else {
        None
    }
}

impl CampaignView {
    /// Validity of a campaign record. The identifier is positive, texts and
    /// goal are within their bounds, and the books balance: every donation
    /// and every withdrawal was of a whole unit at least, and what is held
    /// plus what was withdrawn is no more than what was raised.
    pub open spec fn wf(self) -> bool {
        &&& self.cid >= 1
        &&& details_error(self.title, self.description, self.image_url, self.goal).is_none()
        &&& self.balance <= self.amount_raised
        &&& self.donors * WHOLE_UNIT <= self.amount_raised
        &&& self.withdrawals * WHOLE_UNIT + self.balance <= self.amount_raised
    }

    /// The record of a campaign that was just opened: active, with nothing
    /// raised, nothing held, no donor and no withdrawal.
    pub open spec fn opened(
        cid: nat,
        creator: Address,
        title: Seq<char>,
        description: Seq<char>,
        image_url: Seq<char>,
        goal: nat,
        timestamp: nat,
    ) -> CampaignView {
        CampaignView {
            cid,
            creator,
            title,
            description,
            image_url,
            goal,
            amount_raised: 0,
            timestamp,
            donors: 0,
            withdrawals: 0,
            balance: 0,
            active: true,
        }
    }

    /// Why `caller` may not act as the creator of the campaign `cid` on this
    /// record, if anything stands against it. Who is asking is judged before
    /// which campaign is asked for.
    pub open spec fn owner_error(self, caller: Address, cid: nat) -> Option<ErrorCode> {
        if self.creator != caller {
            Some(ErrorCode::Unauthorized)
        } else if self.cid != cid {
            Some(ErrorCode::CampaignNotFound)
        } else {
            None
        }
    }

    /// Why `caller` may not give the campaign `cid` these texts and this goal,
    /// if anything stands against it.
    pub open spec fn update_error(
        self,
        caller: Address,
        cid: nat,
        title: Seq<char>,
        description: Seq<char>,
        image_url: Seq<char>,
        goal: nat,
    ) -> Option<ErrorCode> {
        if self.owner_error(caller, cid).is_some() {
            self.owner_error(caller, cid)
        } else {
            details_error(title, description, image_url, goal)
        }
    }

    /// The record with new texts and a new goal, and all else as it was.
    pub open spec fn updated(
        self,
        title: Seq<char>,
        description: Seq<char>,
        image_url: Seq<char>,
        goal: nat,
    ) -> CampaignView {
        CampaignView { title, description, image_url, goal, ..self }
    }

    /// Why `caller` may not deactivate the campaign `cid`, if anything stands
    /// against it.
    pub open spec fn delete_error(self, caller: Address, cid: nat) -> Option<ErrorCode> {
        if self.owner_error(caller, cid).is_some() {
            self.owner_error(caller, cid)
        } else if !self.active {
            Some(ErrorCode::InactiveCampaign)
        } else {
            None
        }
    }

    /// The record once deactivated, and all else as it was.
    pub open spec fn deactivated(self) -> CampaignView {
        CampaignView { active: false, ..self }
    }
}

impl View for Campaign {
    type V = CampaignView;

    open spec fn view(&self) -> CampaignView {
        CampaignView {
            cid: self.cid as nat,
            creator: self.creator,
            title: self.title@,
            description: self.description@,
            image_url: self.image_url@,
            goal: self.goal as nat,
            amount_raised: self.amount_raised as nat,
            timestamp: self.timestamp as nat,
            donors: self.donors as nat,
            withdrawals: self.withdrawals as nat,
            balance: self.balance as nat,
            active: self.active,
        }
    }
}

impl Campaign {
    /// Validity of a stored record: see [`CampaignView::wf`].
    pub open spec fn wf(&self) -> bool {
        self@.wf()
    }

    /// Tells whether the record is valid.
    pub fn is_well_formed(&self) -> (valid: bool)
        ensures
            valid == self.wf(),
    {
        let unit: u128 = WHOLE_UNIT as u128;
        let raised: u128 = self.amount_raised as u128;
        self.cid >= 1 && check_details(
            self.title.as_str(),
            self.description.as_str(),
            self.image_url.as_str(),
            self.goal,
        ).is_ok() && self.balance <= self.amount_raised && self.donors as u128 * unit <= raised
            && self.withdrawals as u128 * unit + self.balance as u128 <= raised
    }
}

/// Judges the texts and the goal of a campaign: see [`details_error`].
pub fn check_details(
    title: &str,
    description: &str,
    image_url: &str,
    goal: u64,
) -> (result: Result<(), ErrorCode>)
    ensures
        match result {
            Ok(_) => details_error(title@, description@, image_url@, goal as nat).is_none(),
            Err(e) => details_error(title@, description@, image_url@, goal as nat) == Some(e),
        },
{
    if title.unicode_len() > MAX_TITLE_LEN {
        return Err(ErrorCode::TitleTooLong);
    }
    if description.unicode_len() > MAX_DESCRIPTION_LEN {
        return Err(ErrorCode::DescriptionTooLong);
    }
    if image_url.unicode_len() > MAX_IMAGE_URL_LEN {
        return Err(ErrorCode::ImageUrlTooLong);
    }
    if goal < WHOLE_UNIT {
        return Err(ErrorCode::InvalidGoalAmount);
    }
    Ok(())
}

/// Opens a campaign for `creator`. Texts and goal are judged first; a refusal
/// leaves the settings record as it was. Otherwise the campaign counter goes
/// up by one and its new value is the campaign's identifier, so that no
/// identifier is given out twice.
pub fn create_campaign(
    state: &mut ProgramState,
    creator: Address,
    title: String,
    description: String,
    image_url: String,
    goal: u64,
    timestamp: u64,
) -> (result: Result<Campaign, ErrorCode>)
    requires
        details_error(title@, description@, image_url@, goal as nat).is_none()
            ==> old(state).campaign_count < u64::MAX,
    ensures
        match result {
            Ok(campaign) => {
                &&& details_error(title@, description@, image_url@, goal as nat).is_none()
                &&& final(state)@ == old(state)@.with_one_more_campaign()
                &&& campaign@ == CampaignView::opened(
                    final(state)@.campaign_count,
                    creator,
                    title@,
                    description@,
                    image_url@,
                    goal as nat,
                    timestamp as nat,
                )
                &&& campaign.wf()
            },
            Err(e) => {
                &&& details_error(title@, description@, image_url@, goal as nat) == Some(e)
                &&& *final(state) == *old(state)
            },
        },
        old(state).wf() ==> final(state).wf(),
{
    match check_details(title.as_str(), description.as_str(), image_url.as_str(), goal) {
        Err(e) => {
            return Err(e);
        },
        Ok(_) => {},
    }
    state.campaign_count = state.campaign_count + 1;
    Ok(
        Campaign {
            cid: state.campaign_count,
            creator,
            title,
            description,
            image_url,
            goal,
            amount_raised: 0,
            timestamp,
            donors: 0,
            withdrawals: 0,
            balance: 0,
            active: true,
        },
    )
}

/// Gives a campaign new texts and a new goal. Only its creator may, and only
/// under the campaign's own identifier; the new details are judged as at
/// creation. Money and counters are not touched, and a refusal changes
/// nothing.
pub fn update_campaign(
    campaign: &mut Campaign,
    caller: Address,
    cid: u64,
    title: String,
    description: String,
    image_url: String,
    goal: u64,
) -> (result: Result<(), ErrorCode>)
    ensures
        match result {
            Ok(_) => {
                &&& old(campaign)@.update_error(
                    caller,
                    cid as nat,
                    title@,
                    description@,
                    image_url@,
                    goal as nat,
                ).is_none()
                &&& final(campaign)@ == old(campaign)@.updated(
                    title@,
                    description@,
                    image_url@,
                    goal as nat,
                )
            },
            Err(e) => {
                &&& old(campaign)@.update_error(
                    caller,
                    cid as nat,
                    title@,
                    description@,
                    image_url@,
                    goal as nat,
                ) == Some(e)
                &&& final(campaign)@ == old(campaign)@
            },
        },
        old(campaign).wf() ==> final(campaign).wf(),
{
    if campaign.creator != caller {
        return Err(ErrorCode::Unauthorized);
    }
    if campaign.cid != cid {
        return Err(ErrorCode::CampaignNotFound);
    }
    match check_details(title.as_str(), description.as_str(), image_url.as_str(), goal) {
        Err(e) => {
            return Err(e);
        },
        Ok(_) => {},
    }
    campaign.title = title;
    campaign.description = description;
    campaign.image_url = image_url;
    campaign.goal = goal;
    Ok(())
}

/// Closes a campaign to donations. Only its creator may, under the campaign's
/// own identifier, and only once. The record stays, with all that it holds; a
/// refusal changes nothing.
pub fn delete_campaign(
    campaign: &mut Campaign,
    caller: Address,
    cid: u64,
) -> (result: Result<(), ErrorCode>)
    ensures
        match result {
            Ok(_) => {
                &&& old(campaign)@.delete_error(caller, cid as nat).is_none()
                &&& final(campaign)@ == old(campaign)@.deactivated()
            },
            Err(e) => {
                &&& old(campaign)@.delete_error(caller, cid as nat) == Some(e)
                &&& final(campaign)@ == old(campaign)@
            },
        },
        old(campaign).wf() ==> final(campaign).wf(),
{
    if campaign.creator != caller {
        return Err(ErrorCode::Unauthorized);
    }
    if campaign.cid != cid {
        return Err(ErrorCode::CampaignNotFound);
    }
    if !campaign.active {
        return Err(ErrorCode::InactiveCampaign);
    }
    campaign.active = false;
    Ok(())
}

} // verus!
