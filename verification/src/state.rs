//! The program's one settings record: how many campaigns exist, what the
//! platform charges, and who the platform is.

use vstd::prelude::*;
use crate::address::Address;
use crate::error::ErrorCode;

verus! {

/// The fee, in percent, that a freshly initialized program charges.
pub const DEFAULT_PLATFORM_FEE: u64 = 5;

/// The lowest fee, in percent, that the platform may set.
pub const MIN_PLATFORM_FEE: u64 = 1;

/// The highest fee, in percent, that the platform may set.
pub const MAX_PLATFORM_FEE: u64 = 15;

/// The settings record, as stored.
#[derive(Clone, Copy, Debug, PartialEq, Eq)]
pub struct ProgramState {
    pub initialized: bool,
    pub campaign_count: u64,
    pub platform_fee: u64,
    pub platform_address: Address,
}

/// The settings record with its numbers unbounded.
pub ghost struct ProgramStateView {
    pub initialized: bool,
    pub campaign_count: nat,
    pub platform_fee: nat,
    pub platform_address: Address,
}

impl ProgramStateView {
    /// The fee is never above the highest one allowed, and once the program is
    /// initialized it is never below the lowest.
    pub open spec fn wf(self) -> bool {
        &&& self.platform_fee <= MAX_PLATFORM_FEE
        &&& self.initialized ==> self.platform_fee >= MIN_PLATFORM_FEE
    }

    /// The record that `initialize` writes for `deployer`.
    pub open spec fn initialized_by(deployer: Address) -> ProgramStateView {
        ProgramStateView {
            initialized: true,
            campaign_count: 0,
            platform_fee: DEFAULT_PLATFORM_FEE as nat,
            platform_address: deployer,
        }
    }

    /// Why `updater` may not set the fee to `new_platform_fee`, if anything
    /// stands against it.
    pub open spec fn settings_error(
        self,
        updater: Address,
        new_platform_fee: nat,
    ) -> Option<ErrorCode> {
        if updater != self.platform_address {
            Some(ErrorCode::Unauthorized)
        } else if !(MIN_PLATFORM_FEE <= new_platform_fee <= MAX_PLATFORM_FEE) {
            Some(ErrorCode::InvalidPlatformFee)
        } else {
            None
        }
    }

    /// The record after one more campaign was counted.
    pub open spec fn with_one_more_campaign(self) -> ProgramStateView {
        ProgramStateView { campaign_count: self.campaign_count + 1, ..self }
    }

    /// The record with its fee replaced.
    pub open spec fn with_fee(self, new_platform_fee: nat) -> ProgramStateView {
        ProgramStateView { platform_fee: new_platform_fee, ..self }
    }
}

impl View for ProgramState {
    type V = ProgramStateView;

    open spec fn view(&self) -> ProgramStateView {
        ProgramStateView {
            initialized: self.initialized,
            campaign_count: self.campaign_count as nat,
            platform_fee: self.platform_fee as nat,
            platform_address: self.platform_address,
        }
    }
}

impl ProgramState {
    /// Validity of a stored record: see [`ProgramStateView::wf`].
    pub open spec fn wf(&self) -> bool {
        self@.wf()
    }

    /// The record before the program is set up: not initialized, no campaign,
    /// no fee, and the all-zero address in the platform's place.
    pub fn new() -> (state: ProgramState)
        ensures
            !state.initialized,
            state.campaign_count == 0,
            state.platform_fee == 0,
            state.platform_address@ == Seq::new(32, |i: int| 0u8),
            state.wf(),
    {
        let state = ProgramState {
            initialized: false,
            campaign_count: 0,
            platform_fee: 0,
            platform_address: Address::new([0u8; 32]),
        };
        assert(state.platform_address@ =~= Seq::new(32, |i: int| 0u8));
        state
    }

    /// Tells whether the record is valid.
    pub fn is_well_formed(&self) -> (valid: bool)
        ensures
            valid == self.wf(),
    {
        self.platform_fee <= MAX_PLATFORM_FEE
            && (!self.initialized || self.platform_fee >= MIN_PLATFORM_FEE)
    }
}

/// Sets the program up, once. `deployer` becomes the platform, no campaign
/// exists yet and the fee is the default one. A second call is refused and
/// changes nothing.
pub fn initialize(state: &mut ProgramState, deployer: Address) -> (result: Result<(), ErrorCode>)
    ensures
        old(state).initialized ==> {
            &&& result == Err::<(), ErrorCode>(ErrorCode::AlreadyInitialized)
            &&& *final(state) == *old(state)
        },
        !old(state).initialized ==> {
            &&& result.is_ok()
            &&& final(state)@ == ProgramStateView::initialized_by(deployer)
            &&& final(state).wf()
        },
{
    if state.initialized {
        return Err(ErrorCode::AlreadyInitialized);
    }
    state.campaign_count = 0;
    state.platform_fee = DEFAULT_PLATFORM_FEE;
    state.platform_address = deployer;
    state.initialized = true;
    Ok(())
}

/// Lets the platform, and nobody else, change its fee to a percentage from the
/// lowest to the highest allowed. A refusal changes nothing.
pub fn update_platform_settings(
    state: &mut ProgramState,
    updater: Address,
    new_platform_fee: u64,
) -> (result: Result<(), ErrorCode>)
    ensures
        match result {
            Ok(_) => old(state)@.settings_error(updater, new_platform_fee as nat).is_none()
                && final(state)@ == old(state)@.with_fee(new_platform_fee as nat),
            Err(e) => old(state)@.settings_error(updater, new_platform_fee as nat) == Some(e)
                && *final(state) == *old(state),
        },
        old(state).wf() ==> final(state).wf(),
{
    if updater != state.platform_address {
        return Err(ErrorCode::Unauthorized);
    }
    if new_platform_fee < MIN_PLATFORM_FEE || new_platform_fee > MAX_PLATFORM_FEE {
        return Err(ErrorCode::InvalidPlatformFee);
    }
    state.platform_fee = new_platform_fee;
    Ok(())
}

} // verus!
