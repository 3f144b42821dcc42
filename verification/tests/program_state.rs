use crowdfunding::state::{DEFAULT_PLATFORM_FEE, MAX_PLATFORM_FEE, MIN_PLATFORM_FEE};
use crowdfunding::{initialize, update_platform_settings, Address, ErrorCode, ProgramState};

fn address(tag: u8) -> Address {
    Address::new([tag; 32])
}

fn ready(platform: Address) -> ProgramState {
    let mut state = ProgramState::new();
    assert_eq!(initialize(&mut state, platform), Ok(()));
    state
}

#[test]
fn new_state_is_blank() {
    let state = ProgramState::new();
    assert!(!state.initialized);
    assert_eq!(state.campaign_count, 0);
    assert_eq!(state.platform_fee, 0);
    assert_eq!(state.platform_address, Address::new([0; 32]));
    assert!(state.is_well_formed());
}

#[test]
fn initialize_sets_defaults() {
    let mut state = ProgramState::new();
    assert_eq!(initialize(&mut state, address(7)), Ok(()));
    assert!(state.initialized);
    assert_eq!(state.campaign_count, 0);
    assert_eq!(state.platform_fee, 5);
    assert_eq!(state.platform_fee, DEFAULT_PLATFORM_FEE);
    assert_eq!(state.platform_address, address(7));
    assert!(state.is_well_formed());
}

#[test]
fn initialize_twice_is_refused() {
    let mut state = ready(address(7));
    state.campaign_count = 3;
    state.platform_fee = 9;
    let before = state;
    assert_eq!(initialize(&mut state, address(8)), Err(ErrorCode::AlreadyInitialized));
    assert_eq!(state, before);
    assert_eq!(initialize(&mut state, address(7)), Err(ErrorCode::AlreadyInitialized));
    assert_eq!(state, before);
}

#[test]
fn fee_of_twenty_is_refused_and_fee_stays_five() {
    let mut state = ready(address(1));
    assert_eq!(
        update_platform_settings(&mut state, address(1), 20),
        Err(ErrorCode::InvalidPlatformFee)
    );
    assert_eq!(state.platform_fee, 5);
    assert_eq!(state, ready(address(1)));
}

#[test]
fn fee_bounds_are_one_and_fifteen() {
    assert_eq!(MIN_PLATFORM_FEE, 1);
    assert_eq!(MAX_PLATFORM_FEE, 15);
    let mut state = ready(address(1));
    assert_eq!(
        update_platform_settings(&mut state, address(1), 0),
        Err(ErrorCode::InvalidPlatformFee)
    );
    assert_eq!(state.platform_fee, 5);
    assert_eq!(update_platform_settings(&mut state, address(1), 1), Ok(()));
    assert_eq!(state.platform_fee, 1);
    assert_eq!(update_platform_settings(&mut state, address(1), 15), Ok(()));
    assert_eq!(state.platform_fee, 15);
    assert_eq!(
        update_platform_settings(&mut state, address(1), 16),
        Err(ErrorCode::InvalidPlatformFee)
    );
    assert_eq!(
        update_platform_settings(&mut state, address(1), u64::MAX),
        Err(ErrorCode::InvalidPlatformFee)
    );
    assert_eq!(state.platform_fee, 15);
}

#[test]
fn fee_update_changes_only_the_fee() {
    let mut state = ready(address(1));
    state.campaign_count = 42;
    assert_eq!(update_platform_settings(&mut state, address(1), 10), Ok(()));
    assert!(state.initialized);
    assert_eq!(state.campaign_count, 42);
    assert_eq!(state.platform_fee, 10);
    assert_eq!(state.platform_address, address(1));
}

#[test]
fn only_the_platform_updates_the_fee() {
    let mut state = ready(address(1));
    assert_eq!(
        update_platform_settings(&mut state, address(2), 10),
        Err(ErrorCode::Unauthorized)
    );
    assert_eq!(state.platform_fee, 5);
}

#[test]
fn stranger_with_bad_fee_is_unauthorized_first() {
    let mut state = ready(address(1));
    assert_eq!(
        update_platform_settings(&mut state, address(2), 20),
        Err(ErrorCode::Unauthorized)
    );
    assert_eq!(state, ready(address(1)));
}

#[test]
fn well_formedness_of_settings() {
    let mut state = ready(address(1));
    assert!(state.is_well_formed());
    state.platform_fee = 16;
    assert!(!state.is_well_formed());
    state.platform_fee = 0;
    assert!(!state.is_well_formed());
    state.initialized = false;
    assert!(state.is_well_formed());
}

#[test]
fn addresses_compare_by_bytes() {
    let mut bytes = [9u8; 32];
    assert_eq!(Address::new(bytes), address(9));
    bytes[31] = 8;
    assert_ne!(Address::new(bytes), address(9));
    bytes[31] = 9;
    bytes[0] = 0;
    assert_ne!(Address::new(bytes), address(9));
    assert_eq!(Address::new(bytes).to_bytes(), bytes);
}

#[test]
fn every_refusal_has_its_message() {
    assert_eq!(
        ErrorCode::AlreadyInitialized.message(),
        "The program has already been initialized."
    );
    assert_eq!(
        ErrorCode::TitleTooLong.message(),
        "Title exceeds the maximum length of 64 characters."
    );
    assert_eq!(
        ErrorCode::DescriptionTooLong.message(),
        "Description exceeds the maximum length of 512 characters."
    );
    assert_eq!(
        ErrorCode::ImageUrlTooLong.message(),
        "Image URL exceeds the maximum length of 256 characters."
    );
    assert_eq!(
        ErrorCode::InvalidGoalAmount.message(),
        "Invalid goal amount. Goal must be greater than zero."
    );
    assert_eq!(ErrorCode::Unauthorized.message(), "Unauthorized access.");
    assert_eq!(ErrorCode::CampaignNotFound.message(), "Campaign not found.");
    assert_eq!(ErrorCode::InactiveCampaign.message(), "Campaign is inactive.");
    assert_eq!(
        ErrorCode::InvalidDonationAmount.message(),
        "Donation amount must be at least 1 SOL."
    );
    assert_eq!(ErrorCode::CampaignGoalActualized.message(), "Campaign goal reached.");
    assert_eq!(
        ErrorCode::InvalidWithdrawalAmount.message(),
        "Withdrawal amount must be at least 1 SOL."
    );
    assert_eq!(ErrorCode::InsufficientFund.message(), "Insufficient funds in the campaign.");
    assert_eq!(
        ErrorCode::InvalidPlatformAddress.message(),
        "The provided platform address is invalid."
    );
    assert_eq!(ErrorCode::InvalidPlatformFee.message(), "Invalid platform fee percentage.");
}
