use anchor_lang::solana_program::pubkey::Pubkey;
use anchor_lang::solana_program::{system_instruction, system_program};
use crowdfunding::{
    create_campaign, delete_campaign, initialize, request_donation, AccountRole, Address,
    Campaign, ErrorCode, ProgramState,
};

fn who(tag: u8) -> Address {
    Address::new([tag; 32])
}

fn open(goal: u64) -> Campaign {
    let mut state = ProgramState::new();
    assert_eq!(initialize(&mut state, who(100)), Ok(()));
    create_campaign(
        &mut state,
        who(1),
        String::from("Well"),
        String::from("A well for the village"),
        String::from("https://example.org/well.png"),
        goal,
        1_700_000_000,
    )
    .unwrap()
}

#[test]
fn donation_asks_for_a_system_transfer() {
    let campaign = open(2_000_000_000);
    let instruction = request_donation(&campaign, who(50), who(2), 1, 1_500_000_000).unwrap();
    assert_eq!(instruction.program, Address::new([0; 32]));
    assert_eq!(
        instruction.accounts,
        vec![
            AccountRole { address: who(2), is_signer: true, is_writable: true },
            AccountRole { address: who(50), is_signer: false, is_writable: true },
        ]
    );
    assert_eq!(instruction.data, vec![2, 0, 0, 0, 0x00, 0x2f, 0x68, 0x59, 0, 0, 0, 0]);
}

#[test]
fn transfer_data_holds_the_amount_low_byte_first() {
    let campaign = open(2_000_000_000);
    let amount = 0x0807_0605_0403_0201;
    let instruction = request_donation(&campaign, who(50), who(2), 1, amount).unwrap();
    assert_eq!(instruction.data, vec![2, 0, 0, 0, 1, 2, 3, 4, 5, 6, 7, 8]);
    let instruction = request_donation(&campaign, who(50), who(2), 1, u64::MAX).unwrap();
    assert_eq!(
        instruction.data,
        vec![2, 0, 0, 0, 255, 255, 255, 255, 255, 255, 255, 255]
    );
}

#[test]
fn instruction_is_the_one_the_system_program_defines() {
    let campaign = open(2_000_000_000);
    let ours = request_donation(&campaign, who(50), who(2), 1, 1_234_567_890).unwrap();
    let theirs = system_instruction::transfer(
        &Pubkey::new_from_array([2; 32]),
        &Pubkey::new_from_array([50; 32]),
        1_234_567_890,
    );
    assert_eq!(ours.program.to_bytes(), system_program::ID.to_bytes());
    assert_eq!(ours.program.to_bytes(), theirs.program_id.to_bytes());
    assert_eq!(ours.data, theirs.data);
    assert_eq!(ours.accounts.len(), theirs.accounts.len());
    for (role, meta) in ours.accounts.iter().zip(theirs.accounts.iter()) {
        assert_eq!(role.address.to_bytes(), meta.pubkey.to_bytes());
        assert_eq!(role.is_signer, meta.is_signer);
        assert_eq!(role.is_writable, meta.is_writable);
    }
}

#[test]
fn refused_donation_asks_for_no_payment() {
    let mut campaign = open(2_000_000_000);
    assert_eq!(
        request_donation(&campaign, who(50), who(2), 7, 1_000_000_000),
        Err(ErrorCode::CampaignNotFound)
    );
    assert_eq!(
        request_donation(&campaign, who(50), who(2), 1, 999_999_999),
        Err(ErrorCode::InvalidDonationAmount)
    );
    campaign.amount_raised = 2_000_000_000;
    campaign.balance = 2_000_000_000;
    campaign.donors = 1;
    assert_eq!(
        request_donation(&campaign, who(50), who(2), 1, 1_000_000_000),
        Err(ErrorCode::CampaignGoalActualized)
    );
    assert_eq!(delete_campaign(&mut campaign, who(1), 1), Ok(()));
    assert_eq!(
        request_donation(&campaign, who(50), who(2), 1, 1_000_000_000),
        Err(ErrorCode::InactiveCampaign)
    );
}
