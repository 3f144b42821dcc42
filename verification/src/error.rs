//! The ways an operation can be refused.

use vstd::prelude::*;

verus! {

/// Why an operation was refused. Every refusal is final: the records it was
/// asked to change are left exactly as they were.
#[derive(Clone, Copy, Debug, PartialEq, Eq, Structural)]
pub enum ErrorCode {
    AlreadyInitialized,
    TitleTooLong,
    DescriptionTooLong,
    ImageUrlTooLong,
    InvalidGoalAmount,
    Unauthorized,
    CampaignNotFound,
    InactiveCampaign,
    InvalidDonationAmount,
    CampaignGoalActualized,
    InvalidWithdrawalAmount,
    InsufficientFund,
    InvalidPlatformAddress,
    InvalidPlatformFee,
}

impl ErrorCode {
    /// The diagnostic text that goes with each kind of refusal.
    pub open spec fn message_text(self) -> Seq<char> {
        match self {
            ErrorCode::AlreadyInitialized => "The program has already been initialized."@,
            ErrorCode::TitleTooLong => "Title exceeds the maximum length of 64 characters."@,
            ErrorCode::DescriptionTooLong => "Description exceeds the maximum length of 512 characters."@,
            ErrorCode::ImageUrlTooLong => "Image URL exceeds the maximum length of 256 characters."@,
            ErrorCode::InvalidGoalAmount => "Invalid goal amount. Goal must be greater than zero."@,
            ErrorCode::Unauthorized => "Unauthorized access."@,
            ErrorCode::CampaignNotFound => "Campaign not found."@,
            ErrorCode::InactiveCampaign => "Campaign is inactive."@,
            ErrorCode::InvalidDonationAmount => "Donation amount must be at least 1 SOL."@,
            ErrorCode::CampaignGoalActualized => "Campaign goal reached."@,
            ErrorCode::InvalidWithdrawalAmount => "Withdrawal amount must be at least 1 SOL."@,
            ErrorCode::InsufficientFund => "Insufficient funds in the campaign."@,
            ErrorCode::InvalidPlatformAddress => "The provided platform address is invalid."@,
            ErrorCode::InvalidPlatformFee => "Invalid platform fee percentage."@,
        }
    }

    /// A human-readable account of the refusal.
    pub fn message(&self) -> (text: &'static str)
        ensures
            text@ == self.message_text(),
    {
        match self {
            ErrorCode::AlreadyInitialized => "The program has already been initialized.",
            ErrorCode::TitleTooLong => "Title exceeds the maximum length of 64 characters.",
            ErrorCode::DescriptionTooLong => "Description exceeds the maximum length of 512 characters.",
            ErrorCode::ImageUrlTooLong => "Image URL exceeds the maximum length of 256 characters.",
            ErrorCode::InvalidGoalAmount => "Invalid goal amount. Goal must be greater than zero.",
            ErrorCode::Unauthorized => "Unauthorized access.",
            ErrorCode::CampaignNotFound => "Campaign not found.",
            ErrorCode::InactiveCampaign => "Campaign is inactive.",
            ErrorCode::InvalidDonationAmount => "Donation amount must be at least 1 SOL.",
            ErrorCode::CampaignGoalActualized => "Campaign goal reached.",
            ErrorCode::InvalidWithdrawalAmount => "Withdrawal amount must be at least 1 SOL.",
            ErrorCode::InsufficientFund => "Insufficient funds in the campaign.",
            ErrorCode::InvalidPlatformAddress => "The provided platform address is invalid.",
            ErrorCode::InvalidPlatformFee => "Invalid platform fee percentage.",
        }
    }
}

} // verus!
