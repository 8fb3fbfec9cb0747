//! The error taxonomy shared by every operation of the ledger.

use vstd::prelude::*;

verus! {

/// Why an operation was refused.
///
/// Validation errors (bad length, zero target, past deadline, bad tier index)
/// are checked before any mutation. Authorization errors (wrong admin, wrong
/// owner, wrong treasury) are fatal to the call. State-conflict errors
/// (nullifier reuse, tier sold out, target met or not met, campaign not empty,
/// duplicate or missing sanction entry) signal a business-rule conflict.
/// Arithmetic errors surface a numeric limit distinctly, never wrapped.
/// `TransferFailed` propagates a failure of the external value-transfer
/// substrate; the enclosing operation then commits nothing.
#[derive(Clone, Copy, Debug, PartialEq, Eq, Structural)]
pub enum ErrorCode {
    InvalidTarget,
    InvalidDeadline,
    SanctionedAddress,
    InvalidProof,
    InvalidNullifier,
    TargetNotMet,
    CampaignActive,
    TargetMet,
    NameTooLong,
    DescriptionTooLong,
    InvalidTreasury,
    TooManyTiers,
    InvalidTierIndex,
    InsufficientAmountForTier,
    TierSoldOut,
    AccountNotInitialized,
    NoFundsToRefund,
    CampaignNotEmpty,
    Unauthorized,
    DuplicateSanction,
    SanctionNotFound,
    NullifierReused,
    ArithmeticOverflow,
    TransferFailed,
}

impl ErrorCode {
    /// A short stable label for logs and messages.
    pub fn label(&self) -> (s: &'static str) {
        match self {
            ErrorCode::InvalidTarget => "invalid target",
            ErrorCode::InvalidDeadline => "invalid deadline",
            ErrorCode::SanctionedAddress => "sanctioned address",
            ErrorCode::InvalidProof => "invalid proof",
            ErrorCode::InvalidNullifier => "invalid nullifier",
            ErrorCode::TargetNotMet => "target not met",
            ErrorCode::CampaignActive => "campaign active",
            ErrorCode::TargetMet => "target met",
            ErrorCode::NameTooLong => "name too long",
            ErrorCode::DescriptionTooLong => "description too long",
            ErrorCode::InvalidTreasury => "invalid treasury",
            ErrorCode::TooManyTiers => "too many tiers",
            ErrorCode::InvalidTierIndex => "invalid tier index",
            ErrorCode::InsufficientAmountForTier => "insufficient amount for tier",
            ErrorCode::TierSoldOut => "tier sold out",
            ErrorCode::AccountNotInitialized => "account not initialized",
            ErrorCode::NoFundsToRefund => "no funds to refund",
            ErrorCode::CampaignNotEmpty => "campaign not empty",
            ErrorCode::Unauthorized => "unauthorized",
            ErrorCode::DuplicateSanction => "duplicate sanction",
            ErrorCode::SanctionNotFound => "sanction not found",
            ErrorCode::NullifierReused => "nullifier reused",
            ErrorCode::ArithmeticOverflow => "arithmetic overflow",
            ErrorCode::TransferFailed => "transfer failed",
        }
    }
}

} // verus!
