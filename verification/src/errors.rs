use vstd::prelude::*;

verus! {

/// The taxonomy of failures: every rejected precondition surfaces a distinct,
/// stable error kind, grouped into these categories.
#[derive(Clone, Copy, Debug, PartialEq, Eq, Structural)]
pub enum ErrorCategory {
    Validation,
    Authorization,
    State,
    Deadline,
    Proof,
    Paused,
}

/// Every error the settlement core can return. All errors are terminal for the
/// current operation and leave all records exactly as they were before the call.
#[derive(Clone, Copy, Debug, PartialEq, Eq, Structural)]
pub enum SettlementError {
    /// Fills are disabled by administration.
    FillsArePaused,
    /// The caller-declared relay hash does not match the hash re-derived from
    /// the supplied relay parameters.
    InvalidRelayHash,
    /// The exclusivity window is open and the caller is not the exclusive relayer.
    NotExclusiveRelayer,
    /// The relay's fill deadline has passed.
    ExpiredFillDeadline,
    /// The relay is already in the terminal Filled status.
    RelayFilled,
    /// A slow fill was already requested for this relay.
    InvalidSlowFillRequest,
    /// Slow fills cannot be requested while the exclusivity window is open.
    NoSlowFillsInExclusivityWindow,
    /// The caller is not the relayer recorded on the fill record.
    NotRelayer,
    /// A fill record can be reclaimed only strictly after its fill deadline.
    CanOnlyCloseFillStatusPdaIfFillDeadlinePassed,
    /// The Merkle proof does not connect the leaf to the published root.
    InvalidMerkleProof,
    /// The executed-bit for this (bundle, leaf family, leaf index) is already set.
    ClaimedMerkleLeaf,
    /// The leaf names a destination chain other than this one.
    InvalidChainId,
    /// The refund leaf's parallel arrays disagree in length.
    InvalidRefundLeaf,
    /// A record that the operation needs does not exist.
    AccountNotInitialized,
    /// A record with this key already exists.
    AccountAlreadyInitialized,
    /// The caller is not the initializer recorded on the claim account.
    InvalidClaimInitializer,
    /// There is nothing to claim on this claim account.
    ZeroRefundClaim,
    /// A claim account with a positive balance cannot be closed.
    NonZeroRefundClaim,
    /// A monetary addition would overflow; the operation is aborted whole.
    ArithmeticOverflow,
}

impl SettlementError {
    /// The category an error kind belongs to.
    pub open spec fn spec_category(self) -> ErrorCategory {
        match self {
            SettlementError::FillsArePaused => ErrorCategory::Paused,
            SettlementError::InvalidRelayHash => ErrorCategory::Validation,
            SettlementError::NotExclusiveRelayer => ErrorCategory::Authorization,
            SettlementError::ExpiredFillDeadline => ErrorCategory::Deadline,
            SettlementError::RelayFilled => ErrorCategory::State,
            SettlementError::InvalidSlowFillRequest => ErrorCategory::State,
            SettlementError::NoSlowFillsInExclusivityWindow => ErrorCategory::Deadline,
            SettlementError::NotRelayer => ErrorCategory::Authorization,
            SettlementError::CanOnlyCloseFillStatusPdaIfFillDeadlinePassed => ErrorCategory::Deadline,
            SettlementError::InvalidMerkleProof => ErrorCategory::Proof,
            SettlementError::ClaimedMerkleLeaf => ErrorCategory::State,
            SettlementError::InvalidChainId => ErrorCategory::Validation,
            SettlementError::InvalidRefundLeaf => ErrorCategory::Validation,
            SettlementError::AccountNotInitialized => ErrorCategory::State,
            SettlementError::AccountAlreadyInitialized => ErrorCategory::State,
            SettlementError::InvalidClaimInitializer => ErrorCategory::Authorization,
            SettlementError::ZeroRefundClaim => ErrorCategory::State,
            SettlementError::NonZeroRefundClaim => ErrorCategory::State,
            SettlementError::ArithmeticOverflow => ErrorCategory::State,
        }
    }

    /// Executable view of the category, for external tooling that discriminates causes.
    pub fn category(&self) -> (r: ErrorCategory)
        ensures
            r == self.spec_category(),
    {
        match self {
            SettlementError::FillsArePaused => ErrorCategory::Paused,
            SettlementError::InvalidRelayHash => ErrorCategory::Validation,
            SettlementError::NotExclusiveRelayer => ErrorCategory::Authorization,
            SettlementError::ExpiredFillDeadline => ErrorCategory::Deadline,
            SettlementError::RelayFilled => ErrorCategory::State,
            SettlementError::InvalidSlowFillRequest => ErrorCategory::State,
            SettlementError::NoSlowFillsInExclusivityWindow => ErrorCategory::Deadline,
            SettlementError::NotRelayer => ErrorCategory::Authorization,
            SettlementError::CanOnlyCloseFillStatusPdaIfFillDeadlinePassed => ErrorCategory::Deadline,
            SettlementError::InvalidMerkleProof => ErrorCategory::Proof,
            SettlementError::ClaimedMerkleLeaf => ErrorCategory::State,
            SettlementError::InvalidChainId => ErrorCategory::Validation,
            SettlementError::InvalidRefundLeaf => ErrorCategory::Validation,
            SettlementError::AccountNotInitialized => ErrorCategory::State,
            SettlementError::AccountAlreadyInitialized => ErrorCategory::State,
            SettlementError::InvalidClaimInitializer => ErrorCategory::Authorization,
            SettlementError::ZeroRefundClaim => ErrorCategory::State,
            SettlementError::NonZeroRefundClaim => ErrorCategory::State,
            SettlementError::ArithmeticOverflow => ErrorCategory::State,
        }
    }
}

} // verus!
