use vstd::prelude::*;

verus! {

/// Every way in which a ledger operation can be refused.
#[derive(Clone, Copy, Debug, PartialEq, Eq, Structural)]
pub enum ErrorCode {
    MathOverflow,
    MathUnderflow,
    NoNftsStaked,
    NoRewardsToClaim,
    InvalidNft,
    NoCollectionFound,
    CollectionNotVerified,
    WrongCollection,
    VaultPaused,
    TooFrequent,
    TooFrequentClaim,
    InvalidTimeElapsed,
    ExcessiveRewardClaim,
    InvalidRewardRate,
    AlreadyPaused,
    NotPaused,
    Unauthorized,
    InsufficientPermissions,
    UpgradesLocked,
    UpgradePending,
    NoUpgradePending,
    InvalidVersion,
    InvalidTimelock,
    TimelockNotExpired,
    UpgradesAlreadyLocked,
    MintAuthorityTransferFailed,
    InvalidMintAuthority,
    CircuitBreakerActive,
    DailyLimitExceeded,
    InvalidMintAccount,
    InvalidPolicy,
}

} // verus!
