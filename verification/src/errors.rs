use vstd::prelude::*;

verus! {

/// Typed failures of the core ledger operations.
#[derive(Clone, Copy, Debug, PartialEq, Eq, Structural)]
pub enum StablebondError {
    /// Protocol is not active.
    ProtocolNotActive,
    /// Caller is not the configured protocol authority.
    Unauthorized,
    /// No valid compliance whitelist entry for the user.
    KycRequired,
    /// Compliance verification has expired.
    KycExpired,
    /// The user's jurisdiction is blocked.
    JurisdictionRestricted,
    /// No identity record for the user.
    SovereignIdentityNotFound,
    /// Access tier too low for this operation.
    TierTooLow,
    /// Bond type not allowed for the user's tier.
    BondTypeNotAllowed,
    /// Monthly deposit limit exceeded for the tier and bond type.
    MonthlyLimitExceeded,
    /// Deposit amount must be greater than zero.
    ZeroDeposit,
    /// Pending deposit not found or in the wrong status.
    InvalidPendingDeposit,
    /// Pending deposit has expired.
    DepositExpired,
    /// Conversion output below the declared minimum.
    SlippageExceeded,
    /// Oracle price is older than the staleness window.
    StalePriceOracle,
    /// Oracle price is missing or non-positive.
    InvalidOraclePrice,
    /// Yield source is not active.
    YieldSourceNotActive,
    /// Yield source type not allowed for the user's tier.
    YieldSourceNotAllowed,
    /// Insufficient shares (or backing balance) for the withdrawal.
    InsufficientShares,
    /// No yield to claim.
    NoYieldToClaim,
    /// Withdrawal share count must be greater than zero.
    ZeroWithdrawal,
    /// Arithmetic overflow.
    MathOverflow,
    /// Deposit below the yield source minimum.
    BelowMinDeposit,
    /// Allocation would exceed the yield source maximum.
    ExceedsMaxAllocation,
    /// Fee parameter exceeds its cap.
    InvalidFee,
    /// Invalid collaborator record data.
    InvalidAccountData,
    /// Registry already holds the maximum number of bonds.
    MaxBondsReached,
    /// Bond type not found in the registry.
    BondTypeNotFound,
    /// Bond type already registered.
    BondTypeAlreadyRegistered,
}

/// Typed failures of the bond vault operations.
#[derive(Clone, Copy, Debug, PartialEq, Eq, Structural)]
pub enum BondVaultError {
    /// Vault is not active.
    VaultNotActive,
    /// Deposit amount must be greater than zero.
    ZeroDeposit,
    /// Insufficient shares for the withdrawal.
    InsufficientShares,
    /// Withdrawal share count must be greater than zero.
    ZeroWithdrawal,
    /// Caller is not the vault authority.
    Unauthorized,
    /// APY basis points above the cap.
    InvalidApy,
    /// Arithmetic overflow.
    MathOverflow,
    /// Vault balance cannot cover the withdrawal.
    InsufficientVaultBalance,
    /// Bond has matured; no further accrual.
    BondMatured,
}

} // verus!
