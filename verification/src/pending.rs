use vstd::prelude::*;

use crate::instrument::BondType;

verus! {

/// Lifetime of a pending cross-currency deposit, in seconds (24 hours).
pub const EXPIRY_SECONDS: i64 = 24 * 60 * 60;

/// Status of a cross-currency deposit.
#[derive(Clone, Copy, Debug, PartialEq, Eq, Structural)]
pub enum DepositStatus {
    Pending,
    Converting,
    Converted,
    Cancelled,
    Expired,
}

/// Direction of a currency conversion.
#[derive(Clone, Copy, Debug, PartialEq, Eq, Structural)]
pub enum ConversionDirection {
    JpyToUsdc,
    UsdcToJpy,
    MxnToUsdc,
    BrlToUsdc,
    /// Generic: bond's native currency to settlement currency.
    NativeToSettlement,
    /// Generic: settlement currency to bond's native currency.
    SettlementToNative,
}

/// A cross-currency deposit awaiting conversion.
#[derive(Clone, Copy, Debug, PartialEq, Eq)]
pub struct PendingDeposit {
    /// Depositor.
    pub user: u64,
    /// Protocol configuration record this deposit belongs to.
    pub protocol_config: u64,
    /// Bond type this deposit targets.
    pub bond_type: BondType,
    /// Source amount deposited, in source currency minor units.
    pub source_amount: u64,
    /// Minimum acceptable settlement output (slippage floor).
    pub min_output: u64,
    /// Deposit timestamp.
    pub deposited_at: i64,
    /// Expiry timestamp, 24 hours after the deposit.
    pub expires_at: i64,
    /// Current status.
    pub status: DepositStatus,
    /// Exchange rate realized on conversion (source per settlement,
    /// scaled 1e6); zero until converted.
    pub conversion_rate: u64,
    /// Settlement currency received on conversion; zero until converted.
    pub settlement_received: u64,
    /// Fee paid in settlement currency; zero until converted.
    pub fee_paid: u64,
    /// Deposit nonce, unique per protocol configuration.
    pub nonce: u64,
}

/// An immutable record of a resolved conversion.
#[derive(Clone, Copy, Debug, PartialEq, Eq)]
pub struct ConversionRecord {
    /// User the conversion was executed for.
    pub user: u64,
    /// Protocol configuration record the conversion belongs to.
    pub protocol_config: u64,
    /// Bond type the conversion was for.
    pub bond_type: BondType,
    /// Source currency amount, in minor units.
    pub source_amount: u64,
    /// Settlement currency amount, in minor units.
    pub settlement_amount: u64,
    /// Exchange rate used (source per settlement, scaled 1e6).
    pub exchange_rate: u64,
    /// Fee amount in settlement currency minor units.
    pub fee_amount: u64,
    /// Direction of the conversion.
    pub direction: ConversionDirection,
    /// Timestamp of the conversion.
    pub timestamp: i64,
    /// Nonce of the pending deposit that was resolved.
    pub nonce: u64,
}

} // verus!
