use vstd::prelude::*;

use crate::errors::StablebondError;
use crate::nav::bps_of;
use crate::nav::fee_amount;
use crate::nav::shares_for_value;
use crate::nav::shares_of_value;
use crate::pending::ConversionDirection;
use crate::pending::ConversionRecord;
use crate::pending::DepositStatus;
use crate::pending::PendingDeposit;
use crate::position::UserPosition;
use crate::protocol::ProtocolConfig;
use crate::source::YieldSource;

verus! {

/// Maximum age of an oracle quote, in seconds.
pub const MAX_ORACLE_STALENESS: i64 = 300;

/// Read contract of the price oracle: a quote for a currency pair.
#[derive(Clone, Copy, Debug, PartialEq, Eq)]
pub struct OraclePrice {
    /// The feed the quote was read from.
    pub feed: u64,
    /// Exchange rate: source currency per settlement unit, scaled 1e6.
    pub price: u64,
    /// Time the feed was last updated, as a unix timestamp.
    pub last_update: i64,
}

/// Gross settlement output of converting a source amount at a
/// 1e6-scaled rate: the same floor computation as share issuance.
pub open spec fn gross_settlement_of(source_amount: int, rate: int) -> int {
    shares_of_value(source_amount, rate)
}

/// The outcome of the validation cascade of a conversion request, in
/// the order the checks are applied: record linkage and status,
/// expiry, oracle feed identity, price validity and staleness, then
/// the settlement arithmetic with its slippage floor. On success it
/// carries the number of shares minted.
pub open spec fn conversion_result(
    config: ProtocolConfig,
    pending: PendingDeposit,
    pos: UserPosition,
    ys: YieldSource,
    oracle: OraclePrice,
    config_key: u64,
    now: i64,
) -> Result<u64, StablebondError> {
    let gross = gross_settlement_of(pending.source_amount as int, oracle.price as int);
    let fee = bps_of(gross, config.conversion_fee_bps as int);
    let net = gross - fee;
    let shares = shares_of_value(net, ys.nav_per_share as int);
    if pending.protocol_config != config_key {
        Err(StablebondError::InvalidPendingDeposit)
    } else if pending.status != DepositStatus::Pending {
        Err(StablebondError::InvalidPendingDeposit)
    } else if now > pending.expires_at {
        Err(StablebondError::DepositExpired)
    } else if oracle.feed != ys.oracle_feed {
        Err(StablebondError::InvalidOraclePrice)
    } else if oracle.price == 0 {
        Err(StablebondError::InvalidOraclePrice)
    } else if now - oracle.last_update > MAX_ORACLE_STALENESS {
        Err(StablebondError::StalePriceOracle)
    } else if gross > u64::MAX {
        Err(StablebondError::MathOverflow)
    } else if net < pending.min_output {
        Err(StablebondError::SlippageExceeded)
    } else if shares > u64::MAX || pos.current_shares + shares > u64::MAX || pos.cost_basis + net
        > u64::MAX || ys.total_deposited + net > u64::MAX || ys.total_shares + shares > u64::MAX
        || config.total_deposits + net > u64::MAX {
        Err(StablebondError::MathOverflow)
    } else {
        Ok(shares as u64)
    }
}

/// Resolves a pending cross-currency deposit: validates the record,
/// its expiry and the oracle quote, converts the source amount at the
/// quoted rate, deducts the conversion fee, enforces the slippage
/// floor, mints shares at the source's current NAV, and commits every
/// record update atomically, returning the immutable conversion
/// record. The runtime moves the settlement value between vaults.
pub fn handle_execute_conversion(
    config: &mut ProtocolConfig,
    pending: &mut PendingDeposit,
    pos: &mut UserPosition,
    ys: &mut YieldSource,
    oracle: &OraclePrice,
    config_key: u64,
    now: i64,
) -> (r: Result<ConversionRecord, StablebondError>)
    requires
        old(config).wf(),
        old(ys).wf(),
        old(pos).owner == old(pending).user,
        old(pos).bond_type == old(pending).bond_type,
        old(pos).protocol_config == config_key,
    ensures
        r is Err ==> {
            &&& *final(config) == *old(config)
            &&& *final(pending) == *old(pending)
            &&& *final(pos) == *old(pos)
            &&& *final(ys) == *old(ys)
        },
        r is Err <==> conversion_result(
            *old(config),
            *old(pending),
            *old(pos),
            *old(ys),
            *oracle,
            config_key,
            now,
        ) is Err,
        r is Err ==> r == Err::<ConversionRecord, StablebondError>(
            conversion_result(
                *old(config),
                *old(pending),
                *old(pos),
                *old(ys),
                *oracle,
                config_key,
                now,
            ).unwrap_err(),
        ),
        r is Ok ==> ({
            let gross = gross_settlement_of(old(pending).source_amount as int, oracle.price as int);
            let fee = bps_of(gross, old(config).conversion_fee_bps as int);
            let net = gross - fee;
            let shares = conversion_result(
                *old(config),
                *old(pending),
                *old(pos),
                *old(ys),
                *oracle,
                config_key,
                now,
            ).unwrap();
            &&& shares == shares_of_value(net, old(ys).nav_per_share as int)
            &&& r.unwrap() == (ConversionRecord {
                user: old(pending).user,
                protocol_config: config_key,
                bond_type: old(pending).bond_type,
                source_amount: old(pending).source_amount,
                settlement_amount: net as u64,
                exchange_rate: oracle.price,
                fee_amount: fee as u64,
                direction: ConversionDirection::NativeToSettlement,
                timestamp: now,
                nonce: old(pending).nonce,
            })
            &&& *final(pending) == (PendingDeposit {
                status: DepositStatus::Converted,
                conversion_rate: oracle.price,
                settlement_received: net as u64,
                fee_paid: fee as u64,
                ..*old(pending)
            })
            &&& *final(pos) == (UserPosition {
                current_shares: (old(pos).current_shares + shares) as u64,
                cost_basis: (old(pos).cost_basis + net) as u64,
                ..*old(pos)
            })
            &&& *final(ys) == (YieldSource {
                total_deposited: (old(ys).total_deposited + net) as u64,
                total_shares: (old(ys).total_shares + shares) as u64,
                ..*old(ys)
            })
            &&& *final(config) == (ProtocolConfig {
                total_deposits: (old(config).total_deposits + net) as u64,
                pending_conversion: if old(config).pending_conversion >= old(
                    pending,
                ).source_amount {
                    (old(config).pending_conversion - old(pending).source_amount) as u64
                } else {
                    0
                },
                updated_at: now,
                ..*old(config)
            })
            &&& final(ys).wf()
            &&& final(config).wf()
        }),
{
    if pending.protocol_config != config_key {
        return Err(StablebondError::InvalidPendingDeposit);
    }
    if !matches!(pending.status, DepositStatus::Pending) {
        return Err(StablebondError::InvalidPendingDeposit);
    }
    if now > pending.expires_at {
        return Err(StablebondError::DepositExpired);
    }
    if oracle.feed != ys.oracle_feed {
        return Err(StablebondError::InvalidOraclePrice);
    }
    if oracle.price == 0 {
        return Err(StablebondError::InvalidOraclePrice);
    }
    if (now as i128) - (oracle.last_update as i128) > MAX_ORACLE_STALENESS as i128 {
        return Err(StablebondError::StalePriceOracle);
    }
    let gross = match shares_for_value(pending.source_amount, oracle.price) {
        Ok(v) => v,
        Err(_) => {
            return Err(StablebondError::MathOverflow);
        },
    };
    let fee = fee_amount(gross, config.conversion_fee_bps);
    let net = gross - fee;
    if net < pending.min_output {
        return Err(StablebondError::SlippageExceeded);
    }
    let shares = match shares_for_value(net, ys.nav_per_share) {
        Ok(v) => v,
        Err(_) => {
            return Err(StablebondError::MathOverflow);
        },
    };
    let new_current_shares = match pos.current_shares.checked_add(shares) {
        Some(v) => v,
        None => {
            return Err(StablebondError::MathOverflow);
        },
    };
    let new_cost_basis = match pos.cost_basis.checked_add(net) {
        Some(v) => v,
        None => {
            return Err(StablebondError::MathOverflow);
        },
    };
    let new_ys_deposited = match ys.total_deposited.checked_add(net) {
        Some(v) => v,
        None => {
            return Err(StablebondError::MathOverflow);
        },
    };
    let new_ys_shares = match ys.total_shares.checked_add(shares) {
        Some(v) => v,
        None => {
            return Err(StablebondError::MathOverflow);
        },
    };
    let new_config_deposits = match config.total_deposits.checked_add(net) {
        Some(v) => v,
        None => {
            return Err(StablebondError::MathOverflow);
        },
    };
    pending.status = DepositStatus::Converted;
    pending.conversion_rate = oracle.price;
    pending.settlement_received = net;
    pending.fee_paid = fee;
    pos.current_shares = new_current_shares;
    pos.cost_basis = new_cost_basis;
    ys.total_deposited = new_ys_deposited;
    ys.total_shares = new_ys_shares;
    config.total_deposits = new_config_deposits;
    config.pending_conversion = config.pending_conversion.saturating_sub(pending.source_amount);
    config.updated_at = now;
    Ok(
        ConversionRecord {
            user: pending.user,
            protocol_config: config_key,
            bond_type: pending.bond_type,
            source_amount: pending.source_amount,
            settlement_amount: net,
            exchange_rate: oracle.price,
            fee_amount: fee,
            direction: ConversionDirection::NativeToSettlement,
            timestamp: now,
            nonce: pending.nonce,
        },
    )
}

} // verus!
