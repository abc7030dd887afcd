use vstd::prelude::*;

use crate::errors::StablebondError;
use crate::identity::ComplianceEntry;
use crate::identity::SovereignIdentity;
use crate::identity::kyc_failure;
use crate::identity::read_sovereign_tier;
use crate::identity::validate_kyc;
use crate::instrument::BondType;
use crate::nav::shares_for_value;
use crate::nav::shares_of_value;
use crate::pending::DepositStatus;
use crate::pending::EXPIRY_SECONDS;
use crate::pending::PendingDeposit;
use crate::position::UserPosition;
use crate::position::month_start_after_reset;
use crate::position::monthly_after_reset;
use crate::protocol::ProtocolConfig;
use crate::source::YieldSource;
use crate::tier::bond_allowed_for_tier;
use crate::tier::monthly_limit;
use crate::tier::monthly_limit_for;
use crate::tier::source_allowed_for_tier;
use crate::tier::tier_allows_bond;
use crate::tier::tier_allows_source;

verus! {

/// A position as it stands after a deposit request touched it: a
/// freshly allocated record is stamped with its owner, linkage, bond
/// type and creation time; an existing record is untouched.
pub open spec fn initialized_position(
    pos: UserPosition,
    user: u64,
    config_key: u64,
    bond_type: BondType,
    now: i64,
) -> UserPosition {
    if pos.created_at == 0 {
        UserPosition {
            owner: user,
            protocol_config: config_key,
            bond_type,
            created_at: now,
            month_start: now,
            ..pos
        }
    } else {
        pos
    }
}

/// The outcome of the validation cascade of a cross-currency deposit
/// request, in the order the checks are applied: protocol active,
/// non-zero amount, compliance, identity and tier, bond access for
/// the tier, then the rolling monthly ceiling and counter overflow.
pub open spec fn cross_deposit_result(
    config: ProtocolConfig,
    pos: UserPosition,
    entry: ComplianceEntry,
    identity: SovereignIdentity,
    user: u64,
    config_key: u64,
    amount: u64,
    bond_type: BondType,
    now: i64,
) -> Result<(), StablebondError> {
    let p0 = initialized_position(pos, user, config_key, bond_type, now);
    if !config.is_active {
        Err(StablebondError::ProtocolNotActive)
    } else if amount == 0 {
        Err(StablebondError::ZeroDeposit)
    } else if kyc_failure(entry, user, now) is Some {
        Err(kyc_failure(entry, user, now).unwrap())
    } else if identity.owner != user {
        Err(StablebondError::SovereignIdentityNotFound)
    } else if identity.tier == 0 {
        Err(StablebondError::TierTooLow)
    } else if !tier_allows_bond(identity.tier, bond_type) {
        Err(StablebondError::BondTypeNotAllowed)
    } else if monthly_after_reset(p0, now) + amount > u64::MAX {
        Err(StablebondError::MathOverflow)
    } else if monthly_after_reset(p0, now) + amount > monthly_limit_for(identity.tier, bond_type) {
        Err(StablebondError::MonthlyLimitExceeded)
    } else if p0.total_deposited + amount > u64::MAX || p0.deposit_count + 1 > u32::MAX
        || config.pending_conversion + amount > u64::MAX {
        Err(StablebondError::MathOverflow)
    } else {
        Ok(())
    }
}

/// The pending record a successful cross-currency deposit creates.
pub open spec fn pending_of_request(
    config: ProtocolConfig,
    user: u64,
    config_key: u64,
    amount: u64,
    bond_type: BondType,
    min_output: u64,
    now: i64,
) -> PendingDeposit {
    PendingDeposit {
        user,
        protocol_config: config_key,
        bond_type,
        source_amount: amount,
        min_output,
        deposited_at: now,
        expires_at: (now + EXPIRY_SECONDS) as i64,
        status: DepositStatus::Pending,
        conversion_rate: 0,
        settlement_received: 0,
        fee_paid: 0,
        nonce: (config.deposit_nonce + 1) as u64,
    }
}

/// The position state after a successful cross-currency deposit.
pub open spec fn position_after_cross(
    pos: UserPosition,
    identity: SovereignIdentity,
    config: ProtocolConfig,
    user: u64,
    config_key: u64,
    amount: u64,
    bond_type: BondType,
    now: i64,
) -> UserPosition {
    let p0 = initialized_position(pos, user, config_key, bond_type, now);
    UserPosition {
        sovereign_tier: identity.tier,
        monthly_deposited: (monthly_after_reset(p0, now) + amount) as u64,
        month_start: month_start_after_reset(p0, now),
        total_deposited: (p0.total_deposited + amount) as u64,
        deposit_count: (p0.deposit_count + 1) as u32,
        last_deposit_at: now,
        deposit_nonce: (config.deposit_nonce + 1) as u64,
        ..p0
    }
}

/// Requests a cross-currency deposit: validates eligibility and the
/// monthly ceiling against the source-currency amount, then creates a
/// pending record with a 24-hour expiry. No shares are issued yet;
/// the runtime moves the source value into the holding vault.
pub fn handle_deposit_cross_currency(
    config: &mut ProtocolConfig,
    pos: &mut UserPosition,
    entry: &ComplianceEntry,
    identity: &SovereignIdentity,
    user: u64,
    config_key: u64,
    amount: u64,
    bond_type: BondType,
    min_output: u64,
    now: i64,
) -> (r: Result<PendingDeposit, StablebondError>)
    requires
        old(config).wf(),
        old(pos).wf(),
        old(pos).created_at == 0 ==> old(pos).is_blank(),
        old(pos).created_at != 0 ==> old(pos).owner == user && old(pos).protocol_config
            == config_key && old(pos).bond_type == bond_type,
        0 <= now <= i64::MAX - EXPIRY_SECONDS,
        old(config).deposit_nonce < u64::MAX,
    ensures
        r is Err ==> *final(config) == *old(config) && *final(pos) == *old(pos),
        r is Err <==> cross_deposit_result(
            *old(config),
            *old(pos),
            *entry,
            *identity,
            user,
            config_key,
            amount,
            bond_type,
            now,
        ) is Err,
        r is Err ==> r == Err::<PendingDeposit, StablebondError>(
            cross_deposit_result(
                *old(config),
                *old(pos),
                *entry,
                *identity,
                user,
                config_key,
                amount,
                bond_type,
                now,
            ).unwrap_err(),
        ),
        r is Ok ==> {
            &&& r.unwrap() == pending_of_request(
                *old(config),
                user,
                config_key,
                amount,
                bond_type,
                min_output,
                now,
            )
            &&& *final(pos) == position_after_cross(
                *old(pos),
                *identity,
                *old(config),
                user,
                config_key,
                amount,
                bond_type,
                now,
            )
            &&& *final(config) == (ProtocolConfig {
                deposit_nonce: (old(config).deposit_nonce + 1) as u64,
                pending_conversion: (old(config).pending_conversion + amount) as u64,
                updated_at: now,
                ..*old(config)
            })
            &&& final(pos).wf()
            &&& final(config).wf()
        },
{
    if !config.is_active {
        return Err(StablebondError::ProtocolNotActive);
    }
    if amount == 0 {
        return Err(StablebondError::ZeroDeposit);
    }
    if let Err(e) = validate_kyc(entry, user, now) {
        return Err(e);
    }
    let tier = match read_sovereign_tier(identity, user) {
        Ok(t) => t,
        Err(e) => {
            return Err(e);
        },
    };
    if tier == 0 {
        return Err(StablebondError::TierTooLow);
    }
    if !bond_allowed_for_tier(tier, bond_type) {
        return Err(StablebondError::BondTypeNotAllowed);
    }
    let fresh = pos.created_at == 0;
    let base_month_start: i64 = if fresh {
        now
    } else {
        pos.month_start
    };
    let base_monthly: u64 = if fresh || now - base_month_start >= crate::position::MONTH_SECONDS {
        0
    } else {
        pos.monthly_deposited
    };
    let new_monthly = match base_monthly.checked_add(amount) {
        Some(v) => v,
        None => {
            return Err(StablebondError::MathOverflow);
        },
    };
    let limit = monthly_limit(tier, bond_type);
    if new_monthly > limit {
        return Err(StablebondError::MonthlyLimitExceeded);
    }
    let new_total_deposited = match pos.total_deposited.checked_add(amount) {
        Some(v) => v,
        None => {
            return Err(StablebondError::MathOverflow);
        },
    };
    let new_deposit_count = match pos.deposit_count.checked_add(1) {
        Some(v) => v,
        None => {
            return Err(StablebondError::MathOverflow);
        },
    };
    let new_pending_conversion = match config.pending_conversion.checked_add(amount) {
        Some(v) => v,
        None => {
            return Err(StablebondError::MathOverflow);
        },
    };
    let nonce = config.deposit_nonce + 1;
    if fresh {
        pos.owner = user;
        pos.protocol_config = config_key;
        pos.bond_type = bond_type;
        pos.created_at = now;
        pos.month_start = now;
    }
    pos.maybe_reset_monthly(now);
    pos.sovereign_tier = tier;
    pos.monthly_deposited = new_monthly;
    pos.total_deposited = new_total_deposited;
    pos.deposit_count = new_deposit_count;
    pos.last_deposit_at = now;
    pos.deposit_nonce = nonce;
    config.deposit_nonce = nonce;
    config.pending_conversion = new_pending_conversion;
    config.updated_at = now;
    Ok(
        PendingDeposit {
            user,
            protocol_config: config_key,
            bond_type,
            source_amount: amount,
            min_output,
            deposited_at: now,
            expires_at: now + EXPIRY_SECONDS,
            status: DepositStatus::Pending,
            conversion_rate: 0,
            settlement_received: 0,
            fee_paid: 0,
            nonce,
        },
    )
}

/// The outcome of the validation cascade of a direct deposit, in the
/// order the checks are applied; on success it carries the number of
/// shares minted at the source's current NAV.
pub open spec fn direct_deposit_result(
    config: ProtocolConfig,
    ys: YieldSource,
    pos: UserPosition,
    entry: ComplianceEntry,
    identity: SovereignIdentity,
    user: u64,
    config_key: u64,
    amount: u64,
    bond_type: BondType,
    now: i64,
) -> Result<u64, StablebondError> {
    let p0 = initialized_position(pos, user, config_key, bond_type, now);
    let shares = shares_of_value(amount as int, ys.nav_per_share as int);
    if !config.is_active {
        Err(StablebondError::ProtocolNotActive)
    } else if amount == 0 {
        Err(StablebondError::ZeroDeposit)
    } else if !ys.is_active {
        Err(StablebondError::YieldSourceNotActive)
    } else if amount < ys.min_deposit {
        Err(StablebondError::BelowMinDeposit)
    } else if ys.bond_type != bond_type {
        Err(StablebondError::BondTypeNotFound)
    } else if kyc_failure(entry, user, now) is Some {
        Err(kyc_failure(entry, user, now).unwrap())
    } else if identity.owner != user {
        Err(StablebondError::SovereignIdentityNotFound)
    } else if identity.tier == 0 {
        Err(StablebondError::TierTooLow)
    } else if !tier_allows_bond(identity.tier, bond_type) {
        Err(StablebondError::BondTypeNotAllowed)
    } else if !tier_allows_source(identity.tier, ys.source_type) {
        Err(StablebondError::YieldSourceNotAllowed)
    } else if monthly_after_reset(p0, now) + amount > u64::MAX {
        Err(StablebondError::MathOverflow)
    } else if monthly_after_reset(p0, now) + amount > monthly_limit_for(identity.tier, bond_type) {
        Err(StablebondError::MonthlyLimitExceeded)
    } else if shares > u64::MAX || ys.total_deposited + amount > u64::MAX || ys.total_shares
        + shares > u64::MAX || p0.total_deposited + amount > u64::MAX || p0.current_shares + shares
        > u64::MAX || p0.cost_basis + amount > u64::MAX || p0.deposit_count + 1 > u32::MAX
        || config.total_deposits + amount > u64::MAX {
        Err(StablebondError::MathOverflow)
    } else {
        Ok(shares as u64)
    }
}

/// The position state after a successful direct deposit of `amount`
/// minting `shares`.
pub open spec fn position_after_direct(
    pos: UserPosition,
    identity: SovereignIdentity,
    user: u64,
    config_key: u64,
    amount: u64,
    shares: u64,
    bond_type: BondType,
    now: i64,
) -> UserPosition {
    let p0 = initialized_position(pos, user, config_key, bond_type, now);
    UserPosition {
        sovereign_tier: identity.tier,
        monthly_deposited: (monthly_after_reset(p0, now) + amount) as u64,
        month_start: month_start_after_reset(p0, now),
        total_deposited: (p0.total_deposited + amount) as u64,
        current_shares: (p0.current_shares + shares) as u64,
        cost_basis: (p0.cost_basis + amount) as u64,
        deposit_count: (p0.deposit_count + 1) as u32,
        last_deposit_at: now,
        ..p0
    }
}

/// Deposits settlement currency directly into a yield source:
/// validates eligibility and the monthly ceiling, mints shares at the
/// source's current NAV, and credits the position, the source and the
/// protocol totals atomically. The runtime moves the value into the
/// source's deposit vault.
pub fn handle_deposit_direct(
    config: &mut ProtocolConfig,
    ys: &mut YieldSource,
    pos: &mut UserPosition,
    entry: &ComplianceEntry,
    identity: &SovereignIdentity,
    user: u64,
    config_key: u64,
    amount: u64,
    bond_type: BondType,
    now: i64,
) -> (r: Result<u64, StablebondError>)
    requires
        old(config).wf(),
        old(ys).wf(),
        old(pos).wf(),
        old(pos).created_at == 0 ==> old(pos).is_blank(),
        old(pos).created_at != 0 ==> old(pos).owner == user && old(pos).protocol_config
            == config_key && old(pos).bond_type == bond_type,
        0 <= now,
    ensures
        r is Err ==> *final(config) == *old(config) && *final(ys) == *old(ys) && *final(pos)
            == *old(pos),
        r == direct_deposit_result(
            *old(config),
            *old(ys),
            *old(pos),
            *entry,
            *identity,
            user,
            config_key,
            amount,
            bond_type,
            now,
        ),
        r is Ok ==> {
            &&& *final(ys) == (YieldSource {
                total_deposited: (old(ys).total_deposited + amount) as u64,
                total_shares: (old(ys).total_shares + r.unwrap()) as u64,
                ..*old(ys)
            })
            &&& *final(pos) == position_after_direct(
                *old(pos),
                *identity,
                user,
                config_key,
                amount,
                r.unwrap(),
                bond_type,
                now,
            )
            &&& *final(config) == (ProtocolConfig {
                total_deposits: (old(config).total_deposits + amount) as u64,
                updated_at: now,
                ..*old(config)
            })
            &&& final(ys).wf()
            &&& final(pos).wf()
            &&& final(config).wf()
        },
{
    if !config.is_active {
        return Err(StablebondError::ProtocolNotActive);
    }
    if amount == 0 {
        return Err(StablebondError::ZeroDeposit);
    }
    if !ys.is_active {
        return Err(StablebondError::YieldSourceNotActive);
    }
    if amount < ys.min_deposit {
        return Err(StablebondError::BelowMinDeposit);
    }
    if ys.bond_type != bond_type {
        return Err(StablebondError::BondTypeNotFound);
    }
    if let Err(e) = validate_kyc(entry, user, now) {
        return Err(e);
    }
    let tier = match read_sovereign_tier(identity, user) {
        Ok(t) => t,
        Err(e) => {
            return Err(e);
        },
    };
    if tier == 0 {
        return Err(StablebondError::TierTooLow);
    }
    if !bond_allowed_for_tier(tier, bond_type) {
        return Err(StablebondError::BondTypeNotAllowed);
    }
    if !source_allowed_for_tier(tier, ys.source_type) {
        return Err(StablebondError::YieldSourceNotAllowed);
    }
    let fresh = pos.created_at == 0;
    let base_month_start: i64 = if fresh {
        now
    } else {
        pos.month_start
    };
    let base_monthly: u64 = if fresh || now - base_month_start >= crate::position::MONTH_SECONDS {
        0
    } else {
        pos.monthly_deposited
    };
    let new_monthly = match base_monthly.checked_add(amount) {
        Some(v) => v,
        None => {
            return Err(StablebondError::MathOverflow);
        },
    };
    let limit = monthly_limit(tier, bond_type);
    if new_monthly > limit {
        return Err(StablebondError::MonthlyLimitExceeded);
    }
    let shares = match shares_for_value(amount, ys.nav_per_share) {
        Ok(s) => s,
        Err(_) => {
            return Err(StablebondError::MathOverflow);
        },
    };
    let new_ys_deposited = match ys.total_deposited.checked_add(amount) {
        Some(v) => v,
        None => {
            return Err(StablebondError::MathOverflow);
        },
    };
    let new_ys_shares = match ys.total_shares.checked_add(shares) {
        Some(v) => v,
        None => {
            return Err(StablebondError::MathOverflow);
        },
    };
    let new_total_deposited = match pos.total_deposited.checked_add(amount) {
        Some(v) => v,
        None => {
            return Err(StablebondError::MathOverflow);
        },
    };
    let new_current_shares = match pos.current_shares.checked_add(shares) {
        Some(v) => v,
        None => {
            return Err(StablebondError::MathOverflow);
        },
    };
    let new_cost_basis = match pos.cost_basis.checked_add(amount) {
        Some(v) => v,
        None => {
            return Err(StablebondError::MathOverflow);
        },
    };
    let new_deposit_count = match pos.deposit_count.checked_add(1) {
        Some(v) => v,
        None => {
            return Err(StablebondError::MathOverflow);
        },
    };
    let new_config_deposits = match config.total_deposits.checked_add(amount) {
        Some(v) => v,
        None => {
            return Err(StablebondError::MathOverflow);
        },
    };
    if fresh {
        pos.owner = user;
        pos.protocol_config = config_key;
        pos.bond_type = bond_type;
        pos.created_at = now;
        pos.month_start = now;
    }
    pos.maybe_reset_monthly(now);
    pos.sovereign_tier = tier;
    pos.monthly_deposited = new_monthly;
    pos.total_deposited = new_total_deposited;
    pos.current_shares = new_current_shares;
    pos.cost_basis = new_cost_basis;
    pos.deposit_count = new_deposit_count;
    pos.last_deposit_at = now;
    ys.total_deposited = new_ys_deposited;
    ys.total_shares = new_ys_shares;
    config.total_deposits = new_config_deposits;
    config.updated_at = now;
    Ok(shares)
}

} // verus!
