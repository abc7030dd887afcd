use vstd::prelude::*;

use crate::errors::StablebondError;
use crate::instrument::BondType;
use crate::nav::bps_of;
use crate::nav::fee_amount;
use crate::nav::value_for_shares;
use crate::nav::value_of_shares;
use crate::position::UserPosition;
use crate::protocol::ProtocolConfig;
use crate::source::YieldSource;

verus! {

/// Difference clamped at zero.
pub open spec fn sub_or_zero(a: int, b: int) -> int {
    if a >= b {
        a - b
    } else {
        0
    }
}

/// The yield a position can still claim at a given NAV: the value of
/// its shares above the cost basis, less what was already realized;
/// never negative.
pub open spec fn claimable_yield(pos: UserPosition, nav_per_share: int) -> int {
    sub_or_zero(
        sub_or_zero(
            value_of_shares(pos.current_shares as int, nav_per_share),
            pos.cost_basis as int,
        ),
        pos.realized_yield as int,
    )
}

/// What a successful claim pays: the gross claimable amount, the
/// performance fee retained, and the net amount transferred to the
/// user.
#[derive(Clone, Copy, Debug, PartialEq, Eq)]
pub struct ClaimOutcome {
    /// Gross yield claimed, before the fee.
    pub yield_amount: u64,
    /// Performance fee retained by the protocol.
    pub performance_fee: u64,
    /// Net amount paid out to the user.
    pub net_yield: u64,
}

/// The outcome of the validation cascade of a yield claim, in the
/// order the checks are applied. On success it carries the gross
/// claimable amount.
pub open spec fn claim_result(
    config: ProtocolConfig,
    ys: YieldSource,
    pos: UserPosition,
    bond_type: BondType,
) -> Result<u64, StablebondError> {
    let value = value_of_shares(pos.current_shares as int, ys.nav_per_share as int);
    let claimable = claimable_yield(pos, ys.nav_per_share as int);
    if !config.is_active {
        Err(StablebondError::ProtocolNotActive)
    } else if pos.bond_type != bond_type {
        Err(StablebondError::BondTypeNotFound)
    } else if value > u64::MAX {
        Err(StablebondError::MathOverflow)
    } else if claimable == 0 {
        Err(StablebondError::NoYieldToClaim)
    } else if config.total_yield_earned + claimable > u64::MAX {
        Err(StablebondError::MathOverflow)
    } else {
        Ok(claimable as u64)
    }
}

/// Claims the realized yield of a position: pays out the value of the
/// shares above cost basis and already-realized yield, net of the
/// performance fee, and records the gross amount as realized. The
/// runtime transfers the net amount to the user.
pub fn handle_claim_yield(
    config: &mut ProtocolConfig,
    ys: &YieldSource,
    pos: &mut UserPosition,
    bond_type: BondType,
    now: i64,
) -> (r: Result<ClaimOutcome, StablebondError>)
    requires
        old(config).wf(),
        ys.wf(),
    ensures
        r is Err ==> *final(config) == *old(config) && *final(pos) == *old(pos),
        r is Err <==> claim_result(*old(config), *ys, *old(pos), bond_type) is Err,
        r is Err ==> r == Err::<ClaimOutcome, StablebondError>(
            claim_result(*old(config), *ys, *old(pos), bond_type).unwrap_err(),
        ),
        r is Ok ==> ({
            let claimable = claimable_yield(*old(pos), ys.nav_per_share as int);
            let fee = bps_of(claimable, old(config).performance_fee_bps as int);
            &&& claimable > 0
            &&& r.unwrap() == (ClaimOutcome {
                yield_amount: claimable as u64,
                performance_fee: fee as u64,
                net_yield: (claimable - fee) as u64,
            })
            &&& *final(pos) == (UserPosition {
                realized_yield: (old(pos).realized_yield + claimable) as u64,
                ..*old(pos)
            })
            &&& *final(config) == (ProtocolConfig {
                total_yield_earned: (old(config).total_yield_earned + claimable) as u64,
                updated_at: now,
                ..*old(config)
            })
            &&& final(config).wf()
        }),
{
    if !config.is_active {
        return Err(StablebondError::ProtocolNotActive);
    }
    if pos.bond_type != bond_type {
        return Err(StablebondError::BondTypeNotFound);
    }
    let current_value = match value_for_shares(pos.current_shares, ys.nav_per_share) {
        Ok(v) => v,
        Err(_) => {
            return Err(StablebondError::MathOverflow);
        },
    };
    let total_gain = current_value.saturating_sub(pos.cost_basis);
    let yield_amount = total_gain.saturating_sub(pos.realized_yield);
    if yield_amount == 0 {
        return Err(StablebondError::NoYieldToClaim);
    }
    let new_total_yield = match config.total_yield_earned.checked_add(yield_amount) {
        Some(v) => v,
        None => {
            return Err(StablebondError::MathOverflow);
        },
    };
    let fee = fee_amount(yield_amount, config.performance_fee_bps);
    let net_yield = yield_amount - fee;
    pos.realized_yield = pos.realized_yield + yield_amount;
    config.total_yield_earned = new_total_yield;
    config.updated_at = now;
    Ok(ClaimOutcome { yield_amount, performance_fee: fee, net_yield })
}

/// Claiming is idempotent while the NAV stands still: once a
/// position's realized yield has grown by the full claimable amount,
/// nothing further is claimable at the same NAV.
pub proof fn lemma_claim_idempotent(pos: UserPosition, after: UserPosition, nav_per_share: int)
    requires
        claimable_yield(pos, nav_per_share) > 0,
        after.current_shares == pos.current_shares,
        after.cost_basis == pos.cost_basis,
        after.realized_yield == pos.realized_yield + claimable_yield(pos, nav_per_share),
    ensures
        claimable_yield(after, nav_per_share) == 0,
{
}

} // verus!
