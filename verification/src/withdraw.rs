use vstd::prelude::*;

use crate::errors::StablebondError;
use crate::instrument::BondType;
use crate::nav::value_for_shares;
use crate::nav::value_of_shares;
use crate::position::UserPosition;
use crate::protocol::ProtocolConfig;
use crate::source::YieldSource;

verus! {

/// The outcome of the validation cascade of a withdrawal, in the
/// order the checks are applied: protocol active, non-zero share
/// count, sufficient shares, matching bond type, then the payout
/// arithmetic and the vault-balance safety check. On success it
/// carries the payout.
pub open spec fn withdraw_result(
    config: ProtocolConfig,
    ys: YieldSource,
    pos: UserPosition,
    shares: u64,
    bond_type: BondType,
    vault_balance: u64,
) -> Result<u64, StablebondError> {
    let payout = value_of_shares(shares as int, ys.nav_per_share as int);
    if !config.is_active {
        Err(StablebondError::ProtocolNotActive)
    } else if shares == 0 {
        Err(StablebondError::ZeroWithdrawal)
    } else if pos.current_shares < shares {
        Err(StablebondError::InsufficientShares)
    } else if pos.bond_type != bond_type {
        Err(StablebondError::BondTypeNotFound)
    } else if payout > u64::MAX {
        Err(StablebondError::MathOverflow)
    } else if vault_balance < payout {
        Err(StablebondError::InsufficientShares)
    } else if ys.total_shares < shares {
        Err(StablebondError::MathOverflow)
    } else if pos.withdrawal_count + 1 > u32::MAX {
        Err(StablebondError::MathOverflow)
    } else {
        Ok(payout as u64)
    }
}

/// Withdraws shares from a yield source: burns the requested shares
/// and pays out their value at the current NAV, rejecting the request
/// if the backing vault's actual balance cannot cover the payout. A
/// full exit closes the position's accounting: a record with no
/// shares keeps neither a cost basis nor realized-yield tracking. The
/// runtime moves the payout from the deposit vault to the user.
pub fn handle_withdraw(
    config: &mut ProtocolConfig,
    ys: &mut YieldSource,
    pos: &mut UserPosition,
    shares: u64,
    bond_type: BondType,
    vault_balance: u64,
    now: i64,
) -> (r: Result<u64, StablebondError>)
    requires
        old(config).wf(),
        old(ys).wf(),
    ensures
        r is Err ==> *final(config) == *old(config) && *final(ys) == *old(ys) && *final(pos)
            == *old(pos),
        r == withdraw_result(*old(config), *old(ys), *old(pos), shares, bond_type, vault_balance),
        r is Ok ==> ({
            let payout = r.unwrap();
            &&& payout == value_of_shares(shares as int, old(ys).nav_per_share as int)
            &&& *final(ys) == (YieldSource {
                total_deposited: if old(ys).total_deposited >= payout {
                    (old(ys).total_deposited - payout) as u64
                } else {
                    0
                },
                total_shares: (old(ys).total_shares - shares) as u64,
                ..*old(ys)
            })
            &&& *final(pos) == (UserPosition {
                current_shares: (old(pos).current_shares - shares) as u64,
                cost_basis: if old(pos).current_shares == shares {
                    0
                } else {
                    old(pos).cost_basis
                },
                realized_yield: if old(pos).current_shares == shares {
                    0
                } else {
                    old(pos).realized_yield
                },
                withdrawal_count: (old(pos).withdrawal_count + 1) as u32,
                last_withdrawal_at: now,
                ..*old(pos)
            })
            &&& final(pos).current_shares == 0 ==> final(pos).cost_basis == 0
                && final(pos).realized_yield == 0
            &&& *final(config) == (ProtocolConfig {
                total_deposits: if old(config).total_deposits >= payout {
                    (old(config).total_deposits - payout) as u64
                } else {
                    0
                },
                updated_at: now,
                ..*old(config)
            })
            &&& final(ys).wf()
            &&& final(config).wf()
        }),
{
    if !config.is_active {
        return Err(StablebondError::ProtocolNotActive);
    }
    if shares == 0 {
        return Err(StablebondError::ZeroWithdrawal);
    }
    if pos.current_shares < shares {
        return Err(StablebondError::InsufficientShares);
    }
    if pos.bond_type != bond_type {
        return Err(StablebondError::BondTypeNotFound);
    }
    let payout = match value_for_shares(shares, ys.nav_per_share) {
        Ok(v) => v,
        Err(_) => {
            return Err(StablebondError::MathOverflow);
        },
    };
    if vault_balance < payout {
        return Err(StablebondError::InsufficientShares);
    }
    let new_ys_shares = match ys.total_shares.checked_sub(shares) {
        Some(v) => v,
        None => {
            return Err(StablebondError::MathOverflow);
        },
    };
    let new_withdrawal_count = match pos.withdrawal_count.checked_add(1) {
        Some(v) => v,
        None => {
            return Err(StablebondError::MathOverflow);
        },
    };
    ys.total_shares = new_ys_shares;
    ys.total_deposited = ys.total_deposited.saturating_sub(payout);
    pos.current_shares = pos.current_shares - shares;
    if pos.current_shares == 0 {
        pos.cost_basis = 0;
        pos.realized_yield = 0;
    }
    pos.withdrawal_count = new_withdrawal_count;
    pos.last_withdrawal_at = now;
    config.total_deposits = config.total_deposits.saturating_sub(payout);
    config.updated_at = now;
    Ok(payout)
}

} // verus!
