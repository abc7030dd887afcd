use vstd::prelude::*;

use crate::errors::BondVaultError;
use crate::instrument::BondType;
use crate::nav::BPS_DENOMINATOR;
use crate::nav::NAV_SCALE;
use crate::nav::shares_for_value;
use crate::nav::shares_of_value;
use crate::nav::value_for_shares;
use crate::nav::value_of_shares;

verus! {

/// Seconds in a (non-leap) year, used to annualize accrual.
pub const SECONDS_PER_YEAR: u64 = 365 * 24 * 60 * 60;

/// Cap on the target APY, in basis points (50%).
pub const APY_CAP_BPS: u16 = 5000;

/// Per-bond-type vault: the time-based yield accrual engine's state.
#[derive(Clone, Copy, Debug, PartialEq, Eq)]
pub struct BondVault {
    /// Authority that administers the vault.
    pub authority: u64,
    /// Settlement currency mint.
    pub currency_mint: u64,
    /// Share token mint.
    pub share_mint: u64,
    /// Account holding the vault's currency deposits.
    pub currency_vault: u64,
    /// Sovereign bond type this vault represents.
    pub bond_type: BondType,
    /// Bond coupon rate in basis points.
    pub coupon_rate_bps: u16,
    /// Bond maturity as a unix timestamp; 0 means rolling, no maturity.
    pub maturity_date: i64,
    /// Target APY in basis points.
    pub target_apy_bps: u16,
    /// Total currency deposited (accounting value).
    pub total_deposits: u64,
    /// Total shares outstanding.
    pub total_shares: u64,
    /// NAV per share, scaled 1e6; starts at 1.000000.
    pub nav_per_share: u64,
    /// Time yield was last accrued, as a unix timestamp.
    pub last_accrual: i64,
    /// Whether the vault accepts deposits and withdrawals.
    pub is_active: bool,
}

impl BondVault {
    /// NAV stays positive, the APY stays within its cap, and the
    /// accrual clock never precedes the epoch.
    pub open spec fn wf(self) -> bool {
        &&& 1 <= self.nav_per_share
        &&& self.target_apy_bps <= APY_CAP_BPS
        &&& 0 <= self.last_accrual
    }
}

/// Per-user share tracking within a bond vault.
#[derive(Clone, Copy, Debug, PartialEq, Eq)]
pub struct UserShares {
    /// User who owns the shares.
    pub user: u64,
    /// Vault the shares belong to.
    pub vault: u64,
    /// Number of shares held.
    pub shares: u64,
    /// Total currency deposited by the user.
    pub deposited_amount: u64,
    /// Timestamp of the last deposit.
    pub last_deposit_at: i64,
}

/// Whether a vault has reached its maturity date; a vault with no
/// maturity (0) never matures.
pub open spec fn vault_matured(vault: BondVault, now: i64) -> bool {
    vault.maturity_date > 0 && now >= vault.maturity_date
}

/// NAV growth over an elapsed interval at a target annualized rate:
/// `nav * apy_bps * elapsed / (10_000 * seconds_per_year)`.
pub open spec fn accrual_increment(nav: int, apy_bps: int, elapsed: int) -> int {
    nav * apy_bps * elapsed / ((BPS_DENOMINATOR * SECONDS_PER_YEAR) as int)
}

/// Creates a bond vault with its NAV initialized to 1.000000 and a
/// capped target APY.
pub fn initialize_vault(
    authority: u64,
    currency_mint: u64,
    share_mint: u64,
    currency_vault: u64,
    bond_type: BondType,
    target_apy_bps: u16,
    coupon_rate_bps: u16,
    maturity_date: i64,
    now: i64,
) -> (r: Result<BondVault, BondVaultError>)
    requires
        0 <= now,
    ensures
        target_apy_bps > APY_CAP_BPS ==> r == Err::<BondVault, BondVaultError>(
            BondVaultError::InvalidApy,
        ),
        target_apy_bps <= APY_CAP_BPS ==> r == Ok::<BondVault, BondVaultError>(
            BondVault {
                authority,
                currency_mint,
                share_mint,
                currency_vault,
                bond_type,
                coupon_rate_bps,
                maturity_date,
                target_apy_bps,
                total_deposits: 0,
                total_shares: 0,
                nav_per_share: NAV_SCALE,
                last_accrual: now,
                is_active: true,
            },
        ),
        r is Ok ==> r.unwrap().wf(),
{
    if target_apy_bps > APY_CAP_BPS {
        return Err(BondVaultError::InvalidApy);
    }
    Ok(
        BondVault {
            authority,
            currency_mint,
            share_mint,
            currency_vault,
            bond_type,
            coupon_rate_bps,
            maturity_date,
            target_apy_bps,
            total_deposits: 0,
            total_shares: 0,
            nav_per_share: NAV_SCALE,
            last_accrual: now,
            is_active: true,
        },
    )
}

/// Deposits settlement currency into the vault, minting shares at the
/// current NAV.
pub fn deposit(
    vault: &mut BondVault,
    user_shares: &mut UserShares,
    user: u64,
    vault_key: u64,
    amount: u64,
    now: i64,
) -> (r: Result<u64, BondVaultError>)
    requires
        old(vault).wf(),
    ensures
        r is Err ==> *final(vault) == *old(vault) && *final(user_shares) == *old(user_shares),
        !old(vault).is_active ==> r == Err::<u64, BondVaultError>(BondVaultError::VaultNotActive),
        old(vault).is_active && amount == 0 ==> r == Err::<u64, BondVaultError>(
            BondVaultError::ZeroDeposit,
        ),
        old(vault).is_active && amount > 0 ==> ({
            let shares = shares_of_value(amount as int, old(vault).nav_per_share as int);
            if shares > u64::MAX || old(vault).total_deposits + amount > u64::MAX || old(
                vault,
            ).total_shares + shares > u64::MAX || old(user_shares).shares + shares > u64::MAX
                || old(user_shares).deposited_amount + amount > u64::MAX {
                r == Err::<u64, BondVaultError>(BondVaultError::MathOverflow)
            } else {
                &&& r == Ok::<u64, BondVaultError>(shares as u64)
                &&& *final(vault) == (BondVault {
                    total_deposits: (old(vault).total_deposits + amount) as u64,
                    total_shares: (old(vault).total_shares + shares) as u64,
                    ..*old(vault)
                })
                &&& *final(user_shares) == (UserShares {
                    user,
                    vault: vault_key,
                    shares: (old(user_shares).shares + shares) as u64,
                    deposited_amount: (old(user_shares).deposited_amount + amount) as u64,
                    last_deposit_at: now,
                })
            }
        }),
        final(vault).wf(),
{
    if !vault.is_active {
        return Err(BondVaultError::VaultNotActive);
    }
    if amount == 0 {
        return Err(BondVaultError::ZeroDeposit);
    }
    let shares = match shares_for_value(amount, vault.nav_per_share) {
        Ok(s) => s,
        Err(_) => {
            return Err(BondVaultError::MathOverflow);
        },
    };
    let new_total_deposits = match vault.total_deposits.checked_add(amount) {
        Some(v) => v,
        None => {
            return Err(BondVaultError::MathOverflow);
        },
    };
    let new_total_shares = match vault.total_shares.checked_add(shares) {
        Some(v) => v,
        None => {
            return Err(BondVaultError::MathOverflow);
        },
    };
    let new_user_shares = match user_shares.shares.checked_add(shares) {
        Some(v) => v,
        None => {
            return Err(BondVaultError::MathOverflow);
        },
    };
    let new_user_deposited = match user_shares.deposited_amount.checked_add(amount) {
        Some(v) => v,
        None => {
            return Err(BondVaultError::MathOverflow);
        },
    };
    vault.total_deposits = new_total_deposits;
    vault.total_shares = new_total_shares;
    user_shares.user = user;
    user_shares.vault = vault_key;
    user_shares.shares = new_user_shares;
    user_shares.deposited_amount = new_user_deposited;
    user_shares.last_deposit_at = now;
    Ok(shares)
}

/// Withdraws shares from the vault, paying out settlement currency at
/// the current NAV. The vault's actual balance must cover the payout.
pub fn withdraw(
    vault: &mut BondVault,
    user_shares: &mut UserShares,
    shares: u64,
    vault_balance: u64,
) -> (r: Result<u64, BondVaultError>)
    requires
        old(vault).wf(),
    ensures
        r is Err ==> *final(vault) == *old(vault) && *final(user_shares) == *old(user_shares),
        !old(vault).is_active ==> r == Err::<u64, BondVaultError>(BondVaultError::VaultNotActive),
        old(vault).is_active && shares == 0 ==> r == Err::<u64, BondVaultError>(
            BondVaultError::ZeroWithdrawal,
        ),
        old(vault).is_active && shares > 0 && old(user_shares).shares < shares ==> r == Err::<
            u64,
            BondVaultError,
        >(BondVaultError::InsufficientShares),
        old(vault).is_active && shares > 0 && old(user_shares).shares >= shares ==> ({
            let payout = value_of_shares(shares as int, old(vault).nav_per_share as int);
            if payout > u64::MAX {
                r == Err::<u64, BondVaultError>(BondVaultError::MathOverflow)
            } else if vault_balance < payout {
                r == Err::<u64, BondVaultError>(BondVaultError::InsufficientVaultBalance)
            } else if old(vault).total_shares < shares {
                r == Err::<u64, BondVaultError>(BondVaultError::MathOverflow)
            } else {
                &&& r == Ok::<u64, BondVaultError>(payout as u64)
                &&& *final(vault) == (BondVault {
                    total_deposits: if old(vault).total_deposits >= payout {
                        (old(vault).total_deposits - payout) as u64
                    } else {
                        0
                    },
                    total_shares: (old(vault).total_shares - shares) as u64,
                    ..*old(vault)
                })
                &&& *final(user_shares) == (UserShares {
                    shares: (old(user_shares).shares - shares) as u64,
                    ..*old(user_shares)
                })
            }
        }),
        final(vault).wf(),
{
    if !vault.is_active {
        return Err(BondVaultError::VaultNotActive);
    }
    if shares == 0 {
        return Err(BondVaultError::ZeroWithdrawal);
    }
    if user_shares.shares < shares {
        return Err(BondVaultError::InsufficientShares);
    }
    let payout = match value_for_shares(shares, vault.nav_per_share) {
        Ok(v) => v,
        Err(_) => {
            return Err(BondVaultError::MathOverflow);
        },
    };
    if vault_balance < payout {
        return Err(BondVaultError::InsufficientVaultBalance);
    }
    let new_total_shares = match vault.total_shares.checked_sub(shares) {
        Some(v) => v,
        None => {
            return Err(BondVaultError::MathOverflow);
        },
    };
    vault.total_deposits = vault.total_deposits.saturating_sub(payout);
    vault.total_shares = new_total_shares;
    user_shares.shares = user_shares.shares - shares;
    Ok(payout)
}

/// Advances the vault's NAV by elapsed time at the target APY.
/// Accrual freezes at maturity, and is a no-op with no elapsed time
/// or no shares outstanding; the NAV never decreases.
pub fn accrue_yield(vault: &mut BondVault, now: i64) -> (r: Result<(), BondVaultError>)
    requires
        old(vault).wf(),
        old(vault).last_accrual <= now,
    ensures
        r is Err ==> *final(vault) == *old(vault),
        !old(vault).is_active ==> r == Err::<(), BondVaultError>(BondVaultError::VaultNotActive),
        old(vault).is_active && vault_matured(*old(vault), now) ==> r is Ok && *final(vault)
            == *old(vault),
        old(vault).is_active && !vault_matured(*old(vault), now) && (now == old(vault).last_accrual
            || old(vault).total_shares == 0) ==> r is Ok && *final(vault) == *old(vault),
        old(vault).is_active && !vault_matured(*old(vault), now) && now != old(vault).last_accrual
            && old(vault).total_shares != 0 ==> ({
            let increment = accrual_increment(
                old(vault).nav_per_share as int,
                old(vault).target_apy_bps as int,
                now - old(vault).last_accrual,
            );
            if old(vault).nav_per_share + increment > u64::MAX {
                r == Err::<(), BondVaultError>(BondVaultError::MathOverflow)
            } else {
                &&& r is Ok
                &&& *final(vault) == (BondVault {
                    nav_per_share: (old(vault).nav_per_share + increment) as u64,
                    last_accrual: now,
                    ..*old(vault)
                })
            }
        }),
        r is Ok ==> old(vault).nav_per_share <= final(vault).nav_per_share,
        final(vault).wf(),
{
    if !vault.is_active {
        return Err(BondVaultError::VaultNotActive);
    }
    if vault.maturity_date > 0 && now >= vault.maturity_date {
        return Ok(());
    }
    let elapsed: u64 = (now - vault.last_accrual) as u64;
    if elapsed == 0 || vault.total_shares == 0 {
        return Ok(());
    }
    proof {
        vstd::arithmetic::mul::lemma_mul_upper_bound(
            vault.nav_per_share as int,
            u64::MAX as int,
            vault.target_apy_bps as int,
            APY_CAP_BPS as int,
        );
    }
    let rate_scaled: u128 = (vault.nav_per_share as u128) * (vault.target_apy_bps as u128);
    let denominator: u128 = (BPS_DENOMINATOR as u128) * (SECONDS_PER_YEAR as u128);
    let increment: u128 = match rate_scaled.checked_mul(elapsed as u128) {
        Some(product) => product / denominator,
        None => {
            proof {
                lemma_huge_product_overflows(
                    vault.nav_per_share as int,
                    vault.target_apy_bps as int,
                    elapsed as int,
                );
            }
            return Err(BondVaultError::MathOverflow);
        },
    };
    if increment > u64::MAX as u128 {
        return Err(BondVaultError::MathOverflow);
    }
    let new_nav = match vault.nav_per_share.checked_add(increment as u64) {
        Some(v) => v,
        None => {
            return Err(BondVaultError::MathOverflow);
        },
    };
    vault.nav_per_share = new_nav;
    vault.last_accrual = now;
    Ok(())
}

/// When the wide product of NAV, APY and elapsed time does not even
/// fit 128 bits, the accrual increment exceeds the stored 64-bit
/// range.
proof fn lemma_huge_product_overflows(nav: int, apy_bps: int, elapsed: int)
    requires
        0 <= nav,
        0 <= apy_bps,
        0 <= elapsed,
        nav * apy_bps * elapsed > u128::MAX,
    ensures
        accrual_increment(nav, apy_bps, elapsed) > u64::MAX,
{
    let denominator = (BPS_DENOMINATOR * SECONDS_PER_YEAR) as int;
    vstd::arithmetic::div_mod::lemma_div_is_ordered(
        u128::MAX + 1,
        nav * apy_bps * elapsed,
        denominator,
    );
    let floor = u64::MAX + 1;
    assert(denominator * floor <= u128::MAX + 1);
    vstd::arithmetic::div_mod::lemma_div_multiples_vanish(floor, denominator);
    vstd::arithmetic::div_mod::lemma_div_is_ordered(
        denominator * floor,
        u128::MAX + 1,
        denominator,
    );
}

/// Accrual is monotonic: the increment is never negative, so the NAV
/// after any accrual is at least the NAV before it, and across two
/// successive accruals the later NAV is at least the earlier one.
pub proof fn lemma_accrual_monotonic(nav: int, apy_bps: int, elapsed: int)
    requires
        0 <= nav,
        0 <= apy_bps,
        0 <= elapsed,
    ensures
        nav <= nav + accrual_increment(nav, apy_bps, elapsed),
{
    vstd::arithmetic::mul::lemma_mul_nonnegative(nav, apy_bps);
    vstd::arithmetic::mul::lemma_mul_nonnegative(nav * apy_bps, elapsed);
    vstd::arithmetic::div_mod::lemma_div_pos_is_pos(
        nav * apy_bps * elapsed,
        (BPS_DENOMINATOR * SECONDS_PER_YEAR) as int,
    );
}

/// Sets a new target APY within the cap. Only the vault authority may
/// call.
pub fn update_apy(vault: &mut BondVault, authority: u64, new_apy_bps: u16) -> (r: Result<
    (),
    BondVaultError,
>)
    requires
        old(vault).wf(),
    ensures
        r is Err ==> *final(vault) == *old(vault),
        new_apy_bps > APY_CAP_BPS ==> r == Err::<(), BondVaultError>(BondVaultError::InvalidApy),
        new_apy_bps <= APY_CAP_BPS && authority != old(vault).authority ==> r == Err::<
            (),
            BondVaultError,
        >(BondVaultError::Unauthorized),
        new_apy_bps <= APY_CAP_BPS && authority == old(vault).authority ==> {
            &&& r is Ok
            &&& *final(vault) == (BondVault { target_apy_bps: new_apy_bps, ..*old(vault) })
        },
        final(vault).wf(),
{
    if new_apy_bps > APY_CAP_BPS {
        return Err(BondVaultError::InvalidApy);
    }
    if authority != vault.authority {
        return Err(BondVaultError::Unauthorized);
    }
    vault.target_apy_bps = new_apy_bps;
    Ok(())
}

} // verus!
