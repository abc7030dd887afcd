use vstd::prelude::*;

use crate::errors::StablebondError;
use crate::instrument::BondType;
use crate::instrument::YieldSourceType;
use crate::nav::NAV_SCALE;
use crate::protocol::ProtocolConfig;

verus! {

/// A registered yield source: per-instrument share accounting and
/// NAV state.
#[derive(Clone, Copy, Debug, PartialEq, Eq)]
pub struct YieldSource {
    /// Protocol configuration record this source belongs to.
    pub protocol_config: u64,
    /// Human-readable name.
    pub name: [u8; 32],
    /// Category of the yield source.
    pub source_type: YieldSourceType,
    /// Settlement currency mint.
    pub token_mint: u64,
    /// Vault where deposits are held.
    pub deposit_vault: u64,
    /// Vault holding yield tokens.
    pub yield_token_vault: u64,
    /// Current APY in basis points.
    pub current_apy_bps: u16,
    /// Total deposited, in settlement currency minor units.
    pub total_deposited: u64,
    /// Total shares outstanding.
    pub total_shares: u64,
    /// Allocation weight, in basis points of total protocol deposits.
    pub allocation_weight_bps: u16,
    /// Minimum deposit, in settlement currency minor units.
    pub min_deposit: u64,
    /// Maximum allocation, in settlement currency minor units.
    pub max_allocation: u64,
    /// Whether this source accepts operations.
    pub is_active: bool,
    /// Timestamp of the last NAV update.
    pub last_nav_update: i64,
    /// NAV per share, scaled 1e6.
    pub nav_per_share: u64,
    /// Sovereign bond this source represents.
    pub bond_type: BondType,
    /// Native currency mint.
    pub currency_mint: u64,
    /// Price feed for the native currency against the settlement
    /// currency.
    pub oracle_feed: u64,
    /// Bond coupon rate in basis points.
    pub coupon_rate_bps: u16,
    /// Bond maturity as a unix timestamp; 0 means rolling.
    pub maturity_date: i64,
    /// Collateral haircut in basis points.
    pub haircut_bps: u16,
}

impl YieldSource {
    /// The NAV-per-share is always positive, so share conversion is
    /// well defined.
    pub open spec fn wf(self) -> bool {
        1 <= self.nav_per_share
    }
}

/// Parameters for registering a yield source.
#[derive(Clone, Copy, Debug, PartialEq, Eq)]
pub struct RegisterYieldSourceParams {
    /// Human-readable name.
    pub name: [u8; 32],
    /// Category of the yield source.
    pub source_type: YieldSourceType,
    /// Sovereign bond this source represents.
    pub bond_type: BondType,
    /// Vault where deposits are held.
    pub deposit_vault: u64,
    /// Vault holding yield tokens.
    pub yield_token_vault: u64,
    /// Native currency mint.
    pub currency_mint: u64,
    /// Price feed for the native currency.
    pub oracle_feed: u64,
    /// Bond coupon rate in basis points.
    pub coupon_rate_bps: u16,
    /// Bond maturity as a unix timestamp; 0 means rolling.
    pub maturity_date: i64,
    /// Collateral haircut in basis points.
    pub haircut_bps: u16,
    /// Allocation weight in basis points.
    pub allocation_weight_bps: u16,
    /// Minimum deposit, in settlement currency minor units.
    pub min_deposit: u64,
    /// Maximum allocation, in settlement currency minor units.
    pub max_allocation: u64,
}

/// Creates a yield source record with its NAV initialized to
/// 1.000000 and no value or shares outstanding. Only the protocol
/// authority may call.
pub fn handle_register_yield_source(
    config: &ProtocolConfig,
    authority: u64,
    config_key: u64,
    token_mint: u64,
    params: RegisterYieldSourceParams,
    now: i64,
) -> (r: Result<YieldSource, StablebondError>)
    ensures
        authority != config.authority ==> r == Err::<YieldSource, StablebondError>(
            StablebondError::Unauthorized,
        ),
        authority == config.authority ==> r == Ok::<YieldSource, StablebondError>(
            YieldSource {
                protocol_config: config_key,
                name: params.name,
                source_type: params.source_type,
                token_mint,
                deposit_vault: params.deposit_vault,
                yield_token_vault: params.yield_token_vault,
                current_apy_bps: 0,
                total_deposited: 0,
                total_shares: 0,
                allocation_weight_bps: params.allocation_weight_bps,
                min_deposit: params.min_deposit,
                max_allocation: params.max_allocation,
                is_active: true,
                last_nav_update: now,
                nav_per_share: NAV_SCALE,
                bond_type: params.bond_type,
                currency_mint: params.currency_mint,
                oracle_feed: params.oracle_feed,
                coupon_rate_bps: params.coupon_rate_bps,
                maturity_date: params.maturity_date,
                haircut_bps: params.haircut_bps,
            },
        ),
        r is Ok ==> r.unwrap().wf(),
{
    if authority != config.authority {
        return Err(StablebondError::Unauthorized);
    }
    Ok(
        YieldSource {
            protocol_config: config_key,
            name: params.name,
            source_type: params.source_type,
            token_mint,
            deposit_vault: params.deposit_vault,
            yield_token_vault: params.yield_token_vault,
            current_apy_bps: 0,
            total_deposited: 0,
            total_shares: 0,
            allocation_weight_bps: params.allocation_weight_bps,
            min_deposit: params.min_deposit,
            max_allocation: params.max_allocation,
            is_active: true,
            last_nav_update: now,
            nav_per_share: NAV_SCALE,
            bond_type: params.bond_type,
            currency_mint: params.currency_mint,
            oracle_feed: params.oracle_feed,
            coupon_rate_bps: params.coupon_rate_bps,
            maturity_date: params.maturity_date,
            haircut_bps: params.haircut_bps,
        },
    )
}

/// Re-prices a yield source from an external valuation: adopts the
/// new NAV-per-share and APY reported by the backing vault. A
/// non-positive NAV is rejected.
pub fn handle_update_nav(
    config: &mut ProtocolConfig,
    ys: &mut YieldSource,
    vault_nav: u64,
    vault_apy_bps: u16,
    now: i64,
) -> (r: Result<(), StablebondError>)
    ensures
        vault_nav == 0 ==> {
            &&& r == Err::<(), StablebondError>(StablebondError::InvalidAccountData)
            &&& *final(config) == *old(config)
            &&& *final(ys) == *old(ys)
        },
        vault_nav != 0 ==> {
            &&& r is Ok
            &&& *final(ys) == (YieldSource {
                nav_per_share: vault_nav,
                current_apy_bps: vault_apy_bps,
                last_nav_update: now,
                ..*old(ys)
            })
            &&& final(ys).wf()
            &&& *final(config) == (ProtocolConfig { updated_at: now, ..*old(config) })
        },
{
    if vault_nav == 0 {
        return Err(StablebondError::InvalidAccountData);
    }
    ys.nav_per_share = vault_nav;
    ys.current_apy_bps = vault_apy_bps;
    ys.last_nav_update = now;
    config.updated_at = now;
    Ok(())
}

} // verus!
