use vstd::prelude::*;

use crate::errors::StablebondError;
use crate::protocol::CONVERSION_FEE_CAP_BPS;
use crate::protocol::MANAGEMENT_FEE_CAP_BPS;
use crate::protocol::PERFORMANCE_FEE_CAP_BPS;
use crate::protocol::ProtocolConfig;
use crate::source::YieldSource;

verus! {

/// An optional override, or the current value.
pub open spec fn or_current_u64(update: Option<u64>, current: u64) -> u64 {
    match update {
        Some(v) => v,
        None => current,
    }
}

/// An optional override, or the current value.
pub open spec fn or_current_u16(update: Option<u16>, current: u16) -> u16 {
    match update {
        Some(v) => v,
        None => current,
    }
}

/// An optional override, or the current value.
pub open spec fn or_current_bool(update: Option<bool>, current: bool) -> bool {
    match update {
        Some(v) => v,
        None => current,
    }
}

/// Partial update of the protocol configuration.
#[derive(Clone, Copy, Debug, PartialEq, Eq)]
pub struct UpdateProtocolConfigParams {
    /// New treasury, if given.
    pub treasury: Option<u64>,
    /// New conversion fee in basis points, if given.
    pub conversion_fee_bps: Option<u16>,
    /// New management fee in basis points, if given.
    pub management_fee_bps: Option<u16>,
    /// New performance fee in basis points, if given.
    pub performance_fee_bps: Option<u16>,
}

/// Which fee update of the parameters, if any, exceeds its cap;
/// checked in declaration order.
pub open spec fn config_update_fee_violation(params: UpdateProtocolConfigParams) -> bool {
    ||| (params.conversion_fee_bps is Some && params.conversion_fee_bps.unwrap()
        > CONVERSION_FEE_CAP_BPS)
    ||| (params.management_fee_bps is Some && params.management_fee_bps.unwrap()
        > MANAGEMENT_FEE_CAP_BPS)
    ||| (params.performance_fee_bps is Some && params.performance_fee_bps.unwrap()
        > PERFORMANCE_FEE_CAP_BPS)
}

/// Applies a partial update to the protocol configuration. Only the
/// configured authority may call; each given fee must stay at or
/// below its cap.
pub fn handle_update_protocol_config(
    config: &mut ProtocolConfig,
    authority: u64,
    params: UpdateProtocolConfigParams,
    now: i64,
) -> (r: Result<(), StablebondError>)
    requires
        old(config).wf(),
    ensures
        r is Err ==> *final(config) == *old(config),
        authority != old(config).authority ==> r == Err::<(), StablebondError>(
            StablebondError::Unauthorized,
        ),
        authority == old(config).authority && config_update_fee_violation(params) ==> r == Err::<
            (),
            StablebondError,
        >(StablebondError::InvalidFee),
        authority == old(config).authority && !config_update_fee_violation(params) ==> {
            &&& r is Ok
            &&& *final(config) == (ProtocolConfig {
                treasury: or_current_u64(params.treasury, old(config).treasury),
                conversion_fee_bps: or_current_u16(
                    params.conversion_fee_bps,
                    old(config).conversion_fee_bps,
                ),
                management_fee_bps: or_current_u16(
                    params.management_fee_bps,
                    old(config).management_fee_bps,
                ),
                performance_fee_bps: or_current_u16(
                    params.performance_fee_bps,
                    old(config).performance_fee_bps,
                ),
                updated_at: now,
                ..*old(config)
            })
            &&& final(config).wf()
        },
{
    if authority != config.authority {
        return Err(StablebondError::Unauthorized);
    }
    if let Some(fee) = params.conversion_fee_bps {
        if fee > CONVERSION_FEE_CAP_BPS {
            return Err(StablebondError::InvalidFee);
        }
    }
    if let Some(fee) = params.management_fee_bps {
        if fee > MANAGEMENT_FEE_CAP_BPS {
            return Err(StablebondError::InvalidFee);
        }
    }
    if let Some(fee) = params.performance_fee_bps {
        if fee > PERFORMANCE_FEE_CAP_BPS {
            return Err(StablebondError::InvalidFee);
        }
    }
    if let Some(treasury) = params.treasury {
        config.treasury = treasury;
    }
    if let Some(fee) = params.conversion_fee_bps {
        config.conversion_fee_bps = fee;
    }
    if let Some(fee) = params.management_fee_bps {
        config.management_fee_bps = fee;
    }
    if let Some(fee) = params.performance_fee_bps {
        config.performance_fee_bps = fee;
    }
    config.updated_at = now;
    Ok(())
}

/// Partial update of a yield source.
#[derive(Clone, Copy, Debug, PartialEq, Eq)]
pub struct UpdateYieldSourceParams {
    /// New allocation weight in basis points, if given.
    pub allocation_weight_bps: Option<u16>,
    /// New minimum deposit, if given.
    pub min_deposit: Option<u64>,
    /// New maximum allocation, if given.
    pub max_allocation: Option<u64>,
    /// New active flag, if given.
    pub is_active: Option<bool>,
}

/// Applies a partial update to a yield source. Only the configured
/// authority may call.
pub fn handle_update_yield_source(
    config: &ProtocolConfig,
    ys: &mut YieldSource,
    authority: u64,
    params: UpdateYieldSourceParams,
) -> (r: Result<(), StablebondError>)
    ensures
        authority != config.authority ==> {
            &&& r == Err::<(), StablebondError>(StablebondError::Unauthorized)
            &&& *final(ys) == *old(ys)
        },
        authority == config.authority ==> {
            &&& r is Ok
            &&& *final(ys) == (YieldSource {
                allocation_weight_bps: or_current_u16(
                    params.allocation_weight_bps,
                    old(ys).allocation_weight_bps,
                ),
                min_deposit: or_current_u64(params.min_deposit, old(ys).min_deposit),
                max_allocation: or_current_u64(params.max_allocation, old(ys).max_allocation),
                is_active: or_current_bool(params.is_active, old(ys).is_active),
                ..*old(ys)
            })
        },
{
    if authority != config.authority {
        return Err(StablebondError::Unauthorized);
    }
    if let Some(weight) = params.allocation_weight_bps {
        ys.allocation_weight_bps = weight;
    }
    if let Some(min) = params.min_deposit {
        ys.min_deposit = min;
    }
    if let Some(max) = params.max_allocation {
        ys.max_allocation = max;
    }
    if let Some(active) = params.is_active {
        ys.is_active = active;
    }
    Ok(())
}

/// Pauses the protocol: user-facing value-moving operations are
/// rejected until resumed. Only the configured authority may call.
pub fn handle_pause_protocol(config: &mut ProtocolConfig, authority: u64, now: i64) -> (r: Result<
    (),
    StablebondError,
>)
    ensures
        authority != old(config).authority ==> {
            &&& r == Err::<(), StablebondError>(StablebondError::Unauthorized)
            &&& *final(config) == *old(config)
        },
        authority == old(config).authority ==> {
            &&& r is Ok
            &&& *final(config) == (ProtocolConfig {
                is_active: false,
                updated_at: now,
                ..*old(config)
            })
        },
{
    if authority != config.authority {
        return Err(StablebondError::Unauthorized);
    }
    config.is_active = false;
    config.updated_at = now;
    Ok(())
}

/// Resumes a paused protocol. Only the configured authority may call.
pub fn handle_resume_protocol(config: &mut ProtocolConfig, authority: u64, now: i64) -> (r: Result<
    (),
    StablebondError,
>)
    ensures
        authority != old(config).authority ==> {
            &&& r == Err::<(), StablebondError>(StablebondError::Unauthorized)
            &&& *final(config) == *old(config)
        },
        authority == old(config).authority ==> {
            &&& r is Ok
            &&& *final(config) == (ProtocolConfig {
                is_active: true,
                updated_at: now,
                ..*old(config)
            })
        },
{
    if authority != config.authority {
        return Err(StablebondError::Unauthorized);
    }
    config.is_active = true;
    config.updated_at = now;
    Ok(())
}

} // verus!
