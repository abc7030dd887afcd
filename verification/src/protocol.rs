use vstd::prelude::*;

use crate::errors::StablebondError;
use crate::instrument::BondConfig;
use crate::instrument::BondType;

verus! {

/// Maximum number of bond types the registry can hold.
pub const MAX_BONDS: usize = 8;

/// Cap on the cross-currency conversion fee, in basis points (10%).
pub const CONVERSION_FEE_CAP_BPS: u16 = 1000;

/// Cap on the management fee, in basis points (5%).
pub const MANAGEMENT_FEE_CAP_BPS: u16 = 500;

/// Cap on the performance fee, in basis points (50%).
pub const PERFORMANCE_FEE_CAP_BPS: u16 = 5000;

/// Process-wide protocol configuration record.
#[derive(Clone, Copy, Debug, PartialEq, Eq)]
pub struct ProtocolConfig {
    /// Admin authority.
    pub authority: u64,
    /// Treasury for fee collection.
    pub treasury: u64,
    /// Primary settlement currency mint.
    pub usdc_mint: u64,
    /// Protocol settlement currency vault.
    pub usdc_vault: u64,
    /// Compliance registry reference.
    pub kyc_registry: u64,
    /// Identity program reference.
    pub sovereign_program: u64,
    /// Bond registry record reference.
    pub bond_registry: u64,
    /// Cross-currency conversion fee, in basis points.
    pub conversion_fee_bps: u16,
    /// Annualized management fee, in basis points.
    pub management_fee_bps: u16,
    /// Performance fee on yield, in basis points.
    pub performance_fee_bps: u16,
    /// Total deposits across all vaults, in settlement currency.
    pub total_deposits: u64,
    /// Total yield earned across all users.
    pub total_yield_earned: u64,
    /// Total value awaiting conversion.
    pub pending_conversion: u64,
    /// Monotonically increasing nonce for pending deposits.
    pub deposit_nonce: u64,
    /// Number of registered bond types.
    pub num_supported_bonds: u8,
    /// Whether user-facing operations are accepted.
    pub is_active: bool,
    /// Creation timestamp.
    pub created_at: i64,
    /// Last update timestamp.
    pub updated_at: i64,
}

impl ProtocolConfig {
    /// Every fee stays at or below its cap.
    pub open spec fn wf(self) -> bool {
        &&& self.conversion_fee_bps <= CONVERSION_FEE_CAP_BPS
        &&& self.management_fee_bps <= MANAGEMENT_FEE_CAP_BPS
        &&& self.performance_fee_bps <= PERFORMANCE_FEE_CAP_BPS
    }
}

/// Registry of the supported bond types.
#[derive(Debug, PartialEq, Eq)]
pub struct BondRegistry {
    /// Protocol configuration record this registry belongs to.
    pub protocol_config: u64,
    /// Registered bond configurations, at most `MAX_BONDS`.
    pub bonds: Vec<BondConfig>,
}

/// Whether the registry already holds a bond of the given type.
pub open spec fn registry_has_bond(registry: BondRegistry, bt: BondType) -> bool {
    exists|i: int| 0 <= i < registry.bonds@.len() && registry.bonds@[i].bond_type == bt
}

/// Parameters of the one-time protocol bootstrap.
#[derive(Clone, Copy, Debug, PartialEq, Eq)]
pub struct InitializeProtocolParams {
    /// Treasury for fee collection.
    pub treasury: u64,
    /// Compliance registry reference.
    pub kyc_registry: u64,
    /// Identity program reference.
    pub sovereign_program: u64,
    /// Cross-currency conversion fee, in basis points.
    pub conversion_fee_bps: u16,
    /// Annualized management fee, in basis points.
    pub management_fee_bps: u16,
    /// Performance fee on yield, in basis points.
    pub performance_fee_bps: u16,
}

/// Bootstraps the protocol: creates the configuration record and an
/// empty bond registry. Each fee parameter must stay at or below its
/// cap.
pub fn handle_initialize_protocol(
    params: InitializeProtocolParams,
    authority: u64,
    usdc_mint: u64,
    usdc_vault: u64,
    config_key: u64,
    bond_registry_key: u64,
    now: i64,
) -> (r: Result<(ProtocolConfig, BondRegistry), StablebondError>)
    ensures
        r is Err <==> {
            ||| params.conversion_fee_bps > CONVERSION_FEE_CAP_BPS
            ||| params.management_fee_bps > MANAGEMENT_FEE_CAP_BPS
            ||| params.performance_fee_bps > PERFORMANCE_FEE_CAP_BPS
        },
        r is Err ==> r == Err::<(ProtocolConfig, BondRegistry), StablebondError>(
            StablebondError::InvalidFee,
        ),
        r is Ok ==> {
            &&& r.unwrap().0 == (ProtocolConfig {
                authority,
                treasury: params.treasury,
                usdc_mint,
                usdc_vault,
                kyc_registry: params.kyc_registry,
                sovereign_program: params.sovereign_program,
                bond_registry: bond_registry_key,
                conversion_fee_bps: params.conversion_fee_bps,
                management_fee_bps: params.management_fee_bps,
                performance_fee_bps: params.performance_fee_bps,
                total_deposits: 0,
                total_yield_earned: 0,
                pending_conversion: 0,
                deposit_nonce: 0,
                num_supported_bonds: 0,
                is_active: true,
                created_at: now,
                updated_at: now,
            })
            &&& r.unwrap().0.wf()
            &&& r.unwrap().1.protocol_config == config_key
            &&& r.unwrap().1.bonds@ == Seq::<BondConfig>::empty()
        },
{
    if params.conversion_fee_bps > CONVERSION_FEE_CAP_BPS {
        return Err(StablebondError::InvalidFee);
    }
    if params.management_fee_bps > MANAGEMENT_FEE_CAP_BPS {
        return Err(StablebondError::InvalidFee);
    }
    if params.performance_fee_bps > PERFORMANCE_FEE_CAP_BPS {
        return Err(StablebondError::InvalidFee);
    }
    let config = ProtocolConfig {
        authority,
        treasury: params.treasury,
        usdc_mint,
        usdc_vault,
        kyc_registry: params.kyc_registry,
        sovereign_program: params.sovereign_program,
        bond_registry: bond_registry_key,
        conversion_fee_bps: params.conversion_fee_bps,
        management_fee_bps: params.management_fee_bps,
        performance_fee_bps: params.performance_fee_bps,
        total_deposits: 0,
        total_yield_earned: 0,
        pending_conversion: 0,
        deposit_nonce: 0,
        num_supported_bonds: 0,
        is_active: true,
        created_at: now,
        updated_at: now,
    };
    let registry = BondRegistry { protocol_config: config_key, bonds: Vec::new() };
    Ok((config, registry))
}

/// Registers a new bond type. Only the protocol authority may call;
/// the registry is bounded and duplicates are rejected.
pub fn handle_register_bond(
    config: &mut ProtocolConfig,
    registry: &mut BondRegistry,
    authority: u64,
    bond: BondConfig,
    now: i64,
) -> (r: Result<(), StablebondError>)
    requires
        old(config).num_supported_bonds == old(registry).bonds@.len(),
    ensures
        r is Err ==> *final(config) == *old(config) && *final(registry) == *old(registry),
        authority != old(config).authority ==> r == Err::<(), StablebondError>(
            StablebondError::Unauthorized,
        ),
        authority == old(config).authority && old(registry).bonds@.len() >= MAX_BONDS ==> r
            == Err::<(), StablebondError>(StablebondError::MaxBondsReached),
        authority == old(config).authority && old(registry).bonds@.len() < MAX_BONDS
            && registry_has_bond(*old(registry), bond.bond_type) ==> r == Err::<
            (),
            StablebondError,
        >(StablebondError::BondTypeAlreadyRegistered),
        authority == old(config).authority && old(registry).bonds@.len() < MAX_BONDS
            && !registry_has_bond(*old(registry), bond.bond_type) ==> {
            &&& r is Ok
            &&& final(registry).bonds@ == old(registry).bonds@.push(bond)
            &&& final(registry).protocol_config == old(registry).protocol_config
            &&& *final(config) == (ProtocolConfig {
                num_supported_bonds: (old(config).num_supported_bonds + 1) as u8,
                updated_at: now,
                ..*old(config)
            })
        },
{
    if authority != config.authority {
        return Err(StablebondError::Unauthorized);
    }
    if registry.bonds.len() >= MAX_BONDS {
        return Err(StablebondError::MaxBondsReached);
    }
    let mut i: usize = 0;
    while i < registry.bonds.len()
        invariant
            *config == *old(config),
            *registry == *old(registry),
            authority == old(config).authority,
            registry.bonds@.len() < MAX_BONDS,
            i <= registry.bonds@.len(),
            forall|k: int| 0 <= k < i ==> registry.bonds@[k].bond_type != bond.bond_type,
        decreases registry.bonds@.len() - i,
    {
        if registry.bonds[i].bond_type == bond.bond_type {
            return Err(StablebondError::BondTypeAlreadyRegistered);
        }
        i = i + 1;
    }
    registry.bonds.push(bond);
    config.num_supported_bonds = config.num_supported_bonds + 1;
    config.updated_at = now;
    Ok(())
}

} // verus!
