use vstd::prelude::*;

use crate::errors::StablebondError;

verus! {

/// Jurisdiction code that is blocked from depositing.
pub const BLOCKED_JURISDICTION: u8 = 4;

/// Read contract of the compliance oracle: the whitelist entry
/// looked up for a user.
#[derive(Clone, Copy, Debug, PartialEq, Eq)]
pub struct ComplianceEntry {
    /// User the entry belongs to.
    pub owner: u64,
    /// Whether the entry is currently active.
    pub is_active: bool,
    /// Jurisdiction code of the user.
    pub jurisdiction: u8,
    /// Expiry of the verification, as a unix timestamp.
    pub expires_at: i64,
}

/// Read contract of the identity oracle: the identity record looked
/// up for a user.
#[derive(Clone, Copy, Debug, PartialEq, Eq)]
pub struct SovereignIdentity {
    /// User the record belongs to.
    pub owner: u64,
    /// Access tier granted to the user.
    pub tier: u8,
}

/// The compliance failure a whitelist entry yields for a user at a
/// given time, if any: the entry must belong to the user and be
/// active, the jurisdiction must not be blocked, and the
/// verification must not have expired.
pub open spec fn kyc_failure(entry: ComplianceEntry, user: u64, now: i64) -> Option<
    StablebondError,
> {
    if entry.owner != user {
        Some(StablebondError::KycRequired)
    } else if !entry.is_active {
        Some(StablebondError::KycRequired)
    } else if entry.jurisdiction == BLOCKED_JURISDICTION {
        Some(StablebondError::JurisdictionRestricted)
    } else if entry.expires_at <= now {
        Some(StablebondError::KycExpired)
    } else {
        None
    }
}

/// Validates the compliance whitelist entry of a user.
pub fn validate_kyc(entry: &ComplianceEntry, user: u64, now: i64) -> (r: Result<
    (),
    StablebondError,
>)
    ensures
        match r {
            Ok(_) => kyc_failure(*entry, user, now) is None,
            Err(e) => kyc_failure(*entry, user, now) == Some(e),
        },
{
    if entry.owner != user {
        return Err(StablebondError::KycRequired);
    }
    if !entry.is_active {
        return Err(StablebondError::KycRequired);
    }
    if entry.jurisdiction == BLOCKED_JURISDICTION {
        return Err(StablebondError::JurisdictionRestricted);
    }
    if entry.expires_at <= now {
        return Err(StablebondError::KycExpired);
    }
    Ok(())
}

/// Reads the access tier from the identity record of a user; the
/// record must belong to the user.
pub fn read_sovereign_tier(identity: &SovereignIdentity, user: u64) -> (r: Result<
    u8,
    StablebondError,
>)
    ensures
        match r {
            Ok(tier) => identity.owner == user && tier == identity.tier,
            Err(e) => identity.owner != user && e == StablebondError::SovereignIdentityNotFound,
        },
{
    if identity.owner != user {
        return Err(StablebondError::SovereignIdentityNotFound);
    }
    Ok(identity.tier)
}

} // verus!
