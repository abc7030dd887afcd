use vstd::prelude::*;

use crate::instrument::BondType;

verus! {

/// Length of the rolling monthly-limit window, in seconds (30 days).
pub const MONTH_SECONDS: i64 = 30 * 24 * 60 * 60;

/// Per-user, per-bond-type position record.
#[derive(Clone, Copy, Debug, PartialEq, Eq)]
pub struct UserPosition {
    /// Position owner.
    pub owner: u64,
    /// Protocol configuration record this position belongs to.
    pub protocol_config: u64,
    /// Bond type this position is for.
    pub bond_type: BondType,
    /// Lifetime deposits in minor units.
    pub total_deposited: u64,
    /// Shares currently held.
    pub current_shares: u64,
    /// Cost basis in settlement currency minor units.
    pub cost_basis: u64,
    /// Yield already claimed, in settlement currency minor units.
    pub realized_yield: u64,
    /// Access tier observed at the last check.
    pub sovereign_tier: u8,
    /// Amount deposited inside the current monthly window.
    pub monthly_deposited: u64,
    /// Start of the current monthly window, as a unix timestamp.
    pub month_start: i64,
    /// Lifetime number of deposits.
    pub deposit_count: u32,
    /// Lifetime number of withdrawals.
    pub withdrawal_count: u32,
    /// Timestamp of the last deposit.
    pub last_deposit_at: i64,
    /// Timestamp of the last withdrawal.
    pub last_withdrawal_at: i64,
    /// Deposit nonce of the last pending deposit created by the owner.
    pub deposit_nonce: u64,
    /// Creation timestamp; zero marks a freshly allocated record.
    pub created_at: i64,
}

impl UserPosition {
    /// Timestamps never precede the epoch.
    pub open spec fn wf(self) -> bool {
        0 <= self.month_start
    }

    /// A freshly allocated record: every field still zeroed.
    pub open spec fn is_blank(self) -> bool {
        &&& self.total_deposited == 0
        &&& self.current_shares == 0
        &&& self.cost_basis == 0
        &&& self.realized_yield == 0
        &&& self.sovereign_tier == 0
        &&& self.monthly_deposited == 0
        &&& self.month_start == 0
        &&& self.deposit_count == 0
        &&& self.withdrawal_count == 0
        &&& self.last_deposit_at == 0
        &&& self.last_withdrawal_at == 0
        &&& self.deposit_nonce == 0
        &&& self.created_at == 0
    }

    /// Resets the monthly counter if the rolling 30-day window has
    /// elapsed.
    pub fn maybe_reset_monthly(&mut self, now: i64)
        requires
            old(self).wf(),
            0 <= now,
        ensures
            *final(self) == (UserPosition {
                monthly_deposited: monthly_after_reset(*old(self), now),
                month_start: month_start_after_reset(*old(self), now),
                ..*old(self)
            }),
            final(self).wf(),
    {
        if now - self.month_start >= MONTH_SECONDS {
            self.monthly_deposited = 0;
            self.month_start = now;
        }
    }
}

/// Whether the rolling monthly window of a position has elapsed at
/// the given time.
pub open spec fn month_window_elapsed(pos: UserPosition, now: i64) -> bool {
    now - pos.month_start >= MONTH_SECONDS
}

/// The monthly-deposited counter after any due window reset.
pub open spec fn monthly_after_reset(pos: UserPosition, now: i64) -> u64 {
    if month_window_elapsed(pos, now) {
        0
    } else {
        pos.monthly_deposited
    }
}

/// The window start after any due window reset.
pub open spec fn month_start_after_reset(pos: UserPosition, now: i64) -> i64 {
    if month_window_elapsed(pos, now) {
        now
    } else {
        pos.month_start
    }
}

} // verus!
