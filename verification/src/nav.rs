use vstd::prelude::*;

use crate::errors::StablebondError;

verus! {

/// Fixed-point scale for NAV-per-share and exchange rates:
/// 1_000_000 represents 1.000000.
pub const NAV_SCALE: u64 = 1_000_000;

/// Shares minted for a value amount at a given NAV-per-share.
pub open spec fn shares_of_value(amount: int, nav_per_share: int) -> int {
    amount * (NAV_SCALE as int) / nav_per_share
}

/// Value redeemed for a share count at a given NAV-per-share.
pub open spec fn value_of_shares(shares: int, nav_per_share: int) -> int {
    shares * nav_per_share / (NAV_SCALE as int)
}

/// Converts a value amount into shares at the given NAV-per-share,
/// rejecting results that do not fit the stored 64-bit type.
pub fn shares_for_value(amount: u64, nav_per_share: u64) -> (r: Result<
    u64,
    StablebondError,
>)
    requires
        1 <= nav_per_share,
    ensures
        match r {
            Ok(shares) => shares == shares_of_value(amount as int, nav_per_share as int),
            Err(e) => {
                &&& e == StablebondError::MathOverflow
                &&& shares_of_value(amount as int, nav_per_share as int) > u64::MAX
            },
        },
{
    let wide: u128 = (amount as u128) * (NAV_SCALE as u128);
    let quotient: u128 = wide / (nav_per_share as u128);
    if quotient > u64::MAX as u128 {
        Err(StablebondError::MathOverflow)
    } else {
        Ok(quotient as u64)
    }
}

/// Converts a share count back into a value amount at the given
/// NAV-per-share, rejecting results that do not fit the stored 64-bit type.
pub fn value_for_shares(shares: u64, nav_per_share: u64) -> (r: Result<
    u64,
    StablebondError,
>)
    ensures
        match r {
            Ok(amount) => amount == value_of_shares(shares as int, nav_per_share as int),
            Err(e) => {
                &&& e == StablebondError::MathOverflow
                &&& value_of_shares(shares as int, nav_per_share as int) > u64::MAX
            },
        },
{
    proof {
        vstd::arithmetic::mul::lemma_mul_upper_bound(
            shares as int,
            u64::MAX as int,
            nav_per_share as int,
            u64::MAX as int,
        );
    }
    let wide: u128 = (shares as u128) * (nav_per_share as u128);
    let quotient: u128 = wide / (NAV_SCALE as u128);
    if quotient > u64::MAX as u128 {
        Err(StablebondError::MathOverflow)
    } else {
        Ok(quotient as u64)
    }
}

/// Denominator of a basis-point fraction: 10_000 equals 100%.
pub const BPS_DENOMINATOR: u64 = 10_000;

/// The basis-point fraction of an amount, rounded down.
pub open spec fn bps_of(amount: int, bps: int) -> int {
    amount * bps / (BPS_DENOMINATOR as int)
}

/// The fee of `fee_bps` basis points on an amount; never exceeds the
/// amount.
pub fn fee_amount(amount: u64, fee_bps: u16) -> (r: u64)
    requires
        fee_bps <= BPS_DENOMINATOR,
    ensures
        r == bps_of(amount as int, fee_bps as int),
        r <= amount,
{
    proof {
        vstd::arithmetic::mul::lemma_mul_upper_bound(
            amount as int,
            amount as int,
            fee_bps as int,
            BPS_DENOMINATOR as int,
        );
        vstd::arithmetic::div_mod::lemma_div_is_ordered(
            amount * fee_bps,
            amount * (BPS_DENOMINATOR as int),
            BPS_DENOMINATOR as int,
        );
        vstd::arithmetic::div_mod::lemma_div_multiples_vanish(
            amount as int,
            BPS_DENOMINATOR as int,
        );
        assert(amount * (BPS_DENOMINATOR as int) == (BPS_DENOMINATOR as int) * amount)
            by (nonlinear_arith);
        vstd::arithmetic::div_mod::lemma_div_pos_is_pos(
            amount * fee_bps,
            BPS_DENOMINATOR as int,
        );
        vstd::arithmetic::mul::lemma_mul_nonnegative(amount as int, fee_bps as int);
    }
    let wide: u128 = (amount as u128) * (fee_bps as u128);
    (wide / (BPS_DENOMINATOR as u128)) as u64
}

/// Converting a value into shares and the shares back into value never
/// over-credits: floor division loses at most the rounding remainder.
pub proof fn lemma_share_value_round_trip(amount: int, nav_per_share: int)
    requires
        0 <= amount,
        1 <= nav_per_share,
    ensures
        value_of_shares(shares_of_value(amount, nav_per_share), nav_per_share) <= amount,
{
    let s = shares_of_value(amount, nav_per_share);
    vstd::arithmetic::div_mod::lemma_div_pos_is_pos(amount * NAV_SCALE, nav_per_share as int);
    vstd::arithmetic::div_mod::lemma_fundamental_div_mod(amount * NAV_SCALE, nav_per_share as int);
    vstd::arithmetic::div_mod::lemma_mod_bound(amount * NAV_SCALE, nav_per_share as int);
    assert(nav_per_share * s <= amount * NAV_SCALE);
    vstd::arithmetic::mul::lemma_mul_is_commutative(s, nav_per_share);
    vstd::arithmetic::div_mod::lemma_div_is_ordered(
        s * nav_per_share,
        amount * NAV_SCALE,
        NAV_SCALE as int,
    );
    vstd::arithmetic::div_mod::lemma_div_multiples_vanish(amount, NAV_SCALE as int);
    assert(amount * NAV_SCALE == NAV_SCALE * amount) by (nonlinear_arith);
}

/// The round-trip rounding loss stays under one whole unit — at most
/// `NAV_SCALE - 1` minor units — whenever the NAV-per-share is at
/// most `NAV_SCALE * (NAV_SCALE - 1) + 1`. Above that, a single
/// share is worth more than a whole unit and one rounding step can
/// lose more.
pub proof fn lemma_round_trip_loss_bound(amount: int, nav_per_share: int)
    requires
        0 <= amount,
        1 <= nav_per_share <= NAV_SCALE * (NAV_SCALE - 1) + 1,
    ensures
        amount - value_of_shares(shares_of_value(amount, nav_per_share), nav_per_share)
            <= NAV_SCALE - 1,
{
    let scale = NAV_SCALE as int;
    let s = shares_of_value(amount, nav_per_share);
    let remainder = (amount * scale) % nav_per_share;
    vstd::arithmetic::div_mod::lemma_fundamental_div_mod(amount * scale, nav_per_share);
    vstd::arithmetic::div_mod::lemma_mod_bound(amount * scale, nav_per_share);
    vstd::arithmetic::mul::lemma_mul_is_commutative(s, nav_per_share);
    assert(s * nav_per_share == amount * scale - remainder);
    // The remainder is below the NAV, so the product of shares and
    // NAV undershoots the scaled amount by less than one whole unit
    // times the scale.
    assert(s * nav_per_share >= (amount - (scale - 1)) * scale);
    vstd::arithmetic::div_mod::lemma_div_is_ordered(
        (amount - (scale - 1)) * scale,
        s * nav_per_share,
        scale,
    );
    vstd::arithmetic::div_mod::lemma_div_multiples_vanish(amount - (scale - 1), scale);
    assert((amount - (scale - 1)) * scale == scale * (amount - (scale - 1)))
        by (nonlinear_arith);
}

} // verus!
