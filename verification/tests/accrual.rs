use stablebond::errors::BondVaultError;
use stablebond::instrument::BondType;
use stablebond::vault::BondVault;
use stablebond::vault::SECONDS_PER_YEAR;
use stablebond::vault::UserShares;
use stablebond::vault::accrue_yield;
use stablebond::vault::deposit;
use stablebond::vault::initialize_vault;
use stablebond::vault::update_apy;
use stablebond::vault::withdraw;

const AUTHORITY: u64 = 1;
const VAULT_KEY: u64 = 50;
const USER: u64 = 42;

fn vault() -> BondVault {
    BondVault {
        authority: AUTHORITY,
        currency_mint: 2,
        share_mint: 3,
        currency_vault: 4,
        bond_type: BondType::UsTBill,
        coupon_rate_bps: 450,
        maturity_date: 0,
        target_apy_bps: 450,
        total_deposits: 1_000_000,
        total_shares: 1_000_000,
        nav_per_share: 1_000_000,
        last_accrual: 0,
        is_active: true,
    }
}

fn shares_of(user: u64) -> UserShares {
    UserShares {
        user,
        vault: VAULT_KEY,
        shares: 0,
        deposited_amount: 0,
        last_deposit_at: 0,
    }
}

#[test]
fn one_year_at_450_bps_accrues_to_1_045_000() {
    let mut v = vault();
    assert_eq!(accrue_yield(&mut v, SECONDS_PER_YEAR as i64), Ok(()));
    assert_eq!(v.nav_per_share, 1_045_000);
    assert_eq!(v.last_accrual, SECONDS_PER_YEAR as i64);
}

#[test]
fn half_year_accrues_half_the_increment() {
    let mut v = vault();
    assert_eq!(accrue_yield(&mut v, (SECONDS_PER_YEAR / 2) as i64), Ok(()));
    assert_eq!(v.nav_per_share, 1_022_500);
}

#[test]
fn accrual_is_monotonic_across_calls() {
    let mut v = vault();
    let nav0 = v.nav_per_share;
    accrue_yield(&mut v, 1_000_000).unwrap();
    let nav1 = v.nav_per_share;
    accrue_yield(&mut v, 9_000_000).unwrap();
    let nav2 = v.nav_per_share;
    assert!(nav0 <= nav1 && nav1 <= nav2);
    assert!(nav2 > nav0);
}

#[test]
fn accrual_stops_at_maturity() {
    let mut v = BondVault { maturity_date: 5_000, last_accrual: 4_000, ..vault() };
    let frozen = v;
    assert_eq!(accrue_yield(&mut v, 5_000), Ok(()));
    assert_eq!(v, frozen);
    assert_eq!(accrue_yield(&mut v, 6_000), Ok(()));
    assert_eq!(v, frozen);
    assert_eq!(accrue_yield(&mut v, 1_000_000), Ok(()));
    assert_eq!(v, frozen);
}

#[test]
fn accrual_before_maturity_still_runs() {
    let mut v = BondVault { maturity_date: 5_000, last_accrual: 0, ..vault() };
    assert_eq!(accrue_yield(&mut v, 4_999), Ok(()));
    assert_eq!(v.last_accrual, 4_999);
}

#[test]
fn zero_elapsed_and_zero_shares_are_no_ops() {
    let mut v = BondVault { last_accrual: 7_000, ..vault() };
    let before = v;
    assert_eq!(accrue_yield(&mut v, 7_000), Ok(()));
    assert_eq!(v, before);

    let mut v = BondVault { total_shares: 0, ..vault() };
    let before = v;
    assert_eq!(accrue_yield(&mut v, 9_999), Ok(()));
    assert_eq!(v, before);
}

#[test]
fn inactive_vault_cannot_accrue() {
    let mut v = BondVault { is_active: false, ..vault() };
    assert_eq!(accrue_yield(&mut v, 1_000), Err(BondVaultError::VaultNotActive));
}

#[test]
fn accrual_overflow_is_rejected() {
    let mut v = BondVault {
        nav_per_share: u64::MAX,
        target_apy_bps: 1,
        ..vault()
    };
    let before = v;
    let far = 315_360_000_000_000i64; // 10_000 years worth of rate-seconds
    assert_eq!(accrue_yield(&mut v, far), Err(BondVaultError::MathOverflow));
    assert_eq!(v, before);
}

#[test]
fn initialize_vault_starts_at_par() {
    let v = initialize_vault(
        AUTHORITY,
        2,
        3,
        4,
        BondType::JpJgb,
        40,
        35,
        1_000_000,
        500,
    )
    .unwrap();
    assert_eq!(v.nav_per_share, 1_000_000);
    assert_eq!(v.total_deposits, 0);
    assert_eq!(v.total_shares, 0);
    assert_eq!(v.last_accrual, 500);
    assert!(v.is_active);
    assert_eq!(v.bond_type, BondType::JpJgb);
    assert_eq!(v.target_apy_bps, 40);
}

#[test]
fn initialize_vault_caps_apy() {
    let r = initialize_vault(AUTHORITY, 2, 3, 4, BondType::UsTBill, 5_001, 0, 0, 0);
    assert_eq!(r, Err(BondVaultError::InvalidApy));
}

#[test]
fn update_apy_checks_cap_and_authority() {
    let mut v = vault();
    assert_eq!(update_apy(&mut v, AUTHORITY, 5_001), Err(BondVaultError::InvalidApy));
    assert_eq!(update_apy(&mut v, 99, 500), Err(BondVaultError::Unauthorized));
    assert_eq!(v.target_apy_bps, 450);
    assert_eq!(update_apy(&mut v, AUTHORITY, 900), Ok(()));
    assert_eq!(v.target_apy_bps, 900);
}

#[test]
fn vault_deposit_mints_and_tracks_user() {
    let mut v = vault();
    let mut us = shares_of(USER);
    let r = deposit(&mut v, &mut us, USER, VAULT_KEY, 500_000, 3_000);
    assert_eq!(r, Ok(500_000));
    assert_eq!(v.total_deposits, 1_500_000);
    assert_eq!(v.total_shares, 1_500_000);
    assert_eq!(us.shares, 500_000);
    assert_eq!(us.deposited_amount, 500_000);
    assert_eq!(us.last_deposit_at, 3_000);
    assert_eq!(us.user, USER);
    assert_eq!(us.vault, VAULT_KEY);
}

#[test]
fn vault_deposit_rejects_zero_and_inactive() {
    let mut v = vault();
    let mut us = shares_of(USER);
    assert_eq!(
        deposit(&mut v, &mut us, USER, VAULT_KEY, 0, 3_000),
        Err(BondVaultError::ZeroDeposit)
    );
    let mut v = BondVault { is_active: false, ..vault() };
    assert_eq!(
        deposit(&mut v, &mut us, USER, VAULT_KEY, 10, 3_000),
        Err(BondVaultError::VaultNotActive)
    );
}

#[test]
fn vault_withdraw_pays_at_current_nav() {
    let mut v = BondVault { nav_per_share: 1_100_000, ..vault() };
    let mut us = UserShares { shares: 600_000, ..shares_of(USER) };
    // 500_000 shares at 1.1 pay 550_000.
    let r = withdraw(&mut v, &mut us, 500_000, 2_000_000);
    assert_eq!(r, Ok(550_000));
    assert_eq!(us.shares, 100_000);
    assert_eq!(v.total_shares, 500_000);
    assert_eq!(v.total_deposits, 450_000);
}

#[test]
fn vault_withdraw_rejections() {
    let mut v = vault();
    let mut us = UserShares { shares: 100, ..shares_of(USER) };
    assert_eq!(
        withdraw(&mut v, &mut us, 0, 1_000_000),
        Err(BondVaultError::ZeroWithdrawal)
    );
    assert_eq!(
        withdraw(&mut v, &mut us, 101, 1_000_000),
        Err(BondVaultError::InsufficientShares)
    );
    // Balance cannot cover the payout.
    assert_eq!(
        withdraw(&mut v, &mut us, 100, 99),
        Err(BondVaultError::InsufficientVaultBalance)
    );
    let mut inactive = BondVault { is_active: false, ..vault() };
    assert_eq!(
        withdraw(&mut inactive, &mut us, 100, 1_000_000),
        Err(BondVaultError::VaultNotActive)
    );
    assert_eq!(us.shares, 100);
}
