use stablebond::deposit::handle_deposit_cross_currency;
use stablebond::deposit::handle_deposit_direct;
use stablebond::errors::StablebondError;
use stablebond::identity::ComplianceEntry;
use stablebond::identity::SovereignIdentity;
use stablebond::instrument::BondType;
use stablebond::instrument::YieldSourceType;
use stablebond::pending::DepositStatus;
use stablebond::position::MONTH_SECONDS;
use stablebond::position::UserPosition;
use stablebond::protocol::ProtocolConfig;
use stablebond::source::YieldSource;

const CONFIG_KEY: u64 = 100;
const USER: u64 = 42;

fn config() -> ProtocolConfig {
    ProtocolConfig {
        authority: 1,
        treasury: 2,
        usdc_mint: 3,
        usdc_vault: 4,
        kyc_registry: 5,
        sovereign_program: 6,
        bond_registry: 7,
        conversion_fee_bps: 50,
        management_fee_bps: 100,
        performance_fee_bps: 1000,
        total_deposits: 0,
        total_yield_earned: 0,
        pending_conversion: 0,
        deposit_nonce: 0,
        num_supported_bonds: 1,
        is_active: true,
        created_at: 1_000,
        updated_at: 1_000,
    }
}

fn entry() -> ComplianceEntry {
    ComplianceEntry {
        owner: USER,
        is_active: true,
        jurisdiction: 1,
        expires_at: 10_000_000_000,
    }
}

fn identity(tier: u8) -> SovereignIdentity {
    SovereignIdentity { owner: USER, tier }
}

fn blank_pos() -> UserPosition {
    UserPosition {
        owner: 0,
        protocol_config: 0,
        bond_type: BondType::UsTBill,
        total_deposited: 0,
        current_shares: 0,
        cost_basis: 0,
        realized_yield: 0,
        sovereign_tier: 0,
        monthly_deposited: 0,
        month_start: 0,
        deposit_count: 0,
        withdrawal_count: 0,
        last_deposit_at: 0,
        last_withdrawal_at: 0,
        deposit_nonce: 0,
        created_at: 0,
    }
}

fn existing_pos() -> UserPosition {
    UserPosition {
        owner: USER,
        protocol_config: CONFIG_KEY,
        bond_type: BondType::UsTBill,
        sovereign_tier: 1,
        monthly_deposited: 0,
        month_start: 2_000,
        created_at: 1_500,
        ..blank_pos()
    }
}

fn ys() -> YieldSource {
    YieldSource {
        protocol_config: CONFIG_KEY,
        name: [0; 32],
        source_type: YieldSourceType::SovereignBond,
        token_mint: 11,
        deposit_vault: 12,
        yield_token_vault: 13,
        current_apy_bps: 450,
        total_deposited: 0,
        total_shares: 0,
        allocation_weight_bps: 0,
        min_deposit: 0,
        max_allocation: u64::MAX,
        is_active: true,
        last_nav_update: 1_000,
        nav_per_share: 1_000_000,
        bond_type: BondType::UsTBill,
        currency_mint: 14,
        oracle_feed: 15,
        coupon_rate_bps: 0,
        maturity_date: 0,
        haircut_bps: 0,
    }
}

#[test]
fn direct_deposit_mints_shares_at_par() {
    let mut c = config();
    let mut s = ys();
    let mut pos = blank_pos();
    let r = handle_deposit_direct(
        &mut c,
        &mut s,
        &mut pos,
        &entry(),
        &identity(2),
        USER,
        CONFIG_KEY,
        1_000_000,
        BondType::UsTBill,
        2_000,
    );
    assert_eq!(r, Ok(1_000_000));
    assert_eq!(pos.owner, USER);
    assert_eq!(pos.protocol_config, CONFIG_KEY);
    assert_eq!(pos.created_at, 2_000);
    assert_eq!(pos.month_start, 2_000);
    assert_eq!(pos.monthly_deposited, 1_000_000);
    assert_eq!(pos.total_deposited, 1_000_000);
    assert_eq!(pos.current_shares, 1_000_000);
    assert_eq!(pos.cost_basis, 1_000_000);
    assert_eq!(pos.deposit_count, 1);
    assert_eq!(pos.sovereign_tier, 2);
    assert_eq!(s.total_deposited, 1_000_000);
    assert_eq!(s.total_shares, 1_000_000);
    assert_eq!(c.total_deposits, 1_000_000);
    assert_eq!(c.updated_at, 2_000);
}

#[test]
fn direct_deposit_at_higher_nav_mints_fewer_shares() {
    let mut c = config();
    let mut s = YieldSource { nav_per_share: 1_250_000, ..ys() };
    let mut pos = blank_pos();
    let r = handle_deposit_direct(
        &mut c,
        &mut s,
        &mut pos,
        &entry(),
        &identity(2),
        USER,
        CONFIG_KEY,
        1_000_000,
        BondType::UsTBill,
        2_000,
    );
    assert_eq!(r, Ok(800_000));
}

#[test]
fn paused_protocol_rejects_deposits() {
    let mut c = ProtocolConfig { is_active: false, ..config() };
    let before = c;
    let mut s = ys();
    let mut pos = blank_pos();
    let r = handle_deposit_direct(
        &mut c,
        &mut s,
        &mut pos,
        &entry(),
        &identity(2),
        USER,
        CONFIG_KEY,
        1_000,
        BondType::UsTBill,
        2_000,
    );
    assert_eq!(r, Err(StablebondError::ProtocolNotActive));
    assert_eq!(c, before);
    assert_eq!(pos, blank_pos());
}

#[test]
fn zero_amount_is_rejected() {
    let mut c = config();
    let mut s = ys();
    let mut pos = blank_pos();
    let r = handle_deposit_direct(
        &mut c,
        &mut s,
        &mut pos,
        &entry(),
        &identity(2),
        USER,
        CONFIG_KEY,
        0,
        BondType::UsTBill,
        2_000,
    );
    assert_eq!(r, Err(StablebondError::ZeroDeposit));
}

#[test]
fn inactive_source_and_minimum_are_enforced() {
    let mut c = config();
    let mut s = YieldSource { is_active: false, ..ys() };
    let mut pos = blank_pos();
    let r = handle_deposit_direct(
        &mut c,
        &mut s,
        &mut pos,
        &entry(),
        &identity(2),
        USER,
        CONFIG_KEY,
        1_000,
        BondType::UsTBill,
        2_000,
    );
    assert_eq!(r, Err(StablebondError::YieldSourceNotActive));

    let mut s = YieldSource { min_deposit: 5_000, ..ys() };
    let r = handle_deposit_direct(
        &mut c,
        &mut s,
        &mut pos,
        &entry(),
        &identity(2),
        USER,
        CONFIG_KEY,
        4_999,
        BondType::UsTBill,
        2_000,
    );
    assert_eq!(r, Err(StablebondError::BelowMinDeposit));
}

#[test]
fn source_bond_type_must_match_request() {
    let mut c = config();
    let mut s = ys();
    let mut pos = UserPosition { bond_type: BondType::JpJgb, ..existing_pos() };
    let r = handle_deposit_direct(
        &mut c,
        &mut s,
        &mut pos,
        &entry(),
        &identity(2),
        USER,
        CONFIG_KEY,
        1_000,
        BondType::JpJgb,
        2_500,
    );
    assert_eq!(r, Err(StablebondError::BondTypeNotFound));
}

#[test]
fn compliance_failures_reject_in_order() {
    let mut c = config();
    let mut s = ys();
    let mut pos = blank_pos();
    let wrong_owner = ComplianceEntry { owner: 7, ..entry() };
    let r = handle_deposit_direct(
        &mut c,
        &mut s,
        &mut pos,
        &wrong_owner,
        &identity(2),
        USER,
        CONFIG_KEY,
        1_000,
        BondType::UsTBill,
        2_000,
    );
    assert_eq!(r, Err(StablebondError::KycRequired));

    let inactive = ComplianceEntry { is_active: false, ..entry() };
    let r = handle_deposit_direct(
        &mut c,
        &mut s,
        &mut pos,
        &inactive,
        &identity(2),
        USER,
        CONFIG_KEY,
        1_000,
        BondType::UsTBill,
        2_000,
    );
    assert_eq!(r, Err(StablebondError::KycRequired));

    let blocked = ComplianceEntry { jurisdiction: 4, ..entry() };
    let r = handle_deposit_direct(
        &mut c,
        &mut s,
        &mut pos,
        &blocked,
        &identity(2),
        USER,
        CONFIG_KEY,
        1_000,
        BondType::UsTBill,
        2_000,
    );
    assert_eq!(r, Err(StablebondError::JurisdictionRestricted));

    let expired = ComplianceEntry { expires_at: 2_000, ..entry() };
    let r = handle_deposit_direct(
        &mut c,
        &mut s,
        &mut pos,
        &expired,
        &identity(2),
        USER,
        CONFIG_KEY,
        1_000,
        BondType::UsTBill,
        2_000,
    );
    assert_eq!(r, Err(StablebondError::KycExpired));
}

#[test]
fn identity_and_tier_gates() {
    let mut c = config();
    let mut s = ys();
    let mut pos = blank_pos();
    let foreign = SovereignIdentity { owner: 7, tier: 2 };
    let r = handle_deposit_direct(
        &mut c,
        &mut s,
        &mut pos,
        &entry(),
        &foreign,
        USER,
        CONFIG_KEY,
        1_000,
        BondType::UsTBill,
        2_000,
    );
    assert_eq!(r, Err(StablebondError::SovereignIdentityNotFound));

    let r = handle_deposit_direct(
        &mut c,
        &mut s,
        &mut pos,
        &entry(),
        &identity(0),
        USER,
        CONFIG_KEY,
        1_000,
        BondType::UsTBill,
        2_000,
    );
    assert_eq!(r, Err(StablebondError::TierTooLow));
}

#[test]
fn bond_type_not_allowed_for_low_tier() {
    let mut c = config();
    let mut s = YieldSource { bond_type: BondType::MxCetes, ..ys() };
    let mut pos = UserPosition { bond_type: BondType::MxCetes, ..blank_pos() };
    let r = handle_deposit_direct(
        &mut c,
        &mut s,
        &mut pos,
        &entry(),
        &identity(1),
        USER,
        CONFIG_KEY,
        1_000,
        BondType::MxCetes,
        2_000,
    );
    assert_eq!(r, Err(StablebondError::BondTypeNotAllowed));
}

#[test]
fn source_category_not_allowed_for_low_tier() {
    let mut c = config();
    let mut s = YieldSource { source_type: YieldSourceType::Lending, ..ys() };
    let mut pos = blank_pos();
    let r = handle_deposit_direct(
        &mut c,
        &mut s,
        &mut pos,
        &entry(),
        &identity(1),
        USER,
        CONFIG_KEY,
        1_000,
        BondType::UsTBill,
        2_000,
    );
    assert_eq!(r, Err(StablebondError::YieldSourceNotAllowed));
}

#[test]
fn monthly_ceiling_rejects_at_limit() {
    // Tier 1 US T-Bill ceiling: 5_000_000_000.
    let mut c = config();
    let mut pos = UserPosition {
        monthly_deposited: 5_000_000_000,
        ..existing_pos()
    };
    let before = pos;
    let r = handle_deposit_cross_currency(
        &mut c,
        &mut pos,
        &entry(),
        &identity(1),
        USER,
        CONFIG_KEY,
        1,
        BondType::UsTBill,
        0,
        2_500,
    );
    assert_eq!(r, Err(StablebondError::MonthlyLimitExceeded));
    assert_eq!(pos, before);
    assert_eq!(c, config());
}

#[test]
fn monthly_window_resets_after_thirty_days() {
    let mut c = config();
    let mut pos = UserPosition {
        monthly_deposited: 5_000_000_000,
        ..existing_pos()
    };
    let later = 2_000 + MONTH_SECONDS;
    let r = handle_deposit_cross_currency(
        &mut c,
        &mut pos,
        &entry(),
        &identity(1),
        USER,
        CONFIG_KEY,
        700,
        BondType::UsTBill,
        0,
        later,
    );
    assert_eq!(r.unwrap().source_amount, 700);
    assert_eq!(pos.monthly_deposited, 700);
    assert_eq!(pos.month_start, later);
}

#[test]
fn monthly_counter_overflow_is_rejected() {
    let mut c = config();
    let mut pos = UserPosition {
        monthly_deposited: u64::MAX - 5,
        ..existing_pos()
    };
    let r = handle_deposit_cross_currency(
        &mut c,
        &mut pos,
        &entry(),
        &identity(4),
        USER,
        CONFIG_KEY,
        10,
        BondType::UsTBill,
        0,
        2_500,
    );
    assert_eq!(r, Err(StablebondError::MathOverflow));
}

#[test]
fn monthly_reset_boundary() {
    let mut pos = existing_pos();
    // One second short of 30 days: nothing changes.
    pos.monthly_deposited = 500;
    pos.maybe_reset_monthly(2_000 + MONTH_SECONDS - 1);
    assert_eq!(pos.monthly_deposited, 500);
    assert_eq!(pos.month_start, 2_000);
    // Exactly 30 days: the window restarts.
    pos.maybe_reset_monthly(2_000 + MONTH_SECONDS);
    assert_eq!(pos.monthly_deposited, 0);
    assert_eq!(pos.month_start, 2_000 + MONTH_SECONDS);
}

#[test]
fn cross_deposit_creates_pending_record() {
    let mut c = config();
    let mut pos = blank_pos();
    let r = handle_deposit_cross_currency(
        &mut c,
        &mut pos,
        &entry(),
        &identity(2),
        USER,
        CONFIG_KEY,
        1_000_000,
        BondType::UsTBill,
        400_000,
        10_000,
    )
    .unwrap();
    assert_eq!(r.user, USER);
    assert_eq!(r.protocol_config, CONFIG_KEY);
    assert_eq!(r.bond_type, BondType::UsTBill);
    assert_eq!(r.source_amount, 1_000_000);
    assert_eq!(r.min_output, 400_000);
    assert_eq!(r.deposited_at, 10_000);
    assert_eq!(r.expires_at, 10_000 + 24 * 60 * 60);
    assert_eq!(r.status, DepositStatus::Pending);
    assert_eq!(r.conversion_rate, 0);
    assert_eq!(r.settlement_received, 0);
    assert_eq!(r.fee_paid, 0);
    assert_eq!(r.nonce, 1);
    assert_eq!(c.deposit_nonce, 1);
    assert_eq!(c.pending_conversion, 1_000_000);
    assert_eq!(pos.deposit_nonce, 1);
    assert_eq!(pos.total_deposited, 1_000_000);
    assert_eq!(pos.monthly_deposited, 1_000_000);
    // No shares are issued before conversion.
    assert_eq!(pos.current_shares, 0);
    assert_eq!(pos.cost_basis, 0);
}
