use stablebond::instrument::BondType;
use stablebond::instrument::YieldSourceType;
use stablebond::tier::allowed_bond_types;
use stablebond::tier::allowed_yield_sources;
use stablebond::tier::monthly_limit;
use stablebond::tier::tier_name_en;
use stablebond::tier::tier_name_ja;

#[test]
fn monthly_limits_for_us_tbill() {
    assert_eq!(monthly_limit(0, BondType::UsTBill), 0);
    assert_eq!(monthly_limit(1, BondType::UsTBill), 5_000_000_000);
    assert_eq!(monthly_limit(2, BondType::UsTBill), 50_000_000_000);
    assert_eq!(monthly_limit(3, BondType::UsTBill), 500_000_000_000);
    assert_eq!(monthly_limit(4, BondType::UsTBill), u64::MAX);
}

#[test]
fn monthly_limits_for_other_bonds() {
    assert_eq!(monthly_limit(2, BondType::MxCetes), 1_000_000_000_000);
    assert_eq!(monthly_limit(3, BondType::MxCetes), 10_000_000_000_000);
    assert_eq!(monthly_limit(3, BondType::BrTesouro), 2_500_000_000_000);
    assert_eq!(monthly_limit(1, BondType::JpJgb), 500_000_000_000);
    assert_eq!(monthly_limit(2, BondType::JpJgb), 5_000_000_000_000);
    assert_eq!(monthly_limit(4, BondType::Custom), u64::MAX);
    assert_eq!(monthly_limit(4, BondType::BrTesouro), u64::MAX);
}

#[test]
fn undefined_tier_gets_zero_limit() {
    assert_eq!(monthly_limit(5, BondType::UsTBill), 0);
    assert_eq!(monthly_limit(255, BondType::JpJgb), 0);
}

#[test]
fn disallowed_pairs_get_zero_limit() {
    // The pair must be within the tier's access set, or the ceiling
    // is zero.
    assert_eq!(monthly_limit(1, BondType::MxCetes), 0);
    assert_eq!(monthly_limit(1, BondType::BrTesouro), 0);
    assert_eq!(monthly_limit(2, BondType::BrTesouro), 0);
    assert_eq!(monthly_limit(1, BondType::Custom), 0);
    assert_eq!(monthly_limit(3, BondType::Custom), 0);
}

#[test]
fn tier_zero_has_no_access() {
    assert!(allowed_bond_types(0).is_empty());
    assert!(allowed_yield_sources(0).is_empty());
}

#[test]
fn allowed_bonds_grow_with_tier() {
    assert_eq!(
        allowed_bond_types(1),
        vec![BondType::UsTBill, BondType::JpJgb]
    );
    assert_eq!(
        allowed_bond_types(2),
        vec![BondType::UsTBill, BondType::JpJgb, BondType::MxCetes]
    );
    assert_eq!(
        allowed_bond_types(3),
        vec![
            BondType::UsTBill,
            BondType::JpJgb,
            BondType::MxCetes,
            BondType::BrTesouro
        ]
    );
    assert_eq!(
        allowed_bond_types(4),
        vec![
            BondType::UsTBill,
            BondType::JpJgb,
            BondType::MxCetes,
            BondType::BrTesouro,
            BondType::Custom
        ]
    );
    // Each tier's set contains the one below it.
    for tier in 1..4u8 {
        let lower = allowed_bond_types(tier);
        let higher = allowed_bond_types(tier + 1);
        assert!(lower.iter().all(|bt| higher.contains(bt)));
    }
}

#[test]
fn allowed_sources_grow_with_tier() {
    assert_eq!(
        allowed_yield_sources(1),
        vec![YieldSourceType::TBill, YieldSourceType::SovereignBond]
    );
    assert_eq!(
        allowed_yield_sources(2),
        vec![
            YieldSourceType::TBill,
            YieldSourceType::SovereignBond,
            YieldSourceType::Lending
        ]
    );
    assert_eq!(allowed_yield_sources(4).len(), 5);
    for tier in 1..4u8 {
        let lower = allowed_yield_sources(tier);
        let higher = allowed_yield_sources(tier + 1);
        assert!(lower.iter().all(|st| higher.contains(st)));
    }
}

#[test]
fn undefined_tier_gets_empty_sets() {
    assert!(allowed_bond_types(9).is_empty());
    assert!(allowed_yield_sources(200).is_empty());
}

#[test]
fn tier_names_english() {
    assert_eq!(tier_name_en(0), "Unverified");
    assert_eq!(tier_name_en(1), "Bronze");
    assert_eq!(tier_name_en(2), "Silver");
    assert_eq!(tier_name_en(3), "Gold");
    assert_eq!(tier_name_en(4), "Diamond");
    assert_eq!(tier_name_en(99), "Unknown");
}

#[test]
fn tier_names_japanese() {
    assert_eq!(tier_name_ja(0), "未認証");
    assert_eq!(tier_name_ja(1), "ブロンズ");
    assert_eq!(tier_name_ja(2), "シルバー");
    assert_eq!(tier_name_ja(3), "ゴールド");
    assert_eq!(tier_name_ja(4), "ダイヤモンド");
    assert_eq!(tier_name_ja(99), "不明");
}

#[test]
fn bond_type_metadata() {
    assert_eq!(BondType::UsTBill.as_str(), "US T-Bill");
    assert_eq!(BondType::MxCetes.as_str(), "MX CETES");
    assert_eq!(BondType::BrTesouro.as_str(), "BR Tesouro");
    assert_eq!(BondType::JpJgb.as_str(), "JP JGB");
    assert_eq!(BondType::Custom.as_str(), "Custom");
    assert_eq!(BondType::UsTBill.denomination_currency(), *b"USD");
    assert_eq!(BondType::MxCetes.denomination_currency(), *b"MXN");
    assert_eq!(BondType::BrTesouro.denomination_currency(), *b"BRL");
    assert_eq!(BondType::JpJgb.denomination_currency(), *b"JPY");
    assert_eq!(BondType::Custom.denomination_currency(), *b"USD");
    assert_eq!(BondType::UsTBill.default_apy_bps(), 450);
    assert_eq!(BondType::MxCetes.default_apy_bps(), 900);
    assert_eq!(BondType::BrTesouro.default_apy_bps(), 1300);
    assert_eq!(BondType::JpJgb.default_apy_bps(), 40);
    assert_eq!(BondType::Custom.default_apy_bps(), 0);
    assert_eq!(BondType::UsTBill.as_u8(), 0);
    assert_eq!(BondType::Custom.as_u8(), 4);
}

#[test]
fn yield_source_type_names() {
    assert_eq!(YieldSourceType::TBill.as_str(), "T-Bill");
    assert_eq!(YieldSourceType::Lending.as_str(), "Lending");
    assert_eq!(YieldSourceType::Staking.as_str(), "Staking");
    assert_eq!(YieldSourceType::Synthetic.as_str(), "Synthetic");
    assert_eq!(YieldSourceType::SovereignBond.as_str(), "Sovereign Bond");
}
