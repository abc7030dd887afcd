use vstd::prelude::*;

use crate::instrument::BondType;
use crate::instrument::YieldSourceType;

verus! {

// Tier 0 = Unverified (no access)
// Tier 1 = Bronze (basic verification)
// Tier 2 = Silver (enhanced verification)
// Tier 3 = Gold (accredited investor)
// Tier 4 = Diamond (institutional)

/// Whether a tier may access a bond type. Each tier's set of allowed
/// bonds contains the set of every lower tier; tier 0 has none.
pub open spec fn tier_allows_bond(tier: u8, bt: BondType) -> bool {
    match bt {
        BondType::UsTBill => 1 <= tier <= 4,
        BondType::JpJgb => 1 <= tier <= 4,
        BondType::MxCetes => 2 <= tier <= 4,
        BondType::BrTesouro => 3 <= tier <= 4,
        BondType::Custom => tier == 4,
    }
}

/// Whether a tier may access a yield source category. Each tier's set
/// contains the set of every lower tier; tier 0 has none.
pub open spec fn tier_allows_source(tier: u8, st: YieldSourceType) -> bool {
    match st {
        YieldSourceType::TBill => 1 <= tier <= 4,
        YieldSourceType::SovereignBond => 1 <= tier <= 4,
        YieldSourceType::Lending => 2 <= tier <= 4,
        YieldSourceType::Staking => 3 <= tier <= 4,
        YieldSourceType::Synthetic => tier == 4,
    }
}

/// A tier ladder of monthly ceilings: tiers 1 to 3 get the given
/// amounts, the top tier is unlimited, anything else gets zero.
pub open spec fn limit_ladder(tier: u8, t1: u64, t2: u64, t3: u64) -> u64 {
    if tier == 1 {
        t1
    } else if tier == 2 {
        t2
    } else if tier == 3 {
        t3
    } else if tier == 4 {
        u64::MAX
    } else {
        0
    }
}

/// Monthly deposit ceiling by tier and bond type, in minor units
/// (6 decimals) of the bond's native currency; zero for any pair the
/// tier may not access.
pub open spec fn monthly_limit_for(tier: u8, bt: BondType) -> u64 {
    if !tier_allows_bond(tier, bt) {
        0
    } else {
        monthly_limit_table(tier, bt)
    }
}

/// The ceiling ladder of each bond type, before the access gate.
pub open spec fn monthly_limit_table(tier: u8, bt: BondType) -> u64 {
    match bt {
        BondType::UsTBill => limit_ladder(
            tier,
            5_000_000_000,
            50_000_000_000,
            500_000_000_000,
        ),
        BondType::MxCetes => limit_ladder(
            tier,
            100_000_000_000,
            1_000_000_000_000,
            10_000_000_000_000,
        ),
        BondType::BrTesouro => limit_ladder(
            tier,
            25_000_000_000,
            250_000_000_000,
            2_500_000_000_000,
        ),
        BondType::JpJgb => limit_ladder(
            tier,
            500_000_000_000,
            5_000_000_000_000,
            50_000_000_000_000,
        ),
        BondType::Custom => limit_ladder(
            tier,
            5_000_000_000,
            50_000_000_000,
            500_000_000_000,
        ),
    }
}

/// Multi-currency monthly deposit limit by tier and bond type.
/// Returns the amount in minor units of the bond's native currency;
/// zero for tier 0, an unknown tier, or a bond type the tier may not
/// access.
pub fn monthly_limit(tier: u8, bond_type: BondType) -> (r: u64)
    ensures
        r == monthly_limit_for(tier, bond_type),
{
    if !bond_allowed_for_tier(tier, bond_type) {
        return 0;
    }
    match bond_type {
        BondType::UsTBill => {
            if tier == 1 {
                5_000_000_000
            } else if tier == 2 {
                50_000_000_000
            } else if tier == 3 {
                500_000_000_000
            } else {
                u64::MAX
            }
        },
        BondType::MxCetes => {
            if tier == 1 {
                100_000_000_000
            } else if tier == 2 {
                1_000_000_000_000
            } else if tier == 3 {
                10_000_000_000_000
            } else {
                u64::MAX
            }
        },
        BondType::BrTesouro => {
            if tier == 1 {
                25_000_000_000
            } else if tier == 2 {
                250_000_000_000
            } else if tier == 3 {
                2_500_000_000_000
            } else {
                u64::MAX
            }
        },
        BondType::JpJgb => {
            if tier == 1 {
                500_000_000_000
            } else if tier == 2 {
                5_000_000_000_000
            } else if tier == 3 {
                50_000_000_000_000
            } else {
                u64::MAX
            }
        },
        BondType::Custom => {
            if tier == 1 {
                5_000_000_000
            } else if tier == 2 {
                50_000_000_000
            } else if tier == 3 {
                500_000_000_000
            } else {
                u64::MAX
            }
        },
    }
}

/// Whether a tier may access a bond type.
pub fn bond_allowed_for_tier(tier: u8, bond_type: BondType) -> (r: bool)
    ensures
        r == tier_allows_bond(tier, bond_type),
{
    match bond_type {
        BondType::UsTBill => 1 <= tier && tier <= 4,
        BondType::JpJgb => 1 <= tier && tier <= 4,
        BondType::MxCetes => 2 <= tier && tier <= 4,
        BondType::BrTesouro => 3 <= tier && tier <= 4,
        BondType::Custom => tier == 4,
    }
}

/// Whether a tier may access a yield source category.
pub fn source_allowed_for_tier(tier: u8, source_type: YieldSourceType) -> (r: bool)
    ensures
        r == tier_allows_source(tier, source_type),
{
    match source_type {
        YieldSourceType::TBill => 1 <= tier && tier <= 4,
        YieldSourceType::SovereignBond => 1 <= tier && tier <= 4,
        YieldSourceType::Lending => 2 <= tier && tier <= 4,
        YieldSourceType::Staking => 3 <= tier && tier <= 4,
        YieldSourceType::Synthetic => tier == 4,
    }
}

/// The bond types a tier can access, as a duplicate-free list.
pub fn allowed_bond_types(tier: u8) -> (r: Vec<BondType>)
    ensures
        forall|bt: BondType| r@.contains(bt) <==> tier_allows_bond(tier, bt),
        r@.no_duplicates(),
{
    let mut r: Vec<BondType> = Vec::new();
    if 1 <= tier && tier <= 4 {
        r.push(BondType::UsTBill);
        r.push(BondType::JpJgb);
    }
    if 2 <= tier && tier <= 4 {
        r.push(BondType::MxCetes);
    }
    if 3 <= tier && tier <= 4 {
        r.push(BondType::BrTesouro);
    }
    if tier == 4 {
        r.push(BondType::Custom);
    }
    proof {
        assert forall|bt: BondType| r@.contains(bt) implies tier_allows_bond(tier, bt) by {
            let i = choose|i: int| 0 <= i < r@.len() && r@[i] == bt;
        }
        assert forall|bt: BondType| tier_allows_bond(tier, bt) implies r@.contains(bt) by {
            if tier_allows_bond(tier, bt) {
                match bt {
                    BondType::UsTBill => assert(r@[0] == bt),
                    BondType::JpJgb => assert(r@[1] == bt),
                    BondType::MxCetes => assert(r@[2] == bt),
                    BondType::BrTesouro => assert(r@[3] == bt),
                    BondType::Custom => assert(r@[4] == bt),
                }
            }
        }
    }
    r
}

/// The yield source categories a tier can access, as a duplicate-free list.
pub fn allowed_yield_sources(tier: u8) -> (r: Vec<YieldSourceType>)
    ensures
        forall|st: YieldSourceType| r@.contains(st) <==> tier_allows_source(tier, st),
        r@.no_duplicates(),
{
    let mut r: Vec<YieldSourceType> = Vec::new();
    if 1 <= tier && tier <= 4 {
        r.push(YieldSourceType::TBill);
        r.push(YieldSourceType::SovereignBond);
    }
    if 2 <= tier && tier <= 4 {
        r.push(YieldSourceType::Lending);
    }
    if 3 <= tier && tier <= 4 {
        r.push(YieldSourceType::Staking);
    }
    if tier == 4 {
        r.push(YieldSourceType::Synthetic);
    }
    proof {
        assert forall|st: YieldSourceType| r@.contains(st) implies tier_allows_source(tier, st) by {
            let i = choose|i: int| 0 <= i < r@.len() && r@[i] == st;
        }
        assert forall|st: YieldSourceType| tier_allows_source(tier, st) implies r@.contains(st) by {
            if tier_allows_source(tier, st) {
                match st {
                    YieldSourceType::TBill => assert(r@[0] == st),
                    YieldSourceType::SovereignBond => assert(r@[1] == st),
                    YieldSourceType::Lending => assert(r@[2] == st),
                    YieldSourceType::Staking => assert(r@[3] == st),
                    YieldSourceType::Synthetic => assert(r@[4] == st),
                }
            }
        }
    }
    r
}

/// Access is monotonic in tier: every bond type and yield source
/// category available to a tier is available to every higher tier
/// up to the top tier.
pub proof fn lemma_tier_access_monotonic(lower: u8, higher: u8)
    requires
        lower <= higher,
        higher <= 4,
    ensures
        forall|bt: BondType| tier_allows_bond(lower, bt) ==> tier_allows_bond(higher, bt),
        forall|st: YieldSourceType| tier_allows_source(lower, st) ==> tier_allows_source(
            higher,
            st,
        ),
{
}

/// Tier display name in English.
pub open spec fn tier_label_en(tier: u8) -> Seq<char> {
    if tier == 0 {
        "Unverified"@
    } else if tier == 1 {
        "Bronze"@
    } else if tier == 2 {
        "Silver"@
    } else if tier == 3 {
        "Gold"@
    } else if tier == 4 {
        "Diamond"@
    } else {
        "Unknown"@
    }
}

/// Tier display name in Japanese.
pub open spec fn tier_label_ja(tier: u8) -> Seq<char> {
    if tier == 0 {
        "未認証"@
    } else if tier == 1 {
        "ブロンズ"@
    } else if tier == 2 {
        "シルバー"@
    } else if tier == 3 {
        "ゴールド"@
    } else if tier == 4 {
        "ダイヤモンド"@
    } else {
        "不明"@
    }
}

/// Tier display name in English.
pub fn tier_name_en(tier: u8) -> (r: &'static str)
    ensures
        r@ == tier_label_en(tier),
{
    match tier {
        0 => "Unverified",
        1 => "Bronze",
        2 => "Silver",
        3 => "Gold",
        4 => "Diamond",
        _ => "Unknown",
    }
}

/// Tier display name in Japanese.
pub fn tier_name_ja(tier: u8) -> (r: &'static str)
    ensures
        r@ == tier_label_ja(tier),
{
    match tier {
        0 => "未認証",
        1 => "ブロンズ",
        2 => "シルバー",
        3 => "ゴールド",
        4 => "ダイヤモンド",
        _ => "不明",
    }
}

} // verus!
