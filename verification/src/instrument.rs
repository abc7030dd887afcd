use vstd::prelude::*;

verus! {

/// Supported sovereign bond types.
#[derive(Clone, Copy, Debug, PartialEq, Eq, Structural)]
pub enum BondType {
    UsTBill,
    MxCetes,
    BrTesouro,
    JpJgb,
    Custom,
}

/// Display name of a bond type.
pub open spec fn bond_type_name(bt: BondType) -> Seq<char> {
    match bt {
        BondType::UsTBill => "US T-Bill"@,
        BondType::MxCetes => "MX CETES"@,
        BondType::BrTesouro => "BR Tesouro"@,
        BondType::JpJgb => "JP JGB"@,
        BondType::Custom => "Custom"@,
    }
}

/// Three-letter ISO code of the currency a bond type is denominated in.
pub open spec fn bond_type_currency(bt: BondType) -> Seq<u8> {
    match bt {
        BondType::UsTBill => seq![85u8, 83u8, 68u8],  // USD
        BondType::MxCetes => seq![77u8, 88u8, 78u8],  // MXN
        BondType::BrTesouro => seq![66u8, 82u8, 76u8],  // BRL
        BondType::JpJgb => seq![74u8, 80u8, 89u8],  // JPY
        BondType::Custom => seq![85u8, 83u8, 68u8],  // USD
    }
}

/// Default baseline APY of a bond type, in basis points.
pub open spec fn bond_type_default_apy(bt: BondType) -> u16 {
    match bt {
        BondType::UsTBill => 450,
        BondType::MxCetes => 900,
        BondType::BrTesouro => 1300,
        BondType::JpJgb => 40,
        BondType::Custom => 0,
    }
}

/// Single-byte ordinal of a bond type, matching the declared variant order.
pub open spec fn bond_type_ordinal(bt: BondType) -> u8 {
    match bt {
        BondType::UsTBill => 0,
        BondType::MxCetes => 1,
        BondType::BrTesouro => 2,
        BondType::JpJgb => 3,
        BondType::Custom => 4,
    }
}

impl BondType {
    pub fn as_str(&self) -> (r: &'static str)
        ensures
            r@ == bond_type_name(*self),
    {
        match self {
            BondType::UsTBill => "US T-Bill",
            BondType::MxCetes => "MX CETES",
            BondType::BrTesouro => "BR Tesouro",
            BondType::JpJgb => "JP JGB",
            BondType::Custom => "Custom",
        }
    }

    /// The 3-letter ISO currency code for the bond's denomination.
    pub fn denomination_currency(&self) -> (r: [u8; 3])
        ensures
            r@ == bond_type_currency(*self),
    {
        match self {
            BondType::UsTBill => [85, 83, 68],
            BondType::MxCetes => [77, 88, 78],
            BondType::BrTesouro => [66, 82, 76],
            BondType::JpJgb => [74, 80, 89],
            BondType::Custom => [85, 83, 68],
        }
    }

    /// The default baseline APY in basis points.
    pub fn default_apy_bps(&self) -> (r: u16)
        ensures
            r == bond_type_default_apy(*self),
    {
        match self {
            BondType::UsTBill => 450,
            BondType::MxCetes => 900,
            BondType::BrTesouro => 1300,
            BondType::JpJgb => 40,
            BondType::Custom => 0,
        }
    }

    pub fn as_u8(&self) -> (r: u8)
        ensures
            r == bond_type_ordinal(*self),
    {
        match self {
            BondType::UsTBill => 0,
            BondType::MxCetes => 1,
            BondType::BrTesouro => 2,
            BondType::JpJgb => 3,
            BondType::Custom => 4,
        }
    }
}

/// Categories of yield sources.
#[derive(Clone, Copy, Debug, PartialEq, Eq, Structural)]
pub enum YieldSourceType {
    TBill,
    Lending,
    Staking,
    Synthetic,
    SovereignBond,
}

/// Display name of a yield source type.
pub open spec fn yield_source_type_name(st: YieldSourceType) -> Seq<char> {
    match st {
        YieldSourceType::TBill => "T-Bill"@,
        YieldSourceType::Lending => "Lending"@,
        YieldSourceType::Staking => "Staking"@,
        YieldSourceType::Synthetic => "Synthetic"@,
        YieldSourceType::SovereignBond => "Sovereign Bond"@,
    }
}

impl YieldSourceType {
    pub fn as_str(&self) -> (r: &'static str)
        ensures
            r@ == yield_source_type_name(*self),
    {
        match self {
            YieldSourceType::TBill => "T-Bill",
            YieldSourceType::Lending => "Lending",
            YieldSourceType::Staking => "Staking",
            YieldSourceType::Synthetic => "Synthetic",
            YieldSourceType::SovereignBond => "Sovereign Bond",
        }
    }
}

/// Configuration of a registered sovereign bond type.
#[derive(Clone, Copy, Debug, PartialEq, Eq)]
pub struct BondConfig {
    /// Type of sovereign bond.
    pub bond_type: BondType,
    /// Mint of the bond's settlement/deposit currency.
    pub currency_mint: u64,
    /// Three-letter ISO code of the native currency.
    pub denomination_currency: [u8; 3],
    /// Price feed for the native currency against the settlement currency.
    pub oracle_feed: u64,
    /// Bond coupon rate in basis points.
    pub coupon_rate_bps: u16,
    /// Bond maturity as a unix timestamp; 0 means rolling, no maturity.
    pub maturity_date: i64,
    /// Face value per bond unit.
    pub face_value: u64,
    /// Collateral haircut in basis points.
    pub haircut_bps: u16,
    /// Baseline yield in basis points.
    pub default_apy_bps: u16,
    /// Minimum access tier required for this bond.
    pub min_tier: u8,
    /// Whether this bond type is currently active.
    pub is_active: bool,
}

} // verus!
