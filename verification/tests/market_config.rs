use phoenix_amm::decimal::ScaledDecimal;
use phoenix_amm::market::{Address, ConfigError, MarketConfiguration, MarketMetadata};
use rust_decimal::Decimal;

fn sample_metadata() -> MarketMetadata {
    MarketMetadata {
        base_mint: Address { bytes: [7u8; 32] },
        quote_mint: Address { bytes: [9u8; 32] },
        base_decimals: 9,
        quote_decimals: 6,
        base_lot_size: 1_000_000,
        quote_lot_size: 100,
        tick_size_in_quote_atoms_per_base_unit: 1_000,
        base_lots_per_base_unit: 1_000,
        taker_fee_bps: 2,
    }
}

#[test]
fn configuration_is_derived_from_metadata() {
    let meta = sample_metadata();
    let cfg = MarketConfiguration::new(&meta).unwrap();
    assert_eq!(cfg.base_mint, meta.base_mint);
    assert_eq!(cfg.quote_mint, meta.quote_mint);
    assert_eq!(cfg.base_decimals, 9);
    assert_eq!(cfg.quote_decimals, 6);
    assert_eq!(cfg.base_lot_size, 1_000_000);
    assert_eq!(cfg.quote_lot_size, 100);
    assert_eq!(cfg.base_lots_per_base_unit, 1_000);
    assert_eq!(cfg.tick_size_in_quote_lots_per_base_unit_per_tick, 10);
    assert_eq!(cfg.taker_fee_bps, 2);
    assert_eq!(
        Decimal::from_i128_with_scale(cfg.fee_pct.mantissa, cfg.fee_pct.scale),
        Decimal::new(2, 4)
    );
}

#[test]
fn fee_above_one_whole_is_not_clamped() {
    let mut meta = sample_metadata();
    meta.taker_fee_bps = 20_000;
    let cfg = MarketConfiguration::new(&meta).unwrap();
    assert_eq!(cfg.taker_fee_bps, 20_000);
    assert_eq!(
        Decimal::from_i128_with_scale(cfg.fee_pct.mantissa, cfg.fee_pct.scale),
        Decimal::new(2, 0)
    );
}

#[test]
fn zero_quote_lot_size_is_refused() {
    let mut meta = sample_metadata();
    meta.quote_lot_size = 0;
    assert_eq!(MarketConfiguration::new(&meta).err(), Some(ConfigError::ZeroQuoteLotSize));
    meta.base_lot_size = 0;
    assert_eq!(MarketConfiguration::new(&meta).err(), Some(ConfigError::ZeroQuoteLotSize));
}

#[test]
fn zero_base_lot_size_is_refused() {
    let mut meta = sample_metadata();
    meta.base_lot_size = 0;
    assert_eq!(MarketConfiguration::new(&meta).err(), Some(ConfigError::ZeroBaseLotSize));
}

#[test]
fn zero_base_lots_per_base_unit_is_refused() {
    let mut meta = sample_metadata();
    meta.base_lots_per_base_unit = 0;
    assert_eq!(MarketConfiguration::new(&meta).err(), Some(ConfigError::ZeroBaseLotsPerBaseUnit));
}

#[test]
fn tick_size_must_be_whole_quote_lots() {
    let mut meta = sample_metadata();
    meta.tick_size_in_quote_atoms_per_base_unit = 1_050;
    assert_eq!(MarketConfiguration::new(&meta).err(), Some(ConfigError::InexactTickSize));
    meta.tick_size_in_quote_atoms_per_base_unit = 99;
    assert_eq!(MarketConfiguration::new(&meta).err(), Some(ConfigError::InexactTickSize));
    meta.tick_size_in_quote_atoms_per_base_unit = 100;
    let cfg = MarketConfiguration::new(&meta).unwrap();
    assert_eq!(cfg.tick_size_in_quote_lots_per_base_unit_per_tick, 1);
}

#[test]
fn zero_tick_size_is_refused() {
    let mut meta = sample_metadata();
    meta.tick_size_in_quote_atoms_per_base_unit = 0;
    assert_eq!(MarketConfiguration::new(&meta).err(), Some(ConfigError::ZeroTickSize));
}

#[test]
fn missing_fee_conversion_is_refused() {
    let meta = sample_metadata();
    assert_eq!(
        MarketConfiguration::with_fee_pct(&meta, None).err(),
        Some(ConfigError::FeeConversion)
    );
    let pct = ScaledDecimal { mantissa: 2, scale: 4 };
    let cfg = MarketConfiguration::with_fee_pct(&meta, Some(pct)).unwrap();
    assert_eq!(cfg.fee_pct, pct);
    assert_eq!(cfg.tick_size_in_quote_lots_per_base_unit_per_tick, 10);
    let mut broken = meta;
    broken.quote_lot_size = 0;
    assert_eq!(
        MarketConfiguration::with_fee_pct(&broken, None).err(),
        Some(ConfigError::ZeroQuoteLotSize)
    );
}

#[test]
fn addresses_compare_byte_for_byte() {
    let a = Address { bytes: [7u8; 32] };
    let mut b = a;
    assert!(a.same(&b));
    b.bytes[31] = 8;
    assert!(!a.same(&b));
    assert!(!b.same(&a));
    b.bytes[31] = 7;
    b.bytes[0] = 0;
    assert!(!a.same(&b));
}
