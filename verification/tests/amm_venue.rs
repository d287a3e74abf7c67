use phoenix_amm::amm::{KeyedAccount, PhoenixAmm, Side};
use phoenix_amm::ladder::{LadderLevel, LadderSnapshot};
use phoenix_amm::market::{Address, ConfigError, MarketMetadata};
use phoenix_amm::quote::{QuoteError, QuoteResult, SwapRequest};
use solana_sdk::pubkey::Pubkey;
use std::str::FromStr;

const SOL: Address = Address { bytes: [11u8; 32] };
const USDC: Address = Address { bytes: [22u8; 32] };

fn sol_usdc_account(key: Address) -> KeyedAccount {
    KeyedAccount {
        key,
        metadata: MarketMetadata {
            base_mint: SOL,
            quote_mint: USDC,
            base_decimals: 9,
            quote_decimals: 6,
            base_lot_size: 1_000_000,
            quote_lot_size: 1,
            tick_size_in_quote_atoms_per_base_unit: 1_000,
            base_lots_per_base_unit: 1_000,
            taker_fee_bps: 2,
        },
    }
}

fn sol_usdc_ladder() -> LadderSnapshot {
    LadderSnapshot {
        bids: vec![
            LadderLevel { price_in_ticks: 23_450, size_in_base_lots: 400_000 },
            LadderLevel { price_in_ticks: 23_440, size_in_base_lots: 900_000 },
            LadderLevel { price_in_ticks: 23_400, size_in_base_lots: 5_000_000 },
        ],
        asks: vec![
            LadderLevel { price_in_ticks: 23_460, size_in_base_lots: 350_000 },
            LadderLevel { price_in_ticks: 23_475, size_in_base_lots: 800_000 },
            LadderLevel { price_in_ticks: 23_500, size_in_base_lots: 6_000_000 },
        ],
    }
}

#[test]
fn test_jupiter_phoenix_integration() {
    let sol_usdc_market = Pubkey::from_str("14CAwu3LiBBk5fcHGdTsFyVxDwvpgFiSfDwgPJxECcE5").unwrap();
    let keyed_account = sol_usdc_account(Address { bytes: sol_usdc_market.to_bytes() });
    let mut phoenix_amm: PhoenixAmm = PhoenixAmm::from_keyed_account(&keyed_account).unwrap();

    phoenix_amm.update(sol_usdc_ladder());

    let in_amount = 1_000_000_000_000;
    println!(
        "Getting quote for selling {} SOL",
        in_amount as f64 / 10.0_f64.powf(phoenix_amm.get_base_decimals() as f64)
    );
    let quote = phoenix_amm
        .quote(&SwapRequest {
            input_amount: in_amount,
            input_asset: phoenix_amm.config.base_mint,
            output_asset: phoenix_amm.config.quote_mint,
        })
        .unwrap();

    let QuoteResult { output_amount_after_fee: out_amount, .. } = quote;

    println!(
        "Quote result: {:?}",
        out_amount as f64 / 10.0_f64.powf(phoenix_amm.get_quote_decimals() as f64)
    );
    assert_eq!(quote.input_amount_consumed, in_amount);
    assert_eq!(quote.output_amount_before_fee, 9_380_000_000 + 14_064_000_000);
    assert_eq!(out_amount, 23_439_311_200);
    assert!(!quote.insufficient_liquidity);

    let in_amount = out_amount;

    println!(
        "Getting quote for buying SOL with {} USDC",
        in_amount as f64 / 10.0_f64.powf(phoenix_amm.get_quote_decimals() as f64)
    );
    let quote = phoenix_amm
        .quote(&SwapRequest {
            input_amount: in_amount,
            input_asset: phoenix_amm.config.quote_mint,
            output_asset: phoenix_amm.config.base_mint,
        })
        .unwrap();

    let QuoteResult { output_amount_after_fee: out_amount, .. } = quote;

    println!(
        "Quote result: {:?}",
        out_amount as f64 / 10.0_f64.powf(phoenix_amm.get_base_decimals() as f64)
    );
    assert_eq!(quote.input_amount_consumed, in_amount);
    assert_eq!(quote.output_amount_before_fee, (350_000 + 648_703) * 1_000_000);
    assert!(out_amount < 1_000_000_000_000);
    assert!(!quote.insufficient_liquidity);
    assert!(quote.price_impact_pct.mantissa >= 0);
}

#[test]
fn market_is_set_up_without_a_ladder() {
    let key = Address { bytes: [5u8; 32] };
    let amm = PhoenixAmm::from_keyed_account(&sol_usdc_account(key)).unwrap();
    assert_eq!(amm.key(), key);
    assert_eq!(amm.market_key, key);
    assert!(amm.ladder.is_none());
    assert_eq!(amm.get_base_decimals(), 9);
    assert_eq!(amm.get_quote_decimals(), 6);
    assert_eq!(amm.label(), "Phoenix");
    assert_eq!(amm.get_reserve_mints(), vec![SOL, USDC]);
    assert_eq!(amm.config.tick_size_in_quote_lots_per_base_unit_per_tick, 1_000);
    assert_eq!(amm.config.taker_fee_bps, 2);
}

#[test]
fn unusable_metadata_sets_up_no_market() {
    let mut account = sol_usdc_account(Address { bytes: [5u8; 32] });
    account.metadata.quote_lot_size = 3;
    assert_eq!(
        PhoenixAmm::from_keyed_account(&account).err(),
        Some(ConfigError::InexactTickSize)
    );
    account.metadata.quote_lot_size = 0;
    assert_eq!(
        PhoenixAmm::from_keyed_account(&account).err(),
        Some(ConfigError::ZeroQuoteLotSize)
    );
}

#[test]
fn quoting_needs_an_update_first() {
    let mut amm = PhoenixAmm::from_keyed_account(&sol_usdc_account(Address { bytes: [5u8; 32] }))
        .unwrap();
    let req = SwapRequest { input_asset: SOL, output_asset: USDC, input_amount: 1_000_000 };
    assert_eq!(amm.quote(&req), Err(QuoteError::LadderNotLoaded));
    amm.update(sol_usdc_ladder());
    let q = amm.quote(&req).unwrap();
    assert_eq!(q.input_amount_consumed, 1_000_000);
    assert_eq!(q.output_amount_before_fee, 23_450);
    assert_eq!(q.output_amount_after_fee, 23_445);
    assert_eq!(q.fee_amount, 5);
    assert_eq!(q.fee_pct, amm.config.fee_pct);
}

#[test]
fn update_replaces_the_snapshot_wholesale() {
    let key = Address { bytes: [5u8; 32] };
    let mut amm = PhoenixAmm::from_keyed_account(&sol_usdc_account(key)).unwrap();
    amm.update(sol_usdc_ladder());
    amm.update(LadderSnapshot { bids: vec![], asks: vec![] });
    assert_eq!(amm.key(), key);
    assert_eq!(amm.ladder.as_ref().unwrap().bids.len(), 0);
    let req = SwapRequest { input_asset: SOL, output_asset: USDC, input_amount: 1_000_000 };
    let q = amm.quote(&req).unwrap();
    assert_eq!(q.output_amount_before_fee, 0);
    assert!(q.insufficient_liquidity);
}

#[test]
fn swap_leg_follows_the_source_mint() {
    let amm = PhoenixAmm::from_keyed_account(&sol_usdc_account(Address { bytes: [5u8; 32] }))
        .unwrap();
    let source = Address { bytes: [31u8; 32] };
    let destination = Address { bytes: [32u8; 32] };
    let other = Address { bytes: [33u8; 32] };

    let ask = amm.get_swap_leg(&SOL, &USDC, &source, &destination).unwrap();
    assert_eq!(ask.side, Side::Ask);
    assert_eq!(ask.base_account, source);
    assert_eq!(ask.quote_account, destination);

    let bid = amm.get_swap_leg(&USDC, &SOL, &source, &destination).unwrap();
    assert_eq!(bid.side, Side::Bid);
    assert_eq!(bid.base_account, destination);
    assert_eq!(bid.quote_account, source);

    assert_eq!(
        amm.get_swap_leg(&SOL, &other, &source, &destination).err(),
        Some(QuoteError::InvalidAssetPair)
    );
    assert_eq!(
        amm.get_swap_leg(&SOL, &SOL, &source, &destination).err(),
        Some(QuoteError::InvalidAssetPair)
    );
    assert_eq!(
        amm.get_swap_leg(&USDC, &USDC, &source, &destination).err(),
        Some(QuoteError::InvalidAssetPair)
    );
    let lenient = amm.get_swap_leg(&other, &SOL, &source, &destination).unwrap();
    assert_eq!(lenient.side, Side::Bid);
}
