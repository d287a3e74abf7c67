//! The static scale factors of one market, and how they are derived from the
//! market's metadata.
use crate::decimal::{compute_fee_pct, spec_fee_pct, ScaledDecimal};
use vstd::prelude::*;

verus! {

/// The address of an account, such as an asset's mint or a market:
/// thirty-two opaque bytes.
#[derive(Clone, Copy, Debug, PartialEq, Eq)]
pub struct Address {
    pub bytes: [u8; 32],
}

impl Address {
    /// Whether two addresses are the same, byte for byte.
    pub fn same(&self, other: &Address) -> (r: bool)
        ensures
            r == (*self == *other),
    {
        let mut i: usize = 0;
        while i < 32
            invariant
                i <= 32,
                forall|j: int| 0 <= j < i ==> self.bytes[j] == other.bytes[j],
            decreases 32 - i,
        {
            if self.bytes[i] != other.bytes[i] {
                return false;
            }
            i += 1;
        }
        proof {
            assert(self.bytes =~= other.bytes);
        }
        true
    }
}

/// What a market account states about itself, before anything is derived.
#[derive(Clone, Copy, Debug)]
pub struct MarketMetadata {
    pub base_mint: Address,
    pub quote_mint: Address,
    pub base_decimals: u32,
    pub quote_decimals: u32,
    /// Size of a base lot in base atoms.
    pub base_lot_size: u64,
    /// Size of a quote lot in quote atoms.
    pub quote_lot_size: u64,
    /// Size of a tick in quote atoms per base unit.
    pub tick_size_in_quote_atoms_per_base_unit: u64,
    /// Number of base lots in a base unit.
    pub base_lots_per_base_unit: u64,
    /// Taker fee in basis points.
    pub taker_fee_bps: u64,
}

/// Why market metadata cannot be used.
#[derive(Clone, Copy, Debug, PartialEq, Eq, Structural)]
pub enum ConfigError {
    /// The quote lot size is zero.
    ZeroQuoteLotSize,
    /// The base lot size is zero.
    ZeroBaseLotSize,
    /// A base unit holds no base lots.
    ZeroBaseLotsPerBaseUnit,
    /// The tick size is not a whole number of quote lots.
    InexactTickSize,
    /// The tick size is less than one quote lot.
    ZeroTickSize,
    /// The fee rate cannot be expressed as a decimal fraction.
    FeeConversion,
}

/// The scale factors that turn lots and ticks into atomic amounts.
#[derive(Clone, Copy, Debug)]
pub struct MarketConfiguration {
    pub base_mint: Address,
    pub quote_mint: Address,
    /// Display precision of the base asset; not used in any computation.
    pub base_decimals: u32,
    /// Display precision of the quote asset; not used in any computation.
    pub quote_decimals: u32,
    /// Size of a base lot in base atoms.
    pub base_lot_size: u64,
    /// Size of a quote lot in quote atoms.
    pub quote_lot_size: u64,
    /// Number of base lots in a base unit.
    pub base_lots_per_base_unit: u64,
    /// Size of a tick in quote lots per base unit.
    pub tick_size_in_quote_lots_per_base_unit_per_tick: u64,
    /// Taker fee in basis points.
    pub taker_fee_bps: u64,
    /// The taker fee as a fraction of one.
    pub fee_pct: ScaledDecimal,
}

impl MarketConfiguration {
    /// Every scale factor is positive.
    pub open spec fn wf(self) -> bool {
        &&& self.base_lot_size > 0
        &&& self.quote_lot_size > 0
        &&& self.base_lots_per_base_unit > 0
        &&& self.tick_size_in_quote_lots_per_base_unit_per_tick > 0
    }

    /// The configuration that `meta` and an already converted fee rate give,
    /// or the first reason why there is none.
    pub open spec fn assemble(meta: MarketMetadata, fee_pct: Option<ScaledDecimal>) -> Result<
        MarketConfiguration,
        ConfigError,
    > {
        if meta.quote_lot_size == 0 {
            Err(ConfigError::ZeroQuoteLotSize)
        } else if meta.base_lot_size == 0 {
            Err(ConfigError::ZeroBaseLotSize)
        } else if meta.base_lots_per_base_unit == 0 {
            Err(ConfigError::ZeroBaseLotsPerBaseUnit)
        } else if meta.tick_size_in_quote_atoms_per_base_unit % meta.quote_lot_size != 0 {
            Err(ConfigError::InexactTickSize)
        } else if meta.tick_size_in_quote_atoms_per_base_unit / meta.quote_lot_size == 0 {
            Err(ConfigError::ZeroTickSize)
        } else {
            match fee_pct {
                None => Err(ConfigError::FeeConversion),
                Some(pct) => Ok(
                    MarketConfiguration {
                        base_mint: meta.base_mint,
                        quote_mint: meta.quote_mint,
                        base_decimals: meta.base_decimals,
                        quote_decimals: meta.quote_decimals,
                        base_lot_size: meta.base_lot_size,
                        quote_lot_size: meta.quote_lot_size,
                        base_lots_per_base_unit: meta.base_lots_per_base_unit,
                        tick_size_in_quote_lots_per_base_unit_per_tick: (
                        meta.tick_size_in_quote_atoms_per_base_unit / meta.quote_lot_size) as u64,
                        taker_fee_bps: meta.taker_fee_bps,
                        fee_pct: pct,
                    },
                ),
            }
        }
    }

    /// Derives the configuration from `meta`, given the fee rate as a decimal
    /// (`None` where it could not be converted).
    pub fn with_fee_pct(meta: &MarketMetadata, fee_pct: Option<ScaledDecimal>) -> (r: Result<
        MarketConfiguration,
        ConfigError,
    >)
        ensures
            r == Self::assemble(*meta, fee_pct),
            r matches Ok(config) ==> config.wf(),
    {
        if meta.quote_lot_size == 0 {
            return Err(ConfigError::ZeroQuoteLotSize);
        }
        if meta.base_lot_size == 0 {
            return Err(ConfigError::ZeroBaseLotSize);
        }
        if meta.base_lots_per_base_unit == 0 {
            return Err(ConfigError::ZeroBaseLotsPerBaseUnit);
        }
        if meta.tick_size_in_quote_atoms_per_base_unit % meta.quote_lot_size != 0 {
            return Err(ConfigError::InexactTickSize);
        }
        let tick_size: u64 = meta.tick_size_in_quote_atoms_per_base_unit / meta.quote_lot_size;
        if tick_size == 0 {
            return Err(ConfigError::ZeroTickSize);
        }
        match fee_pct {
            None => Err(ConfigError::FeeConversion),
            Some(pct) => Ok(
                MarketConfiguration {
                    base_mint: meta.base_mint,
                    quote_mint: meta.quote_mint,
                    base_decimals: meta.base_decimals,
                    quote_decimals: meta.quote_decimals,
                    base_lot_size: meta.base_lot_size,
                    quote_lot_size: meta.quote_lot_size,
                    base_lots_per_base_unit: meta.base_lots_per_base_unit,
                    tick_size_in_quote_lots_per_base_unit_per_tick: tick_size,
                    taker_fee_bps: meta.taker_fee_bps,
                    fee_pct: pct,
                },
            ),
        }
    }

    /// The configuration that `meta` gives, with the fee rate converted to a
    /// decimal.
    pub open spec fn spec_new(meta: MarketMetadata) -> Result<MarketConfiguration, ConfigError> {
        Self::assemble(meta, spec_fee_pct(meta.taker_fee_bps))
    }

    /// Derives the configuration of a market from its metadata: the tick size
    /// in quote lots, which must be a positive whole number, and the fee rate
    /// as a fraction of one.
    pub fn new(meta: &MarketMetadata) -> (r: Result<MarketConfiguration, ConfigError>)
        ensures
            r == Self::spec_new(*meta),
            r matches Ok(config) ==> config.wf(),
    {
        Self::with_fee_pct(meta, compute_fee_pct(meta.taker_fee_bps))
    }
}

} // verus!
