//! One market as a quoting venue: its key, its configuration and the latest
//! ladder snapshot.
use crate::ladder::LadderSnapshot;
use crate::market::{Address, ConfigError, MarketConfiguration, MarketMetadata};
use crate::quote::{quote, spec_quote, QuoteError, QuoteResult, SwapRequest};
use vstd::prelude::*;

verus! {

/// A market account under its key, with its metadata already decoded.
#[derive(Clone, Copy, Debug)]
pub struct KeyedAccount {
    pub key: Address,
    pub metadata: MarketMetadata,
}

/// The side of the book that a taker's order is placed on.
#[derive(Clone, Copy, Debug, PartialEq, Eq, Structural)]
pub enum Side {
    /// The taker buys base.
    Bid,
    /// The taker sells base.
    Ask,
}

/// How a swap maps onto the market: the taker's side, and which of the
/// user's two token accounts holds base and which quote.
#[derive(Clone, Copy, Debug)]
pub struct SwapLeg {
    pub side: Side,
    pub base_account: Address,
    pub quote_account: Address,
}

/// A market that can be quoted once a ladder snapshot has been loaded.
#[derive(Clone, Debug)]
pub struct PhoenixAmm {
    /// The address of the market account.
    pub market_key: Address,
    pub config: MarketConfiguration,
    /// The state of the book, absent until the first update.
    pub ladder: Option<LadderSnapshot>,
}

impl PhoenixAmm {
    /// The market that `keyed_account` describes, with no ladder yet, or the
    /// reason why its metadata cannot be used.
    pub open spec fn spec_from_keyed_account(keyed_account: KeyedAccount) -> Result<
        PhoenixAmm,
        ConfigError,
    > {
        match MarketConfiguration::spec_new(keyed_account.metadata) {
            Ok(config) => Ok(PhoenixAmm { market_key: keyed_account.key, config, ladder: None }),
            Err(e) => Err(e),
        }
    }

    /// Sets up a market from its account. The market has no ladder until
    /// `update` is called.
    pub fn from_keyed_account(keyed_account: &KeyedAccount) -> (r: Result<PhoenixAmm, ConfigError>)
        ensures
            r == Self::spec_from_keyed_account(*keyed_account),
            r matches Ok(amm) ==> amm.config.wf(),
    {
        match MarketConfiguration::new(&keyed_account.metadata) {
            Ok(config) => Ok(PhoenixAmm { market_key: keyed_account.key, config, ladder: None }),
            Err(e) => Err(e),
        }
    }

    /// Display precision of the base asset.
    pub fn get_base_decimals(&self) -> (r: u32)
        ensures
            r == self.config.base_decimals,
    {
        self.config.base_decimals
    }

    /// Display precision of the quote asset.
    pub fn get_quote_decimals(&self) -> (r: u32)
        ensures
            r == self.config.quote_decimals,
    {
        self.config.quote_decimals
    }

    /// The name of the venue.
    pub fn label(&self) -> (r: String)
        ensures
            r@ == "Phoenix"@,
    {
        "Phoenix".to_owned()
    }

    /// The address of the market account.
    pub fn key(&self) -> (r: Address)
        ensures
            r == self.market_key,
    {
        self.market_key
    }

    /// The two assets traded: base first, then quote.
    pub fn get_reserve_mints(&self) -> (r: Vec<Address>)
        ensures
            r@ == seq![self.config.base_mint, self.config.quote_mint],
    {
        let mut mints: Vec<Address> = Vec::new();
        mints.push(self.config.base_mint);
        mints.push(self.config.quote_mint);
        proof {
            assert(mints@ =~= seq![self.config.base_mint, self.config.quote_mint]);
        }
        mints
    }

    /// Replaces the ladder snapshot wholesale. Key and configuration stay.
    pub fn update(&mut self, ladder: LadderSnapshot)
        ensures
            final(self).ladder == Some(ladder),
            final(self).market_key == old(self).market_key,
            final(self).config == old(self).config,
    {
        self.ladder = Some(ladder);
    }

    /// Quotes `req` against the latest snapshot; `LadderNotLoaded` before the
    /// first update.
    pub fn quote(&self, req: &SwapRequest) -> (r: Result<QuoteResult, QuoteError>)
        ensures
            r == spec_quote(self.config, self.ladder, *req),
    {
        quote(&self.config, &self.ladder, req)
    }

    /// The leg that swapping `source_mint` for `destination_mint` takes.
    /// Selling base is an ask and needs quote as the destination; anything
    /// else is a bid and needs base as the destination.
    pub open spec fn spec_get_swap_leg(
        self,
        source_mint: Address,
        destination_mint: Address,
        user_source_token_account: Address,
        user_destination_token_account: Address,
    ) -> Result<SwapLeg, QuoteError> {
        if source_mint == self.config.base_mint {
            if destination_mint == self.config.quote_mint {
                Ok(
                    SwapLeg {
                        side: Side::Ask,
                        base_account: user_source_token_account,
                        quote_account: user_destination_token_account,
                    },
                )
            } else {
                Err(QuoteError::InvalidAssetPair)
            }
        } else if destination_mint == self.config.base_mint {
            Ok(
                SwapLeg {
                    side: Side::Bid,
                    base_account: user_destination_token_account,
                    quote_account: user_source_token_account,
                },
            )
        } else {
            Err(QuoteError::InvalidAssetPair)
        }
    }

    /// Decides the side of a swap and sorts the user's two token accounts
    /// into base and quote; `InvalidAssetPair` where the destination is not
    /// the other asset of the market.
    pub fn get_swap_leg(
        &self,
        source_mint: &Address,
        destination_mint: &Address,
        user_source_token_account: &Address,
        user_destination_token_account: &Address,
    ) -> (r: Result<SwapLeg, QuoteError>)
        ensures
            r == self.spec_get_swap_leg(
                *source_mint,
                *destination_mint,
                *user_source_token_account,
                *user_destination_token_account,
            ),
    {
        if source_mint.same(&self.config.base_mint) {
            if destination_mint.same(&self.config.quote_mint) {
                Ok(
                    SwapLeg {
                        side: Side::Ask,
                        base_account: *user_source_token_account,
                        quote_account: *user_destination_token_account,
                    },
                )
            } else {
                Err(QuoteError::InvalidAssetPair)
            }
        } else if destination_mint.same(&self.config.base_mint) {
            Ok(
                SwapLeg {
                    side: Side::Bid,
                    base_account: *user_destination_token_account,
                    quote_account: *user_source_token_account,
                },
            )
        } else {
            Err(QuoteError::InvalidAssetPair)
        }
    }
}

} // verus!
