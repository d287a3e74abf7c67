//! The quote engine: from a market configuration, a ladder snapshot and a
//! swap request to the amounts a market order would fill, its fee and its
//! price impact.
use crate::decimal::{
    compute_decimal_div, compute_price_impact_pct, spec_decimal_div, spec_price_impact_pct,
    ScaledDecimal, BPS_PER_WHOLE,
};
use crate::ladder::{LadderLevel, LadderSnapshot};
use crate::market::{Address, MarketConfiguration};
use crate::walk::{
    lemma_walk_asks_bounds, lemma_walk_bids_bounds, lemma_walk_bids_output_bound, prices_at_most,
    spec_ask_step, spec_ask_take, spec_bid_level_output, spec_bid_step, spec_walk_asks,
    spec_walk_bids, walk_asks, walk_bids, LevelFill, WalkState,
};
use vstd::prelude::*;

verus! {

/// A request to swap `input_amount` atoms of one asset of the market for the
/// other.
#[derive(Clone, Copy, Debug)]
pub struct SwapRequest {
    pub input_asset: Address,
    pub output_asset: Address,
    pub input_amount: u64,
}

/// Why a request got no quote.
#[derive(Clone, Copy, Debug, PartialEq, Eq, Structural)]
pub enum QuoteError {
    /// A product left the 64-bit range, a divisor was zero, or a ratio could
    /// not be expressed as a decimal.
    ArithmeticOverflow,
    /// The two assets of the request are not the market's pair.
    InvalidAssetPair,
    /// No ladder snapshot is available yet.
    LadderNotLoaded,
}

/// The side of the book that a request consumes.
#[derive(Clone, Copy, Debug, PartialEq, Eq, Structural)]
pub enum BookSide {
    /// The request sells base lots into the bids.
    Bids,
    /// The request buys base lots from the asks.
    Asks,
}

/// The integer part of a quote.
#[derive(Clone, Copy, Debug, PartialEq, Eq, Structural)]
pub struct Fill {
    /// Atoms of the input asset that were matched.
    pub input_amount_consumed: u64,
    pub output_amount_before_fee: u64,
    pub output_amount_after_fee: u64,
    pub fee_amount: u64,
    /// The side was exhausted before the budget was.
    pub insufficient_liquidity: bool,
    /// The fill of the first level touched, if any was.
    pub first_level: Option<LevelFill>,
}

/// What a market order would fill.
#[derive(Clone, Copy, Debug, PartialEq, Eq, Structural)]
pub struct QuoteResult {
    /// Atoms of the input asset that were matched: a whole number of lots of
    /// the input asset, on either side of the book.
    pub input_amount_consumed: u64,
    pub output_amount_before_fee: u64,
    pub output_amount_after_fee: u64,
    pub fee_amount: u64,
    /// The taker fee as a fraction of one.
    pub fee_pct: ScaledDecimal,
    /// How far the price obtained falls short of the best price, as a
    /// fraction of the best price; one where nothing was matched.
    pub price_impact_pct: ScaledDecimal,
    /// The side was exhausted before the budget was.
    pub insufficient_liquidity: bool,
}

/// Selling base for quote consumes the bids, selling quote for base the asks;
/// any other pair of assets consumes nothing.
pub open spec fn spec_consuming_side(cfg: MarketConfiguration, req: SwapRequest) -> Option<BookSide> {
    if req.input_asset == cfg.base_mint && req.output_asset == cfg.quote_mint {
        Some(BookSide::Bids)
    } else if req.input_asset == cfg.quote_mint && req.output_asset == cfg.base_mint {
        Some(BookSide::Asks)
    } else {
        None
    }
}

/// The lot size of the asset that is paid in on `side`.
pub open spec fn spec_input_lot_size(cfg: MarketConfiguration, side: BookSide) -> u64 {
    match side {
        BookSide::Bids => cfg.base_lot_size,
        BookSide::Asks => cfg.quote_lot_size,
    }
}

/// The levels of `side`, best first.
pub open spec fn spec_side_levels(ladder: LadderSnapshot, side: BookSide) -> Seq<LadderLevel> {
    match side {
        BookSide::Bids => ladder.bids@,
        BookSide::Asks => ladder.asks@,
    }
}

/// The walk over `side`.
pub open spec fn spec_walk(
    cfg: MarketConfiguration,
    ladder: LadderSnapshot,
    side: BookSide,
    st: WalkState,
) -> Option<WalkState> {
    match side {
        BookSide::Bids => spec_walk_bids(cfg, ladder.bids@, st),
        BookSide::Asks => spec_walk_asks(cfg, ladder.asks@, st),
    }
}

/// What is left of `amount` after the taker fee:
/// `amount * (10_000 - taker_fee_bps) / 10_000`, rounded down. `None` for a
/// fee above 10 000 basis points and where the product leaves the 64-bit
/// range.
pub open spec fn spec_amount_after_fee(amount: u64, taker_fee_bps: u64) -> Option<u64> {
    if taker_fee_bps > BPS_PER_WHOLE || amount * (BPS_PER_WHOLE - taker_fee_bps) > u64::MAX {
        None
    } else {
        Some((amount * (BPS_PER_WHOLE - taker_fee_bps) / (BPS_PER_WHOLE as int)) as u64)
    }
}

/// The integer part of the quote for `req`.
///
/// The input is cut down to whole lots of the input asset; what does not
/// make up a lot is left unconsumed. The consumed input is given in atoms on
/// both sides of the book.
pub open spec fn spec_fill(cfg: MarketConfiguration, ladder: LadderSnapshot, req: SwapRequest) -> Result<
    Fill,
    QuoteError,
> {
    match spec_consuming_side(cfg, req) {
        None => Err(QuoteError::InvalidAssetPair),
        Some(side) => {
            let lot_size = spec_input_lot_size(cfg, side);
            if lot_size == 0 {
                Err(QuoteError::ArithmeticOverflow)
            } else {
                let budget = (req.input_amount / lot_size) as u64;
                match spec_walk(cfg, ladder, side, WalkState::spec_start(budget)) {
                    None => Err(QuoteError::ArithmeticOverflow),
                    Some(end) => match spec_amount_after_fee(end.output, cfg.taker_fee_bps) {
                        None => Err(QuoteError::ArithmeticOverflow),
                        Some(after_fee) => Ok(
                            Fill {
                                input_amount_consumed: ((budget - end.budget) * lot_size) as u64,
                                output_amount_before_fee: end.output,
                                output_amount_after_fee: after_fee,
                                fee_amount: (end.output - after_fee) as u64,
                                insufficient_liquidity: end.budget > 0,
                                first_level: end.first,
                            },
                        ),
                    },
                }
            }
        },
    }
}

/// The price impact of a fill. Where no level was touched, or nothing was
/// asked for, it is one. Otherwise the best price is the ratio of the first
/// level's output to its input, the price obtained is the ratio of the whole
/// output to the whole input asked for, and the impact is
/// `(best - price) / best`. `None` where one of the three cannot be computed.
pub open spec fn spec_price_impact(
    input_amount: u64,
    output_amount_before_fee: u64,
    first_level: Option<LevelFill>,
) -> Option<ScaledDecimal> {
    match first_level {
        None => Some(ScaledDecimal::spec_one()),
        Some(first) => match spec_decimal_div(first.output_atoms, first.input_atoms) {
            None => None,
            Some(best_price) => {
                if input_amount == 0 {
                    Some(ScaledDecimal::spec_one())
                } else {
                    match spec_decimal_div(output_amount_before_fee, input_amount) {
                        None => None,
                        Some(price) => spec_price_impact_pct(price, best_price),
                    }
                }
            },
        },
    }
}

/// The quote that a fill and its price impact make up; no quote where the
/// price impact could not be computed.
pub open spec fn spec_finish_quote(
    cfg: MarketConfiguration,
    fill: Fill,
    price_impact_pct: Option<ScaledDecimal>,
) -> Result<QuoteResult, QuoteError> {
    match price_impact_pct {
        None => Err(QuoteError::ArithmeticOverflow),
        Some(impact) => Ok(
            QuoteResult {
                input_amount_consumed: fill.input_amount_consumed,
                output_amount_before_fee: fill.output_amount_before_fee,
                output_amount_after_fee: fill.output_amount_after_fee,
                fee_amount: fill.fee_amount,
                fee_pct: cfg.fee_pct,
                price_impact_pct: impact,
                insufficient_liquidity: fill.insufficient_liquidity,
            },
        ),
    }
}

/// The quote for `req` on the market `cfg` with the book `ladder`.
pub open spec fn spec_quote(
    cfg: MarketConfiguration,
    ladder: Option<LadderSnapshot>,
    req: SwapRequest,
) -> Result<QuoteResult, QuoteError> {
    match ladder {
        None => Err(QuoteError::LadderNotLoaded),
        Some(snapshot) => match spec_fill(cfg, snapshot, req) {
            Err(e) => Err(e),
            Ok(fill) => spec_finish_quote(
                cfg,
                fill,
                spec_price_impact(
                    req.input_amount,
                    fill.output_amount_before_fee,
                    fill.first_level,
                ),
            ),
        },
    }
}

/// Which side of the book `req` consumes, if its assets are the market's pair.
pub fn consuming_side(cfg: &MarketConfiguration, req: &SwapRequest) -> (r: Option<BookSide>)
    ensures
        r == spec_consuming_side(*cfg, *req),
{
    if req.input_asset.same(&cfg.base_mint) && req.output_asset.same(&cfg.quote_mint) {
        Some(BookSide::Bids)
    } else if req.input_asset.same(&cfg.quote_mint) && req.output_asset.same(&cfg.base_mint) {
        Some(BookSide::Asks)
    } else {
        None
    }
}

/// What is left of `amount` after the taker fee. The fee never exceeds the
/// amount.
pub fn amount_after_fee(amount: u64, taker_fee_bps: u64) -> (r: Option<u64>)
    ensures
        r == spec_amount_after_fee(amount, taker_fee_bps),
        r matches Some(after_fee) ==> after_fee <= amount,
{
    let kept_bps: u64 = BPS_PER_WHOLE.checked_sub(taker_fee_bps)?;
    let scaled: u64 = amount.checked_mul(kept_bps)?;
    assert(amount * kept_bps <= amount * BPS_PER_WHOLE) by (nonlinear_arith)
        requires
            kept_bps <= BPS_PER_WHOLE,
    ;
    scaled.checked_div(BPS_PER_WHOLE)
}

/// The consumed input of a walk never exceeds the input asked for.
proof fn lemma_consumed_bounds(input_amount: u64, lot_size: u64, remaining: u64)
    requires
        lot_size > 0,
        remaining <= input_amount / lot_size,
    ensures
        0 <= (input_amount / lot_size - remaining) * lot_size <= input_amount,
        ((input_amount / lot_size - remaining) * lot_size) % (lot_size as int) == 0,
{
    let budget = input_amount as int / lot_size as int;
    let spent = budget - remaining;
    assert(budget * lot_size <= input_amount) by (nonlinear_arith)
        requires
            budget == input_amount as int / lot_size as int,
            lot_size > 0,
    ;
    assert(0 <= spent * lot_size <= budget * lot_size) by (nonlinear_arith)
        requires
            0 <= spent <= budget,
            lot_size > 0,
    ;
    assert((spent * lot_size) % (lot_size as int) == 0) by (nonlinear_arith)
        requires
            lot_size > 0,
    ;
}

/// Computes the integer part of the quote for `req`: the side to consume, the
/// walk over it, the consumed input and the fee.
pub fn fill(cfg: &MarketConfiguration, ladder: &LadderSnapshot, req: &SwapRequest) -> (r: Result<
    Fill,
    QuoteError,
>)
    ensures
        r == spec_fill(*cfg, *ladder, *req),
        r matches Ok(f) ==> {
            &&& f.input_amount_consumed <= req.input_amount
            &&& spec_consuming_side(*cfg, *req) matches Some(side)
            &&& spec_input_lot_size(*cfg, side) > 0
            &&& f.input_amount_consumed % spec_input_lot_size(*cfg, side) == 0
            &&& f.fee_amount <= f.output_amount_before_fee
            &&& f.output_amount_after_fee + f.fee_amount == f.output_amount_before_fee
        },
{
    let side = match consuming_side(cfg, req) {
        Some(side) => side,
        None => {
            return Err(QuoteError::InvalidAssetPair);
        },
    };
    let lot_size: u64 = match side {
        BookSide::Bids => cfg.base_lot_size,
        BookSide::Asks => cfg.quote_lot_size,
    };
    if lot_size == 0 {
        return Err(QuoteError::ArithmeticOverflow);
    }
    let budget: u64 = req.input_amount / lot_size;
    let start = WalkState::start(budget);
    let walked = match side {
        BookSide::Bids => walk_bids(cfg, &ladder.bids, start),
        BookSide::Asks => walk_asks(cfg, &ladder.asks, start),
    };
    let end = match walked {
        Some(end) => end,
        None => {
            return Err(QuoteError::ArithmeticOverflow);
        },
    };
    proof {
        lemma_walk_bids_bounds(*cfg, ladder.bids@, start);
        lemma_walk_asks_bounds(*cfg, ladder.asks@, start);
        lemma_consumed_bounds(req.input_amount, lot_size, end.budget);
    }
    let consumed: u64 = (budget - end.budget) * lot_size;
    let after_fee: u64 = match amount_after_fee(end.output, cfg.taker_fee_bps) {
        Some(after_fee) => after_fee,
        None => {
            return Err(QuoteError::ArithmeticOverflow);
        },
    };
    Ok(
        Fill {
            input_amount_consumed: consumed,
            output_amount_before_fee: end.output,
            output_amount_after_fee: after_fee,
            fee_amount: end.output - after_fee,
            insufficient_liquidity: end.budget > 0,
            first_level: end.first,
        },
    )
}

/// Computes the price impact of a fill from the first level's fill and the
/// totals.
pub fn price_impact(
    input_amount: u64,
    output_amount_before_fee: u64,
    first_level: Option<LevelFill>,
) -> (r: Option<ScaledDecimal>)
    ensures
        r == spec_price_impact(input_amount, output_amount_before_fee, first_level),
{
    match first_level {
        None => Some(ScaledDecimal::one()),
        Some(first) => {
            let best_price = compute_decimal_div(first.output_atoms, first.input_atoms)?;
            if input_amount == 0 {
                Some(ScaledDecimal::one())
            } else {
                let price = compute_decimal_div(output_amount_before_fee, input_amount)?;
                compute_price_impact_pct(price, best_price)
            }
        },
    }
}

/// Puts a fill and its price impact together; `ArithmeticOverflow` where the
/// price impact is missing.
pub fn finish_quote(cfg: &MarketConfiguration, fill: &Fill, price_impact_pct: Option<ScaledDecimal>) -> (r:
    Result<QuoteResult, QuoteError>)
    ensures
        r == spec_finish_quote(*cfg, *fill, price_impact_pct),
{
    match price_impact_pct {
        None => Err(QuoteError::ArithmeticOverflow),
        Some(impact) => Ok(
            QuoteResult {
                input_amount_consumed: fill.input_amount_consumed,
                output_amount_before_fee: fill.output_amount_before_fee,
                output_amount_after_fee: fill.output_amount_after_fee,
                fee_amount: fill.fee_amount,
                fee_pct: cfg.fee_pct,
                price_impact_pct: impact,
                insufficient_liquidity: fill.insufficient_liquidity,
            },
        ),
    }
}

/// Quotes `req` against `ladder`.
///
/// Fails with `LadderNotLoaded` without a snapshot, with `InvalidAssetPair`
/// where the request's assets are not the market's pair, and with
/// `ArithmeticOverflow` where any step of the arithmetic cannot be carried
/// out exactly. A side that runs out before the budget does is no failure:
/// the quote says so in `insufficient_liquidity`.
pub fn quote(cfg: &MarketConfiguration, ladder: &Option<LadderSnapshot>, req: &SwapRequest) -> (r:
    Result<QuoteResult, QuoteError>)
    ensures
        r == spec_quote(*cfg, *ladder, *req),
        r matches Ok(q) ==> {
            &&& q.input_amount_consumed <= req.input_amount
            &&& spec_consuming_side(*cfg, *req) matches Some(side)
            &&& spec_input_lot_size(*cfg, side) > 0
            &&& q.input_amount_consumed % spec_input_lot_size(*cfg, side) == 0
            &&& q.fee_amount <= q.output_amount_before_fee
            &&& q.output_amount_after_fee + q.fee_amount == q.output_amount_before_fee
        },
{
    let snapshot = match ladder {
        Some(snapshot) => snapshot,
        None => {
            return Err(QuoteError::LadderNotLoaded);
        },
    };
    let filled = match fill(cfg, snapshot, req) {
        Ok(filled) => filled,
        Err(e) => {
            return Err(e);
        },
    };
    let impact = price_impact(
        req.input_amount,
        filled.output_amount_before_fee,
        filled.first_level,
    );
    finish_quote(cfg, &filled, impact)
}

/// A walk that ends where it started consumed nothing and owes no fee.
proof fn lemma_nothing_walked(cfg: MarketConfiguration, budget: u64, lot_size: u64)
    ensures
        (budget - budget) * lot_size == 0,
        cfg.taker_fee_bps <= BPS_PER_WHOLE ==> spec_amount_after_fee(0, cfg.taker_fee_bps) == Some(
            0u64,
        ),
        cfg.taker_fee_bps > BPS_PER_WHOLE ==> spec_amount_after_fee(0, cfg.taker_fee_bps) is None,
{
    assert(0 * (BPS_PER_WHOLE - cfg.taker_fee_bps) == 0);
}

/// With nothing resting on the side that a request consumes, nothing is
/// filled: the output is zero, the price impact is one, and liquidity is
/// reported as insufficient exactly when the input makes up at least one
/// lot. The quote is given whenever the lot size is positive and the fee is
/// at most 10 000 basis points.
pub proof fn lemma_empty_side_fills_nothing(
    cfg: MarketConfiguration,
    ladder: LadderSnapshot,
    req: SwapRequest,
    side: BookSide,
)
    requires
        spec_consuming_side(cfg, req) == Some(side),
        spec_side_levels(ladder, side).len() == 0,
    ensures
        spec_quote(cfg, Some(ladder), req) matches Ok(q) ==> {
            &&& q.input_amount_consumed == 0
            &&& q.output_amount_before_fee == 0
            &&& q.output_amount_after_fee == 0
            &&& q.fee_amount == 0
            &&& q.price_impact_pct == ScaledDecimal::spec_one()
            &&& q.insufficient_liquidity == (req.input_amount >= spec_input_lot_size(cfg, side))
        },
        spec_input_lot_size(cfg, side) > 0 && cfg.taker_fee_bps <= BPS_PER_WHOLE ==> spec_quote(
            cfg,
            Some(ladder),
            req,
        ) is Ok,
{
    let lot_size = spec_input_lot_size(cfg, side);
    if lot_size > 0 {
        let budget = (req.input_amount / lot_size) as u64;
        assert((budget > 0) == (req.input_amount >= lot_size)) by (nonlinear_arith)
            requires
                budget == req.input_amount as int / lot_size as int,
                lot_size > 0,
        ;
        let start = WalkState::spec_start(budget);
        assert(spec_walk(cfg, ladder, side, start) == Some(start));
        lemma_nothing_walked(cfg, budget, lot_size);
    }
}

/// A request for nothing is quoted as nothing: no input consumed, no output,
/// no fee, a price impact of one, and liquidity not reported as
/// insufficient, whatever the book holds. This needs a well-formed market
/// with a fee of at most 10 000 basis points.
pub proof fn lemma_zero_input_is_neutral(
    cfg: MarketConfiguration,
    ladder: LadderSnapshot,
    req: SwapRequest,
)
    requires
        cfg.wf(),
        cfg.taker_fee_bps <= BPS_PER_WHOLE,
        spec_consuming_side(cfg, req) is Some,
        req.input_amount == 0,
    ensures
        spec_quote(cfg, Some(ladder), req) == Ok::<QuoteResult, QuoteError>(
            QuoteResult {
                input_amount_consumed: 0,
                output_amount_before_fee: 0,
                output_amount_after_fee: 0,
                fee_amount: 0,
                fee_pct: cfg.fee_pct,
                price_impact_pct: ScaledDecimal::spec_one(),
                insufficient_liquidity: false,
            },
        ),
{
    let side = spec_consuming_side(cfg, req).unwrap();
    let lot_size = spec_input_lot_size(cfg, side);
    let start = WalkState::spec_start(0);
    assert(req.input_amount as int / lot_size as int == 0) by (nonlinear_arith)
        requires
            req.input_amount == 0,
            lot_size > 0,
    ;
    assert(spec_walk(cfg, ladder, side, start) == Some(start));
    lemma_nothing_walked(cfg, 0, lot_size);
}

/// Selling exactly as many base lots as the best bid holds takes that level
/// whole and touches no other: the output is that level's alone, the input
/// is consumed to the last lot, and liquidity is sufficient.
pub proof fn lemma_exact_bid_level_is_consumed_alone(
    cfg: MarketConfiguration,
    ladder: LadderSnapshot,
    req: SwapRequest,
)
    requires
        spec_consuming_side(cfg, req) == Some(BookSide::Bids),
        cfg.base_lot_size > 0,
        ladder.bids@.len() > 0,
        ladder.bids@[0].size_in_base_lots > 0,
        req.input_amount / cfg.base_lot_size == ladder.bids@[0].size_in_base_lots,
    ensures
        spec_fill(cfg, ladder, req) matches Ok(f) ==> {
            &&& Some(f.output_amount_before_fee) == spec_bid_level_output(
                cfg,
                ladder.bids@[0].price_in_ticks,
                ladder.bids@[0].size_in_base_lots,
            )
            &&& f.input_amount_consumed == ladder.bids@[0].size_in_base_lots * cfg.base_lot_size
            &&& !f.insufficient_liquidity
        },
{
    let start = WalkState::spec_start(ladder.bids@[0].size_in_base_lots);
    if let Some(next) = spec_bid_step(cfg, ladder.bids@[0], start) {
        assert(next.budget == 0);
        assert(spec_walk_bids(cfg, ladder.bids@.drop_first(), next) == Some(next));
    }
}

/// Buying with a budget of quote lots that is exactly the cost of the whole
/// best ask takes that level whole and touches no other: the output is that
/// level's size in atoms, the budget is consumed to the last lot, and
/// liquidity is sufficient.
pub proof fn lemma_exact_ask_level_is_consumed_alone(
    cfg: MarketConfiguration,
    ladder: LadderSnapshot,
    req: SwapRequest,
)
    requires
        spec_consuming_side(cfg, req) == Some(BookSide::Asks),
        cfg.quote_lot_size > 0,
        ladder.asks@.len() > 0,
        req.input_amount / cfg.quote_lot_size > 0,
        spec_ask_take(cfg, ladder.asks@[0], (req.input_amount / cfg.quote_lot_size) as u64) == Some(
            (ladder.asks@[0].size_in_base_lots, (req.input_amount / cfg.quote_lot_size) as u64),
        ),
    ensures
        spec_fill(cfg, ladder, req) matches Ok(f) ==> {
            &&& f.output_amount_before_fee == ladder.asks@[0].size_in_base_lots * cfg.base_lot_size
            &&& f.input_amount_consumed == (req.input_amount / cfg.quote_lot_size)
                * cfg.quote_lot_size
            &&& !f.insufficient_liquidity
        },
{
    let start = WalkState::spec_start((req.input_amount / cfg.quote_lot_size) as u64);
    if let Some(next) = spec_ask_step(cfg, ladder.asks@[0], start) {
        assert(next.budget == 0);
        assert(spec_walk_asks(cfg, ladder.asks@.drop_first(), next) == Some(next));
    }
}

/// A level whose arithmetic does not fit in 64 bits fails the quote: where
/// the first level that a request touches has no representable fill, the
/// result is `ArithmeticOverflow`, never a wrapped or truncated amount.
pub proof fn lemma_first_level_overflow_fails(
    cfg: MarketConfiguration,
    ladder: LadderSnapshot,
    req: SwapRequest,
    side: BookSide,
)
    requires
        spec_consuming_side(cfg, req) == Some(side),
        spec_input_lot_size(cfg, side) > 0,
        req.input_amount >= spec_input_lot_size(cfg, side),
        spec_side_levels(ladder, side).len() > 0,
        match side {
            BookSide::Bids => spec_bid_step(
                cfg,
                ladder.bids@[0],
                WalkState::spec_start((req.input_amount / cfg.base_lot_size) as u64),
            ) is None,
            BookSide::Asks => spec_ask_step(
                cfg,
                ladder.asks@[0],
                WalkState::spec_start((req.input_amount / cfg.quote_lot_size) as u64),
            ) is None,
        },
    ensures
        spec_quote(cfg, Some(ladder), req) == Err::<QuoteResult, QuoteError>(
            QuoteError::ArithmeticOverflow,
        ),
{
    let lot_size = spec_input_lot_size(cfg, side);
    let budget = req.input_amount as int / lot_size as int;
    assert(budget > 0) by (nonlinear_arith)
        requires
            budget == req.input_amount as int / lot_size as int,
            lot_size > 0,
            req.input_amount >= lot_size,
    ;
}

/// A fee whose arithmetic does not fit in 64 bits fails the quote: where the
/// output before the fee, multiplied by the basis points that are kept,
/// leaves the 64-bit range, or the fee is above 10 000 basis points, there
/// is no quote.
pub proof fn lemma_fee_overflow_fails(
    cfg: MarketConfiguration,
    ladder: LadderSnapshot,
    req: SwapRequest,
    side: BookSide,
)
    requires
        spec_consuming_side(cfg, req) == Some(side),
        spec_input_lot_size(cfg, side) > 0,
        spec_walk(
            cfg,
            ladder,
            side,
            WalkState::spec_start((req.input_amount / spec_input_lot_size(cfg, side)) as u64),
        ) matches Some(end) && spec_amount_after_fee(end.output, cfg.taker_fee_bps) is None,
    ensures
        spec_quote(cfg, Some(ladder), req) == Err::<QuoteResult, QuoteError>(
            QuoteError::ArithmeticOverflow,
        ),
{
}

/// Selling into a book whose best bid comes first never beats that bid:
/// where no bid is priced above the first, the quote atoms received per base
/// atom consumed are at most the first bid's price, that is
/// `price * tick_size * quote_lot_size` quote atoms for each
/// `base_lots_per_base_unit * base_lot_size` base atoms.
pub proof fn lemma_selling_never_beats_best_bid(
    cfg: MarketConfiguration,
    ladder: LadderSnapshot,
    req: SwapRequest,
)
    requires
        spec_consuming_side(cfg, req) == Some(BookSide::Bids),
        ladder.bids@.len() > 0,
        prices_at_most(ladder.bids@, ladder.bids@[0].price_in_ticks),
    ensures
        spec_fill(cfg, ladder, req) matches Ok(f) ==> f.output_amount_before_fee
            * cfg.base_lots_per_base_unit * cfg.base_lot_size <= f.input_amount_consumed * (
        ladder.bids@[0].price_in_ticks * cfg.tick_size_in_quote_lots_per_base_unit_per_tick
            * cfg.quote_lot_size),
{
    if let Ok(f) = spec_fill(cfg, ladder, req) {
        let lot_size = cfg.base_lot_size as int;
        let budget = (req.input_amount / cfg.base_lot_size) as u64;
        let start = WalkState::spec_start(budget);
        let end = spec_walk_bids(cfg, ladder.bids@, start).unwrap();
        let cap = ladder.bids@[0].price_in_ticks;
        let b = cfg.base_lots_per_base_unit as int;
        let k = cap * cfg.tick_size_in_quote_lots_per_base_unit_per_tick * cfg.quote_lot_size;
        lemma_walk_bids_bounds(cfg, ladder.bids@, start);
        lemma_walk_bids_output_bound(cfg, ladder.bids@, start, cap);
        lemma_consumed_bounds(req.input_amount, cfg.base_lot_size, end.budget);
        let lots = budget - end.budget;
        let out = end.output as int;
        assert(out * b <= lots * k);
        assert(out * b * lot_size <= (lots * lot_size) * k) by (nonlinear_arith)
            requires
                out * b <= lots * k,
                lot_size >= 0,
        ;
    }
}

} // verus!
