//! Walking one side of the book: how much each level fills, and what is left
//! of the budget afterwards. Everything here is integer arithmetic in lots,
//! ticks and atoms; a product that does not fit in 64 bits ends the walk.
use crate::ladder::LadderLevel;
use crate::market::MarketConfiguration;
use vstd::prelude::*;

verus! {

/// What one level contributed: the atoms paid into it and the atoms received
/// from it.
#[derive(Clone, Copy, Debug, PartialEq, Eq, Structural)]
pub struct LevelFill {
    pub input_atoms: u64,
    pub output_atoms: u64,
}

/// Where a walk stands: the lots still to be spent, the atoms received so far,
/// and the fill of the first level touched, which sets the reference price.
#[derive(Clone, Copy, Debug, PartialEq, Eq, Structural)]
pub struct WalkState {
    pub budget: u64,
    pub output: u64,
    pub first: Option<LevelFill>,
}

impl WalkState {
    /// The state before any level is touched.
    pub open spec fn spec_start(budget: u64) -> WalkState {
        WalkState { budget, output: 0, first: None }
    }

    /// The state before any level is touched.
    pub fn start(budget: u64) -> (r: WalkState)
        ensures
            r == Self::spec_start(budget),
    {
        WalkState { budget, output: 0, first: None }
    }
}

/// Quote atoms received for selling `lots` base lots at `price_in_ticks`:
/// `price * lots * tick_size * quote_lot_size / base_lots_per_base_unit`,
/// rounded down. `None` where a product leaves the 64-bit range or the
/// divisor is zero.
pub open spec fn spec_bid_level_output(
    cfg: MarketConfiguration,
    price_in_ticks: u64,
    lots: u64,
) -> Option<u64> {
    let ticks = price_in_ticks * lots;
    let quote_lots = ticks * cfg.tick_size_in_quote_lots_per_base_unit_per_tick;
    let quote_atoms = quote_lots * cfg.quote_lot_size;
    if ticks > u64::MAX || quote_lots > u64::MAX || quote_atoms > u64::MAX
        || cfg.base_lots_per_base_unit == 0 {
        None
    } else {
        Some((quote_atoms / (cfg.base_lots_per_base_unit as int)) as u64)
    }
}

/// Base lots that `quote_lot_budget` can buy at `price_in_ticks`:
/// `budget * base_lots_per_base_unit / tick_size / price`, rounded down at
/// each division, in that order.
pub open spec fn spec_purchasable_base_lots(
    cfg: MarketConfiguration,
    price_in_ticks: u64,
    quote_lot_budget: u64,
) -> Option<u64> {
    let scaled = quote_lot_budget * cfg.base_lots_per_base_unit;
    if scaled > u64::MAX || cfg.tick_size_in_quote_lots_per_base_unit_per_tick == 0
        || price_in_ticks == 0 {
        None
    } else {
        Some(
            (scaled / (cfg.tick_size_in_quote_lots_per_base_unit_per_tick as int) / (
            price_in_ticks as int)) as u64,
        )
    }
}

/// Quote lots that `lots` base lots cost at `price_in_ticks`:
/// `price * lots * tick_size / base_lots_per_base_unit`, rounded down.
pub open spec fn spec_ask_level_cost(cfg: MarketConfiguration, price_in_ticks: u64, lots: u64) -> Option<
    u64,
> {
    let ticks = price_in_ticks * lots;
    let scaled = ticks * cfg.tick_size_in_quote_lots_per_base_unit_per_tick;
    if ticks > u64::MAX || scaled > u64::MAX || cfg.base_lots_per_base_unit == 0 {
        None
    } else {
        Some((scaled / (cfg.base_lots_per_base_unit as int)) as u64)
    }
}

/// The first fill of a walk: kept once set.
pub open spec fn spec_first_fill(first: Option<LevelFill>, input_atoms: u64, output_atoms: u64) -> Option<
    LevelFill,
> {
    match first {
        Some(fill) => Some(fill),
        None => Some(LevelFill { input_atoms, output_atoms }),
    }
}

/// Selling into one bid level with a budget of base lots. The level gives
/// `min(size, budget)` lots.
pub open spec fn spec_bid_step(cfg: MarketConfiguration, level: LadderLevel, st: WalkState) -> Option<
    WalkState,
> {
    let lots = if level.size_in_base_lots <= st.budget {
        level.size_in_base_lots
    } else {
        st.budget
    };
    match spec_bid_level_output(cfg, level.price_in_ticks, lots) {
        None => None,
        Some(filled) => {
            if st.first is None && lots * cfg.base_lot_size > u64::MAX {
                None
            } else if st.output + filled > u64::MAX {
                None
            } else {
                Some(
                    WalkState {
                        budget: (st.budget - lots) as u64,
                        output: (st.output + filled) as u64,
                        first: spec_first_fill(st.first, (lots * cfg.base_lot_size) as u64, filled),
                    },
                )
            }
        },
    }
}

/// The base lots taken from one ask level and the quote lots paid for them.
/// Where the level holds no more than the budget can buy, the whole level is
/// taken and its cost computed from its size; otherwise the budget buys what
/// it can and is spent whole.
pub open spec fn spec_ask_take(cfg: MarketConfiguration, level: LadderLevel, budget: u64) -> Option<
    (u64, u64),
> {
    match spec_purchasable_base_lots(cfg, level.price_in_ticks, budget) {
        None => None,
        Some(purchasable) => {
            if level.size_in_base_lots > purchasable {
                Some((purchasable, budget))
            } else {
                match spec_ask_level_cost(cfg, level.price_in_ticks, level.size_in_base_lots) {
                    None => None,
                    Some(cost) => Some((level.size_in_base_lots, cost)),
                }
            }
        },
    }
}

/// Buying from one ask level with a budget of quote lots.
pub open spec fn spec_ask_step(cfg: MarketConfiguration, level: LadderLevel, st: WalkState) -> Option<
    WalkState,
> {
    match spec_ask_take(cfg, level, st.budget) {
        None => None,
        Some((base_lots, quote_lots)) => {
            let filled = base_lots * cfg.base_lot_size;
            if filled > u64::MAX {
                None
            } else if st.first is None && quote_lots * cfg.quote_lot_size > u64::MAX {
                None
            } else if st.output + filled > u64::MAX {
                None
            } else {
                Some(
                    WalkState {
                        budget: if quote_lots >= st.budget {
                            0
                        } else {
                            (st.budget - quote_lots) as u64
                        },
                        output: (st.output + filled) as u64,
                        first: spec_first_fill(
                            st.first,
                            (quote_lots * cfg.quote_lot_size) as u64,
                            filled as u64,
                        ),
                    },
                )
            }
        },
    }
}

/// Selling into the bids, best first, until the budget is spent or the side
/// is exhausted.
pub open spec fn spec_walk_bids(cfg: MarketConfiguration, levels: Seq<LadderLevel>, st: WalkState) -> Option<
    WalkState,
>
    decreases levels.len(),
{
    if levels.len() == 0 || st.budget == 0 {
        Some(st)
    } else {
        match spec_bid_step(cfg, levels[0], st) {
            None => None,
            Some(next) => spec_walk_bids(cfg, levels.drop_first(), next),
        }
    }
}

/// Buying from the asks, best first, until the budget is spent or the side
/// is exhausted.
pub open spec fn spec_walk_asks(cfg: MarketConfiguration, levels: Seq<LadderLevel>, st: WalkState) -> Option<
    WalkState,
>
    decreases levels.len(),
{
    if levels.len() == 0 || st.budget == 0 {
        Some(st)
    } else {
        match spec_ask_step(cfg, levels[0], st) {
            None => None,
            Some(next) => spec_walk_asks(cfg, levels.drop_first(), next),
        }
    }
}

/// Quote atoms received for selling `lots` base lots at `price_in_ticks`.
/// `None` exactly where a product does not fit in 64 bits or
/// `base_lots_per_base_unit` is zero.
pub fn bid_level_output(cfg: &MarketConfiguration, price_in_ticks: u64, lots: u64) -> (r: Option<u64>)
    ensures
        r == spec_bid_level_output(*cfg, price_in_ticks, lots),
{
    let ticks: u64 = price_in_ticks.checked_mul(lots)?;
    let quote_lots: u64 = ticks.checked_mul(cfg.tick_size_in_quote_lots_per_base_unit_per_tick)?;
    let quote_atoms: u64 = quote_lots.checked_mul(cfg.quote_lot_size)?;
    quote_atoms.checked_div(cfg.base_lots_per_base_unit)
}

/// Base lots that `quote_lot_budget` can buy at `price_in_ticks`.
/// `None` exactly where the product does not fit in 64 bits or a divisor is
/// zero.
pub fn purchasable_base_lots(cfg: &MarketConfiguration, price_in_ticks: u64, quote_lot_budget: u64) -> (r:
    Option<u64>)
    ensures
        r == spec_purchasable_base_lots(*cfg, price_in_ticks, quote_lot_budget),
{
    let scaled: u64 = quote_lot_budget.checked_mul(cfg.base_lots_per_base_unit)?;
    let ticks: u64 = scaled.checked_div(cfg.tick_size_in_quote_lots_per_base_unit_per_tick)?;
    ticks.checked_div(price_in_ticks)
}

/// Quote lots that `lots` base lots cost at `price_in_ticks`.
/// `None` exactly where a product does not fit in 64 bits or
/// `base_lots_per_base_unit` is zero.
pub fn ask_level_cost(cfg: &MarketConfiguration, price_in_ticks: u64, lots: u64) -> (r: Option<u64>)
    ensures
        r == spec_ask_level_cost(*cfg, price_in_ticks, lots),
{
    let ticks: u64 = price_in_ticks.checked_mul(lots)?;
    let scaled: u64 = ticks.checked_mul(cfg.tick_size_in_quote_lots_per_base_unit_per_tick)?;
    scaled.checked_div(cfg.base_lots_per_base_unit)
}

/// Sells into one bid level.
pub fn bid_step(cfg: &MarketConfiguration, level: &LadderLevel, st: &WalkState) -> (r: Option<
    WalkState,
>)
    ensures
        r == spec_bid_step(*cfg, *level, *st),
{
    let lots: u64 = if level.size_in_base_lots <= st.budget {
        level.size_in_base_lots
    } else {
        st.budget
    };
    let filled: u64 = bid_level_output(cfg, level.price_in_ticks, lots)?;
    let first = match st.first {
        Some(fill) => Some(fill),
        None => {
            let input_atoms: u64 = lots.checked_mul(cfg.base_lot_size)?;
            Some(LevelFill { input_atoms, output_atoms: filled })
        },
    };
    let output: u64 = st.output.checked_add(filled)?;
    Some(WalkState { budget: st.budget - lots, output, first })
}

/// Buys from one ask level.
pub fn ask_step(cfg: &MarketConfiguration, level: &LadderLevel, st: &WalkState) -> (r: Option<
    WalkState,
>)
    ensures
        r == spec_ask_step(*cfg, *level, *st),
{
    let purchasable: u64 = purchasable_base_lots(cfg, level.price_in_ticks, st.budget)?;
    let base_lots: u64;
    let quote_lots: u64;
    if level.size_in_base_lots > purchasable {
        base_lots = purchasable;
        quote_lots = st.budget;
    } else {
        base_lots = level.size_in_base_lots;
        quote_lots = ask_level_cost(cfg, level.price_in_ticks, base_lots)?;
    }
    let filled: u64 = base_lots.checked_mul(cfg.base_lot_size)?;
    let first = match st.first {
        Some(fill) => Some(fill),
        None => {
            let input_atoms: u64 = quote_lots.checked_mul(cfg.quote_lot_size)?;
            Some(LevelFill { input_atoms, output_atoms: filled })
        },
    };
    let output: u64 = st.output.checked_add(filled)?;
    Some(WalkState { budget: st.budget.saturating_sub(quote_lots), output, first })
}

/// Sells into `levels` from the front until the budget in `start` is spent
/// or no level is left. `None` where a level's arithmetic overflows.
pub fn walk_bids(cfg: &MarketConfiguration, levels: &Vec<LadderLevel>, start: WalkState) -> (r:
    Option<WalkState>)
    ensures
        r == spec_walk_bids(*cfg, levels@, start),
{
    let mut state = start;
    let mut i: usize = 0;
    assert(levels@.skip(0) =~= levels@);
    while i < levels.len() && state.budget > 0
        invariant
            i <= levels.len(),
            spec_walk_bids(*cfg, levels@, start) == spec_walk_bids(
                *cfg,
                levels@.skip(i as int),
                state,
            ),
        decreases levels.len() - i,
    {
        assert(levels@.skip(i as int).drop_first() =~= levels@.skip(i + 1));
        match bid_step(cfg, &levels[i], &state) {
            None => {
                return None;
            },
            Some(next) => {
                state = next;
            },
        }
        i += 1;
    }
    Some(state)
}

/// Buys from `levels` from the front until the budget in `start` is spent
/// or no level is left. `None` where a level's arithmetic overflows.
pub fn walk_asks(cfg: &MarketConfiguration, levels: &Vec<LadderLevel>, start: WalkState) -> (r:
    Option<WalkState>)
    ensures
        r == spec_walk_asks(*cfg, levels@, start),
{
    let mut state = start;
    let mut i: usize = 0;
    assert(levels@.skip(0) =~= levels@);
    while i < levels.len() && state.budget > 0
        invariant
            i <= levels.len(),
            spec_walk_asks(*cfg, levels@, start) == spec_walk_asks(
                *cfg,
                levels@.skip(i as int),
                state,
            ),
        decreases levels.len() - i,
    {
        assert(levels@.skip(i as int).drop_first() =~= levels@.skip(i + 1));
        match ask_step(cfg, &levels[i], &state) {
            None => {
                return None;
            },
            Some(next) => {
                state = next;
            },
        }
        i += 1;
    }
    Some(state)
}

/// A walk over the bids never adds to the budget, never takes from the output,
/// and keeps a first fill that was already recorded.
pub proof fn lemma_walk_bids_bounds(cfg: MarketConfiguration, levels: Seq<LadderLevel>, st: WalkState)
    ensures
        spec_walk_bids(cfg, levels, st) matches Some(end) ==> {
            &&& end.budget <= st.budget
            &&& end.output >= st.output
            &&& st.first is Some ==> end.first == st.first
        },
    decreases levels.len(),
{
    if levels.len() > 0 && st.budget > 0 {
        if let Some(next) = spec_bid_step(cfg, levels[0], st) {
            lemma_walk_bids_bounds(cfg, levels.drop_first(), next);
        }
    }
}

/// A walk over the asks never adds to the budget, never takes from the output,
/// and keeps a first fill that was already recorded.
pub proof fn lemma_walk_asks_bounds(cfg: MarketConfiguration, levels: Seq<LadderLevel>, st: WalkState)
    ensures
        spec_walk_asks(cfg, levels, st) matches Some(end) ==> {
            &&& end.budget <= st.budget
            &&& end.output >= st.output
            &&& st.first is Some ==> end.first == st.first
        },
    decreases levels.len(),
{
    if levels.len() > 0 && st.budget > 0 {
        if let Some(next) = spec_ask_step(cfg, levels[0], st) {
            lemma_walk_asks_bounds(cfg, levels.drop_first(), next);
        }
    }
}

/// No level of `levels` is priced above `cap`.
pub open spec fn prices_at_most(levels: Seq<LadderLevel>, cap: u64) -> bool {
    forall|i: int| 0 <= i < levels.len() ==> (#[trigger] levels[i]).price_in_ticks <= cap
}

/// Lots sold at a price of at most `cap` ticks fetch no more than they would
/// at `cap`, before rounding.
pub proof fn lemma_bid_level_output_bound(cfg: MarketConfiguration, price_in_ticks: u64, lots: u64, cap: u64)
    requires
        price_in_ticks <= cap,
    ensures
        spec_bid_level_output(cfg, price_in_ticks, lots) matches Some(filled) ==> filled
            * cfg.base_lots_per_base_unit <= lots * (cap
            * cfg.tick_size_in_quote_lots_per_base_unit_per_tick * cfg.quote_lot_size),
{
    if let Some(filled) = spec_bid_level_output(cfg, price_in_ticks, lots) {
        let p = price_in_ticks as int;
        let l = lots as int;
        let c = cap as int;
        let t = cfg.tick_size_in_quote_lots_per_base_unit_per_tick as int;
        let q = cfg.quote_lot_size as int;
        let b = cfg.base_lots_per_base_unit as int;
        let atoms = p * l * t * q;
        assert(filled == atoms / b);
        assert(0 <= p * l <= c * l) by (nonlinear_arith)
            requires
                0 <= p <= c,
                0 <= l,
        ;
        assert(0 <= p * l * t <= c * l * t) by (nonlinear_arith)
            requires
                0 <= p * l <= c * l,
                0 <= t,
        ;
        assert(0 <= p * l * t * q <= c * l * t * q) by (nonlinear_arith)
            requires
                0 <= p * l * t <= c * l * t,
                0 <= q,
        ;
        assert(c * l * t * q == l * (c * t * q)) by (nonlinear_arith);
        assert((atoms / b) * b <= atoms) by (nonlinear_arith)
            requires
                b > 0,
                atoms >= 0,
        ;
    }
}

/// Selling into bids that are all priced at or below `cap` fetches no more
/// than the lots sold would fetch at `cap`: per base lot, the output is
/// never better than the price `cap`.
pub proof fn lemma_walk_bids_output_bound(
    cfg: MarketConfiguration,
    levels: Seq<LadderLevel>,
    st: WalkState,
    cap: u64,
)
    requires
        prices_at_most(levels, cap),
    ensures
        spec_walk_bids(cfg, levels, st) matches Some(end) ==> (end.output - st.output)
            * cfg.base_lots_per_base_unit <= (st.budget - end.budget) * (cap
            * cfg.tick_size_in_quote_lots_per_base_unit_per_tick * cfg.quote_lot_size),
    decreases levels.len(),
{
    let b = cfg.base_lots_per_base_unit as int;
    let k = cap * cfg.tick_size_in_quote_lots_per_base_unit_per_tick * cfg.quote_lot_size;
    if levels.len() > 0 && st.budget > 0 {
        if let Some(next) = spec_bid_step(cfg, levels[0], st) {
            let rest = levels.drop_first();
            assert(prices_at_most(rest, cap)) by {
                assert forall|i: int| 0 <= i < rest.len() implies (#[trigger] rest[i]).price_in_ticks
                    <= cap by {
                    assert(rest[i] == levels[i + 1]);
                }
            }
            lemma_walk_bids_output_bound(cfg, rest, next, cap);
            if let Some(end) = spec_walk_bids(cfg, rest, next) {
                let lots = st.budget - next.budget;
                let filled = next.output - st.output;
                lemma_bid_level_output_bound(cfg, levels[0].price_in_ticks, lots as u64, cap);
                assert(filled * b <= lots * k);
                assert((end.output - st.output) * b == (end.output - next.output) * b + filled * b)
                    by (nonlinear_arith)
                    requires
                        filled == next.output - st.output,
                ;
                assert((st.budget - end.budget) * k == (next.budget - end.budget) * k + lots * k)
                    by (nonlinear_arith)
                    requires
                        lots == st.budget - next.budget,
                ;
            }
        }
    } else {
        assert(0 * b == 0);
        assert(0 * k == 0);
    }
}

/// What is taken from an ask level is never more than the level holds, and
/// never costs more than the budget: the decrement of the budget in
/// `spec_ask_step` takes off exactly what was paid.
pub proof fn lemma_ask_take_within_budget(cfg: MarketConfiguration, level: LadderLevel, budget: u64)
    ensures
        spec_ask_take(cfg, level, budget) matches Some((base_lots, quote_lots)) ==> base_lots
            <= level.size_in_base_lots && quote_lots <= budget,
{
    if let Some((base_lots, quote_lots)) = spec_ask_take(cfg, level, budget) {
        let purchasable = spec_purchasable_base_lots(cfg, level.price_in_ticks, budget).unwrap();
        if level.size_in_base_lots <= purchasable {
            let p = level.price_in_ticks as int;
            let s = level.size_in_base_lots as int;
            let t = cfg.tick_size_in_quote_lots_per_base_unit_per_tick as int;
            let b = cfg.base_lots_per_base_unit as int;
            let scaled = budget * b;
            let ticks = scaled / t;
            let lots = ticks / p;
            assert(purchasable == lots);
            assert(lots * p <= ticks) by (nonlinear_arith)
                requires
                    lots == ticks / p,
                    p > 0,
                    ticks >= 0,
            ;
            assert(p * s <= lots * p) by (nonlinear_arith)
                requires
                    0 <= s <= lots,
                    p > 0,
            ;
            assert(ticks * t <= scaled) by (nonlinear_arith)
                requires
                    ticks == scaled / t,
                    t > 0,
                    scaled >= 0,
            ;
            assert(p * s * t <= ticks * t) by (nonlinear_arith)
                requires
                    p * s <= ticks,
                    t > 0,
            ;
            assert((p * s * t) / b <= budget) by (nonlinear_arith)
                requires
                    p * s * t <= budget * b,
                    b > 0,
            ;
        }
    }
}

} // verus!
