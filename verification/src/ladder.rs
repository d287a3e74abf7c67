//! A frozen view of the resting liquidity on both sides of a book.
use vstd::prelude::*;

verus! {

/// One price level: the total resting size at one price.
#[derive(Clone, Copy, Debug, PartialEq, Eq, Structural)]
pub struct LadderLevel {
    pub price_in_ticks: u64,
    pub size_in_base_lots: u64,
}

/// Both sides of the book, each with its best price first: bids descending,
/// asks ascending. The order is taken as given and never checked.
#[derive(Clone, Debug)]
pub struct LadderSnapshot {
    pub bids: Vec<LadderLevel>,
    pub asks: Vec<LadderLevel>,
}

} // verus!
