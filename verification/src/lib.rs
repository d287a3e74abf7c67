//! Quotes for market orders against a snapshot of a limit order book, in the
//! integer lot and tick arithmetic of the matching engine.
pub mod amm;
pub mod decimal;
pub mod ladder;
pub mod market;
pub mod quote;
pub mod walk;
