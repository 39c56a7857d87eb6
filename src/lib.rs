//! A chat bot's stock-market and persistence layer: records and their wire
//! items, a fixed-window rate limiter, the market-data provider's decisions,
//! error taxonomies and the text shown to users.
use vstd::prelude::*;

pub mod text;
pub mod time;
pub mod database;
pub mod item;
pub mod dynamodb;
pub mod service;
pub mod ai;
pub mod storage;
pub mod deployment;
pub mod provider;
pub mod rate_limit;
pub mod av_provider;

verus! {

/// Marks the stock module as ready; it holds no state to set up.
pub fn init() {
}

} // verus!
