//! Shared market state and the compute side of the order-book observers.
//!
//! The feed workers that decode venue messages live outside the library; what
//! stands here is the data they maintain: the latest top-of-book quote of
//! each feed, reduced to plain fixed-point values.

use vstd::prelude::*;

verus! {

/// A top-of-book quote: best bid price (quote minor units per whole base
/// unit) and the size offered at it (atoms of the base asset).
#[derive(Clone, Copy, Debug, PartialEq, Eq, Structural)]
pub struct Quote {
    pub price: u64,
    pub size: u64,
}

/// The latest observed spot bid price and futures top-of-book size.
///
/// Each feed worker owns exactly one field; the sizing policy reads both.
/// Construction takes one quote from each feed, so neither field ever holds
/// a default in place of an observation.
#[derive(Clone, Copy, Debug, PartialEq, Eq, Structural)]
pub struct SharedPriceState {
    pub spot_bid_price: u64,
    pub futures_bid_size: u64,
}

impl SharedPriceState {
    /// State seeded from the first quote of each feed.
    pub fn new(first_spot_bid: Quote, first_futures_bid: Quote) -> (r: Self)
        ensures
            r.spot_bid_price == first_spot_bid.price,
            r.futures_bid_size == first_futures_bid.size,
    {
        SharedPriceState { spot_bid_price: first_spot_bid.price, futures_bid_size: first_futures_bid.size }
    }

    /// Overwrite the spot bid price with a newer observation.
    pub fn set_spot_price(&mut self, price: u64)
        ensures
            final(self).spot_bid_price == price,
            final(self).futures_bid_size == old(self).futures_bid_size,
    {
        self.spot_bid_price = price;
    }

    /// Overwrite the futures top-of-book size with a newer observation.
    pub fn set_futures_size(&mut self, size: u64)
        ensures
            final(self).futures_bid_size == size,
            final(self).spot_bid_price == old(self).spot_bid_price,
    {
        self.futures_bid_size = size;
    }
}

/// The spot order-book feed: its worker decodes depth snapshots outside the
/// library and applies `best_bid` to each.
pub struct SpotOrderBookObserver {}

/// The futures order-book feed: its worker decodes depth snapshots outside
/// the library and applies `best_bid` to each.
pub struct FuturesOrderBookObserver {}

/// The update an order-book snapshot carries: its top bid, or nothing when
/// the bid side is empty (a malformed snapshot, skipped rather than applied).
pub open spec fn spec_best_bid(bids: Seq<Quote>) -> Option<Quote> {
    if bids.len() == 0 {
        None
    } else {
        Some(bids[0])
    }
}

impl SpotOrderBookObserver {
    /// The update to take from one decoded spot depth snapshot.
    pub fn best_bid(bids: &Vec<Quote>) -> (r: Option<Quote>)
        ensures
            r == spec_best_bid(bids@),
    {
        if bids.len() == 0 {
            None
        } else {
            Some(bids[0])
        }
    }
}

impl FuturesOrderBookObserver {
    /// The update to take from one decoded futures depth snapshot.
    pub fn best_bid(bids: &Vec<Quote>) -> (r: Option<Quote>)
        ensures
            r == spec_best_bid(bids@),
    {
        if bids.len() == 0 {
            None
        } else {
            Some(bids[0])
        }
    }
}

} // verus!
