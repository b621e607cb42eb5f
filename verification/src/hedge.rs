//! Deciding how much of the unhedged spot position to sell on futures.
//!
//! The venue refuses futures orders below a minimum base size, so the
//! accumulator defers sub-minimum sells, borrows ahead when the remaining
//! spot quantity could never form a legal order on its own, and flushes
//! everything once the spot order is fully filled.

use crate::step_grid::{ceil_to_step, lemma_step_floor_bounds, lemma_step_floor_monotone,
    lemma_step_floor_of_multiple, on_grid, step_ceil, step_floor};
use vstd::prelude::*;

verus! {

/// Sizing rules for futures hedge orders on one market.
#[derive(Clone, Copy, Debug, PartialEq, Eq, Structural)]
pub struct HedgeAccumulator {
    /// Smallest base size (atoms) the venue accepts for a futures order:
    /// the venue's minimum lot, raised when a minimum notional demands more.
    pub futures_order_min_base_size: u64,
    /// The venue's size step grid, in atoms.
    pub size_step: u64,
}

impl HedgeAccumulator {
    /// The sizing rules are usable: a positive grid, and a positive minimum
    /// that itself lies on the grid.
    pub open spec fn wf(self) -> bool {
        &&& self.size_step > 0
        &&& self.futures_order_min_base_size > 0
        &&& on_grid(self.futures_order_min_base_size as int, self.size_step as int)
    }

    /// The minimum base size implied by a venue minimum notional (quote minor
    /// units) at the given futures price: the smallest on-grid size whose
    /// notional reaches it, never below the venue's minimum lot.
    pub open spec fn spec_min_base_size(
        futures_symbol_min_notional: Option<u64>,
        futures_bid_price: int,
        futures_min_lot_size: int,
        size_step: int,
        base_unit: int,
    ) -> int {
        match futures_symbol_min_notional {
            Some(min_notional) => {
                let implied = step_ceil(
                    (min_notional * base_unit + futures_bid_price - 1) / futures_bid_price,
                    size_step,
                );
                if implied > futures_min_lot_size {
                    implied
                } else {
                    futures_min_lot_size
                }
            },
            None => futures_min_lot_size,
        }
    }

    /// Build the sizing rules from the venue's filters and the first observed
    /// futures price.
    pub fn new(
        futures_symbol_min_notional: Option<u64>,
        futures_bid_price: u64,
        futures_min_lot_size: u64,
        size_step: u64,
        base_unit: u64,
    ) -> (r: Self)
        requires
            futures_bid_price > 0,
            size_step > 0,
            base_unit > 0,
            futures_min_lot_size > 0,
            on_grid(futures_min_lot_size as int, size_step as int),
            Self::spec_min_base_size(
                futures_symbol_min_notional,
                futures_bid_price as int,
                futures_min_lot_size as int,
                size_step as int,
                base_unit as int,
            ) <= u64::MAX,
        ensures
            r.size_step == size_step,
            r.futures_order_min_base_size == Self::spec_min_base_size(
                futures_symbol_min_notional,
                futures_bid_price as int,
                futures_min_lot_size as int,
                size_step as int,
                base_unit as int,
            ),
            r.wf(),
    {
        let min_base: u64 = match futures_symbol_min_notional {
            Some(min_notional) => {
                proof {
                    assert((min_notional as int) * (base_unit as int) <= (u64::MAX as int) * (
                    u64::MAX as int)) by (nonlinear_arith)
                        requires
                            0 <= min_notional <= u64::MAX,
                            0 <= base_unit <= u64::MAX,
                    ;
                }
                let scaled: u128 = (min_notional as u128) * (base_unit as u128);
                let implied_raw: u128 =
                    (scaled + (futures_bid_price as u128) - 1) / (futures_bid_price as u128);
                proof {
                    assert(implied_raw
                        == ((min_notional as int) * (base_unit as int) + futures_bid_price - 1)
                            / (futures_bid_price as int));
                    vstd::arithmetic::div_mod::lemma_div_pos_is_pos(
                        (min_notional as int) * (base_unit as int) + futures_bid_price - 1,
                        futures_bid_price as int,
                    );
                    vstd::arithmetic::mul::lemma_mul_nonnegative(
                        min_notional as int,
                        base_unit as int,
                    );
                    crate::step_grid::lemma_step_ceil_bounds(implied_raw as int, size_step as int);
                }
                let implied: u64 = ceil_to_step(implied_raw as u64, size_step);
                if implied > futures_min_lot_size {
                    implied
                } else {
                    futures_min_lot_size
                }
            },
            None => futures_min_lot_size,
        };
        HedgeAccumulator { futures_order_min_base_size: min_base, size_step }
    }

    /// What `calculate_size_to_sell_on_futures` answers: the next futures
    /// sell, or nothing when accumulating further is the right move.
    ///
    /// With the spot order fully filled (`remains_to_buy == 0`) everything
    /// available is flushed to the grid, minimum or not. Otherwise, when the
    /// remaining spot quantity could never form a legal order by itself, its
    /// shortfall against the minimum is held back now; whatever is left is
    /// sold only once it reaches the minimum, truncated to the grid.
    pub open spec fn spec_size_to_sell(self, available_to_sell: u64, remains_to_buy: u64) -> Option<
        u64,
    > {
        if remains_to_buy == 0 {
            Some(step_floor(available_to_sell as int, self.size_step as int) as u64)
        } else {
            let borrow: int = if remains_to_buy < self.futures_order_min_base_size {
                self.futures_order_min_base_size - remains_to_buy
            } else {
                0
            };
            if available_to_sell - borrow >= self.futures_order_min_base_size {
                Some(step_floor(available_to_sell - borrow, self.size_step as int) as u64)
            } else {
                None
            }
        }
    }

    /// The size of the next futures market sell given what has filled but is
    /// not yet hedged and what is still open on the spot order; `None` defers
    /// the hedge until more has accumulated.
    pub fn calculate_size_to_sell_on_futures(
        &self,
        available_to_sell: u64,
        remains_to_buy: u64,
    ) -> (r: Option<u64>)
        requires
            self.wf(),
        ensures
            r == self.spec_size_to_sell(available_to_sell, remains_to_buy),
            (r matches Some(s) ==> s <= available_to_sell),
    {
        proof {
            lemma_step_floor_bounds(available_to_sell as int, self.size_step as int);
        }
        if remains_to_buy == 0 {
            return Some((available_to_sell / self.size_step) * self.size_step);
        }

        let effective: u64 = if remains_to_buy < self.futures_order_min_base_size {
            let borrow: u64 = self.futures_order_min_base_size - remains_to_buy;
            if available_to_sell < borrow {
                return None;
            }
            available_to_sell - borrow
        } else {
            available_to_sell
        };

        if effective < self.futures_order_min_base_size {
            return None;
        }

        proof {
            lemma_step_floor_bounds(effective as int, self.size_step as int);
        }
        Some((effective / self.size_step) * self.size_step)
    }
}

/// Minimum-size gating: a proposed sell is never a nonzero size below the
/// venue minimum, except the terminal flush (`remains_to_buy == 0`), which
/// may return any nonnegative leftover, sub-minimum included.
pub proof fn lemma_min_size_gating(acc: HedgeAccumulator, available_to_sell: u64, remains_to_buy: u64)
    requires
        acc.wf(),
        remains_to_buy > 0,
        acc.spec_size_to_sell(available_to_sell, remains_to_buy) is Some,
    ensures
        acc.spec_size_to_sell(available_to_sell, remains_to_buy)->Some_0
            >= acc.futures_order_min_base_size,
{
    let min: int = acc.futures_order_min_base_size as int;
    let step: int = acc.size_step as int;
    let borrow: int = if remains_to_buy < acc.futures_order_min_base_size {
        min - remains_to_buy
    } else {
        0
    };
    let effective: int = available_to_sell - borrow;
    lemma_step_floor_bounds(effective, step);
    lemma_step_floor_monotone(min, effective, step);
    lemma_step_floor_of_multiple(min, step);
    assert(min <= step_floor(effective, step) <= effective <= u64::MAX);
}

} // verus!
