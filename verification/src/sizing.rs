//! Deriving the next spot limit order's price and size.
//!
//! The policy reads the shared price state and either accepts parameters —
//! the observed futures size, capped so the notional stays at or below the
//! ceiling, truncated to the grid, and gated so the notional reaches the
//! floor — or answers that the caller must wait for a fresher futures size.

use crate::market::SharedPriceState;
use crate::step_grid::{floor_to_step, lemma_step_floor_bounds, on_grid, step_floor};
use vstd::prelude::*;

verus! {

/// A configuration the engine refuses to start with.
#[derive(Clone, Copy, Debug, PartialEq, Eq, Structural)]
pub enum ConfigError {
    /// The notional ceiling does not exceed the effective notional floor.
    MaxQuoteTooLow,
}

/// Price and size for one spot limit buy.
#[derive(Clone, Copy, Debug, PartialEq, Eq, Structural)]
pub struct OrderParams {
    /// Quote minor units per whole base unit.
    pub price: u64,
    /// Atoms of the base asset.
    pub size: u64,
}

/// Bounds and grid for sizing spot limit orders.
#[derive(Clone, Copy, Debug, PartialEq, Eq, Structural)]
pub struct SizingPolicy {
    /// Floor on an order's notional, in quote minor units.
    pub min_quote_size: u64,
    /// Ceiling on an order's notional, in quote minor units.
    pub max_quote_size: u64,
    /// The venue's size step grid, in atoms.
    pub size_step: u64,
    /// Atoms per whole base unit: a notional in quote minor units is
    /// `price * size / base_unit`.
    pub base_unit: u64,
}

impl SizingPolicy {
    /// The policy is usable: positive grid and scale, and room between the
    /// notional floor and ceiling.
    pub open spec fn wf(self) -> bool {
        &&& self.size_step > 0
        &&& self.base_unit > 0
        &&& self.min_quote_size < self.max_quote_size
    }

    /// The notional floor actually enforced: the configured floor, raised to
    /// the venue's minimum notional when that is higher.
    pub open spec fn spec_effective_min_quote(
        min_quote_size: u64,
        futures_symbol_min_notional: Option<u64>,
    ) -> u64 {
        match futures_symbol_min_notional {
            Some(min_notional) => if min_notional > min_quote_size {
                min_notional
            } else {
                min_quote_size
            },
            None => min_quote_size,
        }
    }

    /// Build the policy from the configured bounds and the venue's filters.
    /// Fails exactly when the ceiling does not exceed the effective floor.
    pub fn new(
        min_quote_size: u64,
        max_quote_size: u64,
        futures_symbol_min_notional: Option<u64>,
        size_step: u64,
        base_unit: u64,
    ) -> (r: Result<Self, ConfigError>)
        requires
            size_step > 0,
            base_unit > 0,
        ensures
            r is Ok <==> Self::spec_effective_min_quote(min_quote_size, futures_symbol_min_notional)
                < max_quote_size,
            r is Ok ==> r->Ok_0 == (SizingPolicy {
                min_quote_size: Self::spec_effective_min_quote(
                    min_quote_size,
                    futures_symbol_min_notional,
                ),
                max_quote_size,
                size_step,
                base_unit,
            }),
            r is Ok ==> r->Ok_0.wf(),
            r is Err ==> r->Err_0 == ConfigError::MaxQuoteTooLow,
    {
        let effective_min: u64 = match futures_symbol_min_notional {
            Some(min_notional) => if min_notional > min_quote_size {
                min_notional
            } else {
                min_quote_size
            },
            None => min_quote_size,
        };
        if max_quote_size <= effective_min {
            Err(ConfigError::MaxQuoteTooLow)
        } else {
            Ok(
                SizingPolicy {
                    min_quote_size: effective_min,
                    max_quote_size,
                    size_step,
                    base_unit,
                },
            )
        }
    }

    /// The largest size whose notional stays at or below the ceiling at this
    /// price.
    pub open spec fn spec_size_cap(self, price: u64) -> int {
        (self.max_quote_size * self.base_unit) / (price as int)
    }

    /// The candidate size at this price: the observed futures size, capped
    /// and truncated to the grid.
    pub open spec fn spec_candidate_size(self, price: u64, observed_size: u64) -> int {
        let capped: int = if observed_size <= self.spec_size_cap(price) {
            observed_size as int
        } else {
            self.spec_size_cap(price)
        };
        step_floor(capped, self.size_step as int)
    }

    /// Whether the candidate's notional reaches the floor; when it does not,
    /// the caller waits for a fresher futures size instead of ordering.
    pub open spec fn spec_accepts(self, price: u64, observed_size: u64) -> bool {
        price * self.spec_candidate_size(price, observed_size) >= self.min_quote_size
            * self.base_unit
    }

    /// What `deduce_spot_order_params` answers for one read of the state.
    pub open spec fn spec_order_params(self, price: u64, observed_size: u64) -> Option<
        OrderParams,
    > {
        if self.spec_accepts(price, observed_size) {
            Some(OrderParams { price, size: self.spec_candidate_size(price, observed_size) as u64 })
        } else {
            None
        }
    }

    /// Price and size for the next spot limit buy from one read of the shared
    /// state; `None` when the notional floor is not yet reachable, in which
    /// case the caller blocks until the futures size changes and asks again.
    pub fn deduce_spot_order_params(&self, state: &SharedPriceState) -> (r: Option<OrderParams>)
        requires
            self.wf(),
            state.spot_bid_price > 0,
        ensures
            r == self.spec_order_params(state.spot_bid_price, state.futures_bid_size),
    {
        let price: u64 = state.spot_bid_price;
        let observed: u64 = state.futures_bid_size;
        proof {
            assert((self.max_quote_size as int) * (self.base_unit as int) <= (u64::MAX as int) * (
            u64::MAX as int)) by (nonlinear_arith)
                requires
                    0 <= self.max_quote_size <= u64::MAX,
                    0 <= self.base_unit <= u64::MAX,
            ;
            vstd::arithmetic::mul::lemma_mul_nonnegative(
                self.max_quote_size as int,
                self.base_unit as int,
            );
        }
        let cap: u128 = ((self.max_quote_size as u128) * (self.base_unit as u128)) / (
        price as u128);
        let capped: u64 = if (observed as u128) <= cap {
            observed
        } else {
            cap as u64
        };
        let size: u64 = floor_to_step(capped, self.size_step);
        proof {
            lemma_step_floor_bounds(capped as int, self.size_step as int);
            assert((price as int) * (size as int) <= (u64::MAX as int) * (u64::MAX as int))
                by (nonlinear_arith)
                requires
                    0 <= price <= u64::MAX,
                    0 <= size <= u64::MAX,
            ;
            assert((self.min_quote_size as int) * (self.base_unit as int) <= (u64::MAX as int) * (
            u64::MAX as int)) by (nonlinear_arith)
                requires
                    0 <= self.min_quote_size <= u64::MAX,
                    0 <= self.base_unit <= u64::MAX,
            ;
        }
        let notional_scaled: u128 = (price as u128) * (size as u128);
        if notional_scaled >= (self.min_quote_size as u128) * (self.base_unit as u128) {
            Some(OrderParams { price, size })
        } else {
            None
        }
    }
}

/// Sizing bounds: any parameters the policy accepts lie on the grid and carry
/// a notional at or above `min_quote_size` and at or below `max_quote_size`,
/// relative to the price read (notional comparisons scaled by `base_unit`).
pub proof fn lemma_sizing_bounds(policy: SizingPolicy, price: u64, observed_size: u64)
    requires
        policy.wf(),
        price > 0,
        policy.spec_order_params(price, observed_size) is Some,
    ensures
        ({
            let params = policy.spec_order_params(price, observed_size)->Some_0;
            &&& (price as int) * (params.size as int) >= policy.min_quote_size
                * policy.base_unit
            &&& (price as int) * (params.size as int) <= policy.max_quote_size
                * policy.base_unit
            &&& on_grid(params.size as int, policy.size_step as int)
        }),
{
    let cap: int = policy.spec_size_cap(price);
    let capped: int = if observed_size <= cap {
        observed_size as int
    } else {
        cap
    };
    let candidate: int = policy.spec_candidate_size(price, observed_size);
    vstd::arithmetic::mul::lemma_mul_nonnegative(
        policy.max_quote_size as int,
        policy.base_unit as int,
    );
    vstd::arithmetic::div_mod::lemma_div_pos_is_pos(
        (policy.max_quote_size as int) * (policy.base_unit as int),
        price as int,
    );
    lemma_step_floor_bounds(capped, policy.size_step as int);
    assert(candidate <= cap);
    vstd::arithmetic::mul::lemma_mul_inequality(candidate, cap, price as int);
    vstd::arithmetic::mul::lemma_mul_is_commutative(candidate, price as int);
    vstd::arithmetic::mul::lemma_mul_is_commutative(cap, price as int);
    vstd::arithmetic::div_mod::lemma_fundamental_div_mod(
        (policy.max_quote_size as int) * (policy.base_unit as int),
        price as int,
    );
    vstd::arithmetic::div_mod::lemma_mod_bound(
        (policy.max_quote_size as int) * (policy.base_unit as int),
        price as int,
    );
}

} // verus!
