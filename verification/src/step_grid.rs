//! Truncation arithmetic for exchange step grids.
//!
//! A venue only accepts order sizes that are whole multiples of a step
//! (measured here in atoms of the base asset). Candidate sizes are rounded
//! down to the grid; venue minima derived from a notional are rounded up.

use vstd::prelude::*;

verus! {

/// `x` rounded down to the nearest multiple of `step`.
pub open spec fn step_floor(x: int, step: int) -> int {
    (x / step) * step
}

/// `x` rounded up to the nearest multiple of `step`.
pub open spec fn step_ceil(x: int, step: int) -> int {
    if x % step == 0 {
        x
    } else {
        step_floor(x, step) + step
    }
}

/// Whether `x` lies on the grid of multiples of `step`.
pub open spec fn on_grid(x: int, step: int) -> bool {
    x % step == 0
}

/// Truncation: rounding down to the grid never rounds up, loses less than
/// one step, and lands on the grid.
pub proof fn lemma_step_floor_bounds(x: int, step: int)
    requires
        x >= 0,
        step > 0,
    ensures
        step_floor(x, step) <= x < step_floor(x, step) + step,
        on_grid(step_floor(x, step), step),
        step_floor(x, step) >= 0,
{
    vstd::arithmetic::div_mod::lemma_fundamental_div_mod(x, step);
    vstd::arithmetic::div_mod::lemma_mod_bound(x, step);
    vstd::arithmetic::div_mod::lemma_mod_multiples_basic(x / step, step);
    vstd::arithmetic::div_mod::lemma_div_pos_is_pos(x, step);
    vstd::arithmetic::mul::lemma_mul_nonnegative(x / step, step);
    vstd::arithmetic::mul::lemma_mul_is_commutative(x / step, step);
}

/// A value already on the grid is its own truncation.
pub proof fn lemma_step_floor_of_multiple(x: int, step: int)
    requires
        step > 0,
        on_grid(x, step),
    ensures
        step_floor(x, step) == x,
{
    vstd::arithmetic::div_mod::lemma_fundamental_div_mod(x, step);
    vstd::arithmetic::mul::lemma_mul_is_commutative(x / step, step);
}

/// Truncation: rounding down to the grid is idempotent.
pub proof fn lemma_step_floor_idempotent(x: int, step: int)
    requires
        x >= 0,
        step > 0,
    ensures
        step_floor(step_floor(x, step), step) == step_floor(x, step),
{
    lemma_step_floor_bounds(x, step);
    lemma_step_floor_of_multiple(step_floor(x, step), step);
}

/// Truncation is monotone in its argument.
pub proof fn lemma_step_floor_monotone(x: int, y: int, step: int)
    requires
        x <= y,
        step > 0,
    ensures
        step_floor(x, step) <= step_floor(y, step),
{
    vstd::arithmetic::div_mod::lemma_div_is_ordered(x, y, step);
    vstd::arithmetic::mul::lemma_mul_inequality(x / step, y / step, step);
}

/// Rounding up lands on the grid, never rounds down, and adds less than one
/// step.
pub proof fn lemma_step_ceil_bounds(x: int, step: int)
    requires
        x >= 0,
        step > 0,
    ensures
        x <= step_ceil(x, step) < x + step,
        on_grid(step_ceil(x, step), step),
{
    lemma_step_floor_bounds(x, step);
    if x % step != 0 {
        vstd::arithmetic::div_mod::lemma_mod_add_multiples_vanish(step_floor(x, step), step);
    }
}

/// `x` rounded down to the nearest multiple of `step`.
pub fn floor_to_step(x: u64, step: u64) -> (r: u64)
    requires
        step > 0,
    ensures
        r == step_floor(x as int, step as int),
        r <= x,
        on_grid(r as int, step as int),
{
    proof {
        lemma_step_floor_bounds(x as int, step as int);
    }
    (x / step) * step
}

/// `x` rounded up to the nearest multiple of `step`.
pub fn ceil_to_step(x: u64, step: u64) -> (r: u64)
    requires
        step > 0,
        step_ceil(x as int, step as int) <= u64::MAX,
    ensures
        r == step_ceil(x as int, step as int),
        r >= x,
        on_grid(r as int, step as int),
{
    proof {
        lemma_step_ceil_bounds(x as int, step as int);
        lemma_step_floor_bounds(x as int, step as int);
    }
    if x % step == 0 {
        x
    } else {
        (x / step) * step + step
    }
}

} // verus!
