//! A hedging engine for a spot limit buy offset by futures market sells.
//!
//! All asset quantities are fixed-point integers: a size counts atoms of the
//! base asset (`base_unit` atoms make one whole unit), a price counts quote
//! minor units per whole base unit, and a notional therefore scales as
//! `price * size / base_unit`. Exchange step-grid constraints become
//! divisibility by a step measured in atoms.

pub mod engine;
pub mod hedge;
pub mod market;
pub mod sizing;
pub mod step_grid;
