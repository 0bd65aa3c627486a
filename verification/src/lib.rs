//! Time-series statistics over an ordered sequence of prices.
//!
//! Prices are held as plain `i64` values (the caller chooses the unit, for
//! example cents); every reduction is exact, with ratios of integers standing
//! where a division would otherwise lose information. All reductions are
//! total: degenerate inputs yield an absent result instead of a panic.

pub mod stats;
pub mod summary;
