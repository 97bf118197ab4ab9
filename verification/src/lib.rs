//! Quote engine of a managed multi-asset pool.
//!
//! The pool prices an exchange between two of its assets along a piecewise
//! price-impact curve, charges a fee that depends on which side of its target
//! holding the pool stands, and refuses trades that would push an asset's
//! share of the pool outside its allowed band.
pub mod accounts;
pub mod addresses;
pub mod buy_curve;
pub mod composition;
pub mod errors;
pub mod fees;
pub mod fixed_point;
pub mod monotonicity;
pub mod price_bounds;
pub mod quote;
pub mod sell_curve;
pub mod swap;
pub mod token_swap;
pub mod weights;
