//! Accounting and position-rebalancing core of a pooled-collateral vault that
//! captures funding on a perpetual-futures venue.
//!
//! The vault issues receipt shares against deposited collateral, keeps its
//! open exposure near a 1:1 collateral:liability target, and redeems shares
//! pro rata. Everything the vault decides or computes lives here, verified;
//! the venue itself (order matching, margin, custody) is an external
//! collaborator that a host layer talks to between the steps this crate
//! plans.

pub mod deposit;
pub mod error;
pub mod exchange;
pub mod state;
pub mod update_position;
pub mod withdraw;
