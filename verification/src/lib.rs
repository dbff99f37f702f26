//! A single-column atmospheric boundary-layer simulator.
//!
//! The model integrates a small system of ordinary differential equations
//! for the mixed-layer depth, potential temperature, specific humidity and
//! their jumps across the boundary-layer top, with one explicit Euler step
//! per call. A thin adapter exposes the state and the time stepping to a
//! Basic Model Interface style caller.
//!
//! All physical quantities are held as exact fixed-point numbers
//! ([`fixed::Fp`]); every arithmetic step either yields the exact
//! truncated result or reports that the step is not representable.

pub mod bmi;
pub mod fixed;
pub mod model;
pub mod utils;
