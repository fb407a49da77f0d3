//! Verified kernel of an orbital propagation toolkit.
//!
//! Everything in this crate is exact: Butcher tableaux are stored as rational
//! numbers, the harmonic-gravity recurrences are laid out as schedules of
//! integer coefficients, and the adaptive integrator is a decision procedure
//! over the outcomes of comparisons.  A numerical front end evaluates the
//! arithmetic these structures describe with whatever number type it likes.
pub mod dynamics;
pub mod propagators;
pub mod ratio;
