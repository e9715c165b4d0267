//! Models of the magnetic behaviour of materials: the relative permeability
//! of ferromagnetic materials and the iron losses in core laminations.
//!
//! All values are fixed-point numbers, see [`fixed_point`]: an `i128` counts
//! billionths of the SI unit of its quantity. Every result is stated exactly
//! in the contract of the function that computes it.
//!
//! Two things are left to the caller, who has floating-point numbers at
//! hand: the interpolation with splines and the minimization of a cost
//! function.
//!
//! - [`relative_permeability`] prepares the knots and end slopes of the
//!   splines `µr(H)` and `µr(B)` from a measured magnetization curve, and
//!   tells for each query which spline is to be evaluated where. The caller
//!   builds the splines from this data and evaluates them.
//! - [`iron_losses`] evaluates the loss equation of the Jordan model and
//!   provides the cost function and the first simplex for the fit of its
//!   coefficients to measured loss curves. The caller runs the
//!   minimization.

pub mod fixed_point;
pub mod iron_losses;
pub mod quantity;
pub mod relative_permeability;
pub mod spline;
