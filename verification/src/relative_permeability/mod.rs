//! Relative permeability of ferromagnetic materials.
//!
//! The field strength `H` and the flux density `B` of a magnetic field are
//! related by `B = µ0 · µr · H`, with the vacuum permeability `µ0` and the
//! relative permeability `µr` of the material. For a ferromagnetic material
//! `µr` depends on the field itself and is known from measured pairs of `H`
//! and `B` only.
//!
//! [`FerromagneticPermeability`] holds the data of two splines, `µr(H)` and
//! `µr(B)`, made from such measurements for use in iterative solvers: the
//! permeability does not rise with the field, and both splines are continued
//! with straight lines beyond the measured range. The splines themselves are
//! built and evaluated by the caller.

pub mod curve;
pub mod knots;
pub mod model;
pub mod query;
pub mod sampling;

pub use curve::{InvalidInputData, MagnetizationCurve, PolarizationCurve};
pub use model::FerromagneticPermeability;
pub use query::{FieldStrengthOrFluxDensity, SplineChoice, SplineQuery};
pub use sampling::{sample_bh_curve, CHANGE_TOLERANCE};

use crate::quantity::Quantity;
use query::query_for_conditions;
use vstd::prelude::*;

verus! {

/// The relative permeability of a material: a constant, the model of a
/// ferromagnetic material of this crate, or a function that the user of
/// the crate provides.
#[derive(Clone, Debug)]
pub enum RelativePermeability<F> {
    /// The same permeability under all conditions.
    Constant(i128),
    /// The permeability of a ferromagnetic material.
    FerromagneticPermeability(FerromagneticPermeability),
    /// Any other dependency on the conditions.
    Function(F),
}

/// What is to be done to get the relative permeability of a material.
#[derive(Clone, Copy, Debug, PartialEq, Eq, Structural)]
pub enum Lookup {
    /// Nothing: this is the permeability.
    Value(i128),
    /// A spline of the ferromagnetic model is to be evaluated.
    Spline(SplineQuery),
    /// The function of the material is to be called.
    Function,
}

impl<F> RelativePermeability<F> {
    /// Tells how the relative permeability under the conditions
    /// `influencing_factors` is had: a constant is the permeability itself,
    /// the ferromagnetic model names the evaluation of a spline, and a
    /// function is left to the caller.
    pub fn get(&self, influencing_factors: &Vec<Quantity>) -> (lookup: Lookup)
        ensures
            lookup == match self {
                RelativePermeability::Constant(value) => Lookup::Value(*value),
                RelativePermeability::FerromagneticPermeability(_) => Lookup::Spline(
                    query_for_conditions(influencing_factors@),
                ),
                RelativePermeability::Function(_) => Lookup::Function,
            },
    {
        match self {
            RelativePermeability::Constant(value) => Lookup::Value(*value),
            RelativePermeability::FerromagneticPermeability(model) => Lookup::Spline(
                model.call(influencing_factors),
            ),
            RelativePermeability::Function(_) => Lookup::Function,
        }
    }

    /// The function, where the permeability is given by one.
    pub fn function(&self) -> (function: Option<&F>)
        ensures
            match self {
                RelativePermeability::Function(inner) => function == Some(inner),
                _ => function is None,
            },
    {
        match self {
            RelativePermeability::Function(quantity_function) => Some(quantity_function),
            _ => None,
        }
    }
}

} // verus!
