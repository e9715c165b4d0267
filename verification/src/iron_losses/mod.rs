//! Models of the specific iron losses of a material.

pub mod jordan_model;

pub use jordan_model::{
    FailedCoefficientCalculation, FitLossCurve, FluxDensityLossPair, IronLossCharacteristic,
    IronLossData, JordanModel,
};

use crate::quantity::{frequency_unit, magnetic_flux_density_unit, Quantity};
use jordan_model::{conditions_within_limits, last_with_unit};
use vstd::prelude::*;

verus! {

/// The specific iron losses of a material: a constant, the Jordan model, or
/// a function that the user of the crate provides.
#[derive(Clone, Debug)]
pub enum IronLosses<F> {
    /// The same losses under all conditions.
    Constant(i128),
    /// Losses that the Jordan model gives.
    JordanModel(JordanModel),
    /// Any other dependency on the conditions.
    Function(F),
}

impl<F> IronLosses<F> {
    /// The specific losses under the conditions `conditions`: the constant,
    /// or what the Jordan model gives. Where the losses are given by a
    /// function, there is no value: the function is for the caller to call.
    pub fn get(&self, conditions: &Vec<Quantity>) -> (losses: Option<i128>)
        requires
            self matches IronLosses::JordanModel(model) ==> {
                &&& model.within_limits()
                &&& conditions_within_limits(
                    last_with_unit(conditions@, magnetic_flux_density_unit()) as int,
                    last_with_unit(conditions@, frequency_unit()) as int,
                )
            },
        ensures
            match self {
                IronLosses::Constant(value) => losses == Some(*value),
                IronLosses::JordanModel(model) => losses is Some && losses->0 == model.losses_at(
                    last_with_unit(conditions@, magnetic_flux_density_unit()) as int,
                    last_with_unit(conditions@, frequency_unit()) as int,
                ),
                IronLosses::Function(_) => losses is None,
            },
    {
        match self {
            IronLosses::Constant(val) => Some(*val),
            IronLosses::JordanModel(model) => Some(model.call(conditions)),
            IronLosses::Function(_) => None,
        }
    }

    /// The function, where the losses are given by one.
    pub fn function(&self) -> (function: Option<&F>)
        ensures
            match self {
                IronLosses::Function(inner) => function == Some(inner),
                _ => function is None,
            },
    {
        match self {
            IronLosses::Function(quantity_function) => Some(quantity_function),
            _ => None,
        }
    }
}

} // verus!
