//! Physical quantities whose unit is known only at run time.
//!
//! A [`Quantity`] pairs a fixed-point value with the exponents of the seven SI
//! base units. The models of this crate pick the values they depend on out of
//! a list of such quantities by comparing units.

use vstd::prelude::*;

verus! {

/// A unit of measurement, given by the exponents of the SI base units.
#[derive(Clone, Copy, Debug, PartialEq, Eq, Structural)]
pub struct Unit {
    /// Exponent of the second.
    pub second: i32,
    /// Exponent of the meter.
    pub meter: i32,
    /// Exponent of the kilogram.
    pub kilogram: i32,
    /// Exponent of the ampere.
    pub ampere: i32,
    /// Exponent of the kelvin.
    pub kelvin: i32,
    /// Exponent of the mole.
    pub mol: i32,
    /// Exponent of the candela.
    pub candela: i32,
}

/// The unit of a magnetic field strength, A/m.
pub open spec fn magnetic_field_strength_unit() -> Unit {
    Unit { second: 0, meter: (-1) as i32, kilogram: 0, ampere: 1, kelvin: 0, mol: 0, candela: 0 }
}

/// The unit of a magnetic flux density, T = kg/(s²·A).
pub open spec fn magnetic_flux_density_unit() -> Unit {
    Unit {
        second: (-2) as i32,
        meter: 0,
        kilogram: 1,
        ampere: (-1) as i32,
        kelvin: 0,
        mol: 0,
        candela: 0,
    }
}

/// The unit of a frequency, Hz = 1/s.
pub open spec fn frequency_unit() -> Unit {
    Unit { second: (-1) as i32, meter: 0, kilogram: 0, ampere: 0, kelvin: 0, mol: 0, candela: 0 }
}

/// Calls `dyn_quantity`'s conversion of `PredefUnit::MagneticFieldStrength`
/// into a `Unit` and copies the exponents. The contract claims the exponents
/// that the crate documents for that unit: m^-1·A.
#[verifier::external_body]
fn predefined_magnetic_field_strength() -> (unit: Unit)
    ensures
        unit == magnetic_field_strength_unit(),
{
    let u = dyn_quantity::Unit::from(dyn_quantity::PredefUnit::MagneticFieldStrength);
    Unit {
        second: u.second,
        meter: u.meter,
        kilogram: u.kilogram,
        ampere: u.ampere,
        kelvin: u.kelvin,
        mol: u.mol,
        candela: u.candela,
    }
}

/// Calls `dyn_quantity`'s conversion of `PredefUnit::MagneticFluxDensity`
/// into a `Unit` and copies the exponents. The contract claims the exponents
/// that the crate documents for that unit: s^-2·kg·A^-1.
#[verifier::external_body]
fn predefined_magnetic_flux_density() -> (unit: Unit)
    ensures
        unit == magnetic_flux_density_unit(),
{
    let u = dyn_quantity::Unit::from(dyn_quantity::PredefUnit::MagneticFluxDensity);
    Unit {
        second: u.second,
        meter: u.meter,
        kilogram: u.kilogram,
        ampere: u.ampere,
        kelvin: u.kelvin,
        mol: u.mol,
        candela: u.candela,
    }
}

/// Calls `dyn_quantity`'s conversion of `PredefUnit::Frequency` into a `Unit`
/// and copies the exponents. The contract claims the exponents that the crate
/// documents for that unit: s^-1.
#[verifier::external_body]
fn predefined_frequency() -> (unit: Unit)
    ensures
        unit == frequency_unit(),
{
    let u = dyn_quantity::Unit::from(dyn_quantity::PredefUnit::Frequency);
    Unit {
        second: u.second,
        meter: u.meter,
        kilogram: u.kilogram,
        ampere: u.ampere,
        kelvin: u.kelvin,
        mol: u.mol,
        candela: u.candela,
    }
}

impl Unit {
    /// The unit of a magnetic field strength.
    pub fn magnetic_field_strength() -> (unit: Unit)
        ensures
            unit == magnetic_field_strength_unit(),
    {
        predefined_magnetic_field_strength()
    }

    /// The unit of a magnetic flux density.
    pub fn magnetic_flux_density() -> (unit: Unit)
        ensures
            unit == magnetic_flux_density_unit(),
    {
        predefined_magnetic_flux_density()
    }

    /// The unit of a frequency.
    pub fn frequency() -> (unit: Unit)
        ensures
            unit == frequency_unit(),
    {
        predefined_frequency()
    }
}

/// A fixed-point value together with its unit.
#[derive(Clone, Copy, Debug, PartialEq, Eq, Structural)]
pub struct Quantity {
    /// The value, in billionths of the coherent SI unit.
    pub value: i128,
    /// The unit of the value.
    pub unit: Unit,
}

impl Quantity {
    /// A magnetic field strength of `value` billionths of an ampere per meter.
    pub fn magnetic_field_strength(value: i128) -> (q: Quantity)
        ensures
            q == (Quantity { value, unit: magnetic_field_strength_unit() }),
    {
        Quantity { value, unit: Unit::magnetic_field_strength() }
    }

    /// A magnetic flux density of `value` billionths of a tesla.
    pub fn magnetic_flux_density(value: i128) -> (q: Quantity)
        ensures
            q == (Quantity { value, unit: magnetic_flux_density_unit() }),
    {
        Quantity { value, unit: Unit::magnetic_flux_density() }
    }

    /// A frequency of `value` billionths of a hertz.
    pub fn frequency(value: i128) -> (q: Quantity)
        ensures
            q == (Quantity { value, unit: frequency_unit() }),
    {
        Quantity { value, unit: Unit::frequency() }
    }
}

} // verus!
