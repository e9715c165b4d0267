use stem_material::fixed_point::{absolute, divide, multiply, SCALE};
use stem_material::quantity::{Quantity, Unit};

fn exponents(unit: dyn_quantity::Unit) -> Unit {
    Unit {
        second: unit.second,
        meter: unit.meter,
        kilogram: unit.kilogram,
        ampere: unit.ampere,
        kelvin: unit.kelvin,
        mol: unit.mol,
        candela: unit.candela,
    }
}

#[test]
fn units_are_those_of_dyn_quantity() {
    assert_eq!(
        Unit::magnetic_field_strength(),
        exponents(dyn_quantity::PredefUnit::MagneticFieldStrength.into())
    );
    assert_eq!(
        Unit::magnetic_flux_density(),
        exponents(dyn_quantity::PredefUnit::MagneticFluxDensity.into())
    );
    assert_eq!(
        Unit::frequency(),
        exponents(dyn_quantity::PredefUnit::Frequency.into())
    );
}

#[test]
fn units_have_the_documented_exponents() {
    let unit = Unit::magnetic_field_strength();
    assert_eq!(
        [unit.second, unit.meter, unit.kilogram, unit.ampere, unit.kelvin, unit.mol, unit.candela],
        [0, -1, 0, 1, 0, 0, 0]
    );
    let unit = Unit::magnetic_flux_density();
    assert_eq!(
        [unit.second, unit.meter, unit.kilogram, unit.ampere, unit.kelvin, unit.mol, unit.candela],
        [-2, 0, 1, -1, 0, 0, 0]
    );
    let unit = Unit::frequency();
    assert_eq!(
        [unit.second, unit.meter, unit.kilogram, unit.ampere, unit.kelvin, unit.mol, unit.candela],
        [-1, 0, 0, 0, 0, 0, 0]
    );
    assert_ne!(Unit::magnetic_field_strength(), Unit::magnetic_flux_density());
    assert_ne!(Unit::magnetic_flux_density(), Unit::frequency());
}

#[test]
fn quantities_carry_their_unit() {
    assert_eq!(
        Quantity::magnetic_field_strength(5),
        Quantity {
            value: 5,
            unit: Unit::magnetic_field_strength()
        }
    );
    assert_eq!(Quantity::magnetic_flux_density(-7).value, -7);
    assert_eq!(
        Quantity::magnetic_flux_density(-7).unit,
        Unit::magnetic_flux_density()
    );
    assert_eq!(Quantity::frequency(9).unit, Unit::frequency());
}

#[test]
fn fixed_point_rounds_towards_zero() {
    assert_eq!(SCALE, 1_000_000_000);
    assert_eq!(divide(7, 2), 3);
    assert_eq!(divide(-7, 2), -3);
    assert_eq!(divide(0, 5), 0);
    assert_eq!(multiply(1_500_000_000, 2_000_000_000), 3_000_000_000);
    assert_eq!(multiply(1, 999_999_999), 0);
    assert_eq!(multiply(-1, 999_999_999), 0);
    assert_eq!(multiply(-3, 1_999_999_999), -5);
    assert_eq!(absolute(-5), 5);
    assert_eq!(absolute(5), 5);
    assert_eq!(absolute(0), 0);
    assert_eq!(absolute(i128::MIN), i128::MAX);
    assert_eq!(absolute(i128::MIN + 1), i128::MAX);
}
