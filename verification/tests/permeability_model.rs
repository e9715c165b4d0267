use akima_spline::AkimaSpline;
use stem_material::quantity::{Quantity, Unit};
use stem_material::relative_permeability::curve::{
    are_within, flux_density_in_vacuum, FIELD_STRENGTH_LIMIT, FLUX_DENSITY_LIMIT,
    VACUUM_PERMEABILITY_DENOMINATOR, VACUUM_PERMEABILITY_NUMERATOR,
};
use stem_material::relative_permeability::query::find_first_with_unit;
use stem_material::relative_permeability::sampling::{
    is_tolerance_exceeded, largest_of, positions_to_sample, SAMPLE_STEP_WIDTH,
};
use stem_material::relative_permeability::{
    sample_bh_curve, FerromagneticPermeability, FieldStrengthOrFluxDensity, InvalidInputData,
    Lookup, MagnetizationCurve, PolarizationCurve, RelativePermeability, SplineChoice,
    SplineQuery,
};
use stem_material::spline::{BuildError, Slope, SplineData};

const SCALE: i128 = 1_000_000_000;

fn scaled(values: &[i128]) -> Vec<i128> {
    values.iter().map(|value| value * SCALE).collect()
}

#[test]
fn magnetization_curve_is_validated() {
    assert!(MagnetizationCurve::new(scaled(&[100, 150]), vec![500_000_000, 600_000_000], 950_000_000).is_ok());
    assert!(MagnetizationCurve::new(vec![], vec![], 0).is_ok());
    assert!(MagnetizationCurve::new(vec![], vec![], SCALE).is_ok());

    // Unequal vector length
    assert_eq!(
        MagnetizationCurve::new(scaled(&[100]), vec![500_000_000, 600_000_000], 950_000_000)
            .unwrap_err(),
        InvalidInputData::IneqNumElementsFluxDensity {
            field_strength: 1,
            flux_density: 2
        }
    );

    // Invalid iron fill factor
    assert_eq!(
        MagnetizationCurve::new(scaled(&[100, 150]), vec![500_000_000, 600_000_000], 1_100_000_000)
            .unwrap_err(),
        InvalidInputData::IronFillFactor(1_100_000_000)
    );
    assert_eq!(
        MagnetizationCurve::new(vec![], vec![], -1).unwrap_err(),
        InvalidInputData::IronFillFactor(-1)
    );
    assert_eq!(
        MagnetizationCurve::new(vec![], vec![], SCALE + 1).unwrap_err(),
        InvalidInputData::IronFillFactor(SCALE + 1)
    );
    // The fill factor is looked at first.
    assert_eq!(
        MagnetizationCurve::new(vec![1], vec![], 2 * SCALE).unwrap_err(),
        InvalidInputData::IronFillFactor(2 * SCALE)
    );
}

#[test]
fn polarization_curve_is_validated() {
    assert!(PolarizationCurve::new(scaled(&[100, 150]), vec![500_000_000, 600_000_000], 950_000_000).is_ok());
    assert_eq!(
        PolarizationCurve::new(scaled(&[100]), vec![500_000_000, 600_000_000], 950_000_000)
            .unwrap_err(),
        InvalidInputData::IneqNumElementsPolarization {
            field_strength: 1,
            polarization: 2
        }
    );
    assert_eq!(
        PolarizationCurve::new(scaled(&[100, 150]), vec![500_000_000, 600_000_000], 1_100_000_000)
            .unwrap_err(),
        InvalidInputData::IronFillFactor(1_100_000_000)
    );
}

#[test]
fn curve_gives_back_what_it_was_made_of() {
    let curve = MagnetizationCurve::new(vec![1, 2, 3], vec![4, 5, 6], 7).unwrap();
    assert_eq!(curve.field_strength(), &vec![1, 2, 3]);
    assert_eq!(curve.flux_density(), &vec![4, 5, 6]);
    assert_eq!(curve.iron_fill_factor(), 7);
    let copy = curve.clone();
    assert_eq!(copy.field_strength(), curve.field_strength());
    assert_eq!(copy.flux_density(), curve.flux_density());
    assert_eq!(copy.iron_fill_factor(), 7);
}

#[test]
fn limits_are_told() {
    assert!(are_within(&vec![], 0));
    assert!(are_within(&vec![5, -5, 0], 5));
    assert!(!are_within(&vec![5, -6, 0], 5));
    assert!(!are_within(&vec![0, 0, 6], 5));
    let at_limit =
        MagnetizationCurve::new(vec![FIELD_STRENGTH_LIMIT], vec![-FLUX_DENSITY_LIMIT], SCALE)
            .unwrap();
    assert!(at_limit.is_within_limits());
    let beyond =
        MagnetizationCurve::new(vec![FIELD_STRENGTH_LIMIT + 1], vec![0], SCALE).unwrap();
    assert!(!beyond.is_within_limits());
    let beyond = MagnetizationCurve::new(vec![0], vec![FLUX_DENSITY_LIMIT + 1], SCALE).unwrap();
    assert!(!beyond.is_within_limits());
    let beyond = PolarizationCurve::new(vec![0], vec![-FLUX_DENSITY_LIMIT - 1], SCALE).unwrap();
    assert!(!beyond.is_within_limits());
}

#[test]
fn vacuum_permeability_is_four_pi_tenth_of_a_millionth() {
    let ratio = VACUUM_PERMEABILITY_NUMERATOR as f64 / VACUUM_PERMEABILITY_DENOMINATOR as f64;
    let exact = 4.0 * std::f64::consts::PI * 1e-7;
    assert!((ratio / exact - 1.0).abs() < 1e-10);
    // 1 A/m causes 1256.637... nT in vacuum, cut off to a whole number.
    assert_eq!(flux_density_in_vacuum(SCALE), 1256);
    assert_eq!(flux_density_in_vacuum(-SCALE), -1256);
    assert_eq!(flux_density_in_vacuum(1_000_000 * SCALE), 1_256_637_061);
    assert_eq!(flux_density_in_vacuum(0), 0);
}

#[test]
fn polarization_becomes_flux_density() {
    let curve = PolarizationCurve::new(
        vec![0, SCALE, 1_000_000 * SCALE, -SCALE],
        vec![5, 10, -20, 30],
        500_000_000,
    )
    .unwrap();
    let magnetization = curve.into_magnetization();
    assert_eq!(
        magnetization.field_strength(),
        &vec![0, SCALE, 1_000_000 * SCALE, -SCALE]
    );
    assert_eq!(
        magnetization.flux_density(),
        &vec![5, 10 + 1256, -20 + 1_256_637_061, 30 - 1256]
    );
    assert_eq!(magnetization.iron_fill_factor(), 500_000_000);
}

#[test]
fn sample_positions_end_below_the_largest_field_strength() {
    assert_eq!(largest_of(&vec![3]), 3);
    assert_eq!(largest_of(&vec![3, 9, -1, 9, 2]), 9);
    assert_eq!(largest_of(&vec![-3, -9]), -3);

    assert_eq!(SAMPLE_STEP_WIDTH, 10 * SCALE);
    // The first step is probed whatever the curve.
    assert_eq!(positions_to_sample(&vec![0]), scaled(&[10]));
    assert_eq!(positions_to_sample(&vec![-5 * SCALE]), scaled(&[10]));
    assert_eq!(positions_to_sample(&scaled(&[0, 10])), scaled(&[10]));
    assert_eq!(positions_to_sample(&vec![20 * SCALE - 1]), scaled(&[10]));
    // A later step is probed unless it exceeds the largest field strength.
    assert_eq!(positions_to_sample(&scaled(&[0, 20])), scaled(&[10, 20]));
    assert_eq!(positions_to_sample(&vec![20 * SCALE + 1]), scaled(&[10, 20]));
    assert_eq!(positions_to_sample(&vec![30 * SCALE - 1]), scaled(&[10, 20]));
    assert_eq!(positions_to_sample(&scaled(&[30])), scaled(&[10, 20, 30]));
    assert_eq!(
        positions_to_sample(&scaled(&[0, 45, 30])),
        scaled(&[10, 20, 30, 40])
    );
    assert_eq!(
        positions_to_sample(&scaled(&[50, 0])),
        scaled(&[10, 20, 30, 40, 50])
    );
    let positions = positions_to_sample(&vec![FIELD_STRENGTH_LIMIT]);
    assert_eq!(positions.len(), 100_000);
    assert_eq!(positions[99_999], FIELD_STRENGTH_LIMIT);

    let curve = MagnetizationCurve::new(scaled(&[0, 45, 30]), vec![0, 1, 2], SCALE).unwrap();
    assert_eq!(curve.sample_positions(), scaled(&[10, 20, 30, 40]));
}

#[test]
fn tolerance_is_compared_without_rounding() {
    let tolerance = 20_000_000;
    // B/H falls from 1/10 to 98/1000: by exactly 2 %, which is not more.
    assert!(!is_tolerance_exceeded(10, 1_000, 1_000, 98_000, tolerance));
    // One step further it is more than 2 %.
    assert!(is_tolerance_exceeded(10, 1_000, 1_000, 97_999, tolerance));
    // A rise counts as a fall does.
    assert!(!is_tolerance_exceeded(10, 1_000, 1_000, 102_000, tolerance));
    assert!(is_tolerance_exceeded(10, 1_000, 1_000, 102_001, tolerance));
    // No change at all.
    assert!(!is_tolerance_exceeded(10, 1_000, 20, 2_000, tolerance));
    assert!(!is_tolerance_exceeded(10, 1_000, 20, 2_000, 0));
    assert!(is_tolerance_exceeded(10, 1_000, 20, 2_001, 0));
    // From a permeability of zero every other permeability is a change.
    assert!(is_tolerance_exceeded(10, 0, 20, 1, tolerance));
    assert!(is_tolerance_exceeded(10, 0, 20, -1, tolerance));
    assert!(!is_tolerance_exceeded(10, 0, 20, 0, tolerance));
    // Relative to a negative permeability no change is above the tolerance.
    assert!(!is_tolerance_exceeded(10, -1_000, 20, 5_000, tolerance));
    assert!(!is_tolerance_exceeded(10, -1_000, 20, -2_000, tolerance));
}

#[test]
fn sampling_retains_the_start_and_what_changes() {
    // A straight line through the origin: the permeability never changes.
    let line: Vec<i128> = (1..=50).map(|i| i * 1_000_000).collect();
    let (h, b) = sample_bh_curve(&line, 20_000_000);
    assert_eq!(h, vec![0, 10 * SCALE]);
    assert_eq!(b, vec![0, 1_000_000]);

    // With no tolerance every change is retained.
    let curve = vec![1_000, 2_000, 2_999, 3_999, 5_000];
    let (h, b) = sample_bh_curve(&curve, 0);
    // 2_999 / 30 differs from 1_000 / 10, 3_999 / 40 differs from
    // 2_999 / 30, 5_000 / 50 differs from 3_999 / 40.
    assert_eq!(h, scaled(&[0, 10, 30, 40, 50]));
    assert_eq!(b, vec![0, 1_000, 2_999, 3_999, 5_000]);

    // The change is taken from the point that was retained last, not from
    // the point before: 1 % and again 1 % make more than 2 % together.
    let curve = vec![100_000, 198_000, 294_000, 388_080];
    let (h, b) = sample_bh_curve(&curve, 20_000_000);
    // 198_000 / 20 is 1 % below 100_000 / 10, 294_000 / 30 is 2 % below:
    // neither is more than 2 %. 388_080 / 40 = 9702 is 2.98 % below.
    assert_eq!(h, scaled(&[0, 10, 40]));
    assert_eq!(b, vec![0, 100_000, 388_080]);

    // A single probed point is retained.
    let (h, b) = sample_bh_curve(&vec![-7], 20_000_000);
    assert_eq!(h, scaled(&[0, 10]));
    assert_eq!(b, vec![0, -7]);
}

/// The flux density at which the secant permeability at `field_strength`
/// A/m is `permeability`.
fn flux_density_for(permeability: i128, field_strength: i128) -> i128 {
    permeability * field_strength * SCALE * VACUUM_PERMEABILITY_NUMERATOR
        / VACUUM_PERMEABILITY_DENOMINATOR
}

/// Flux densities at 10, 20, ..., 90 A/m of a curve whose permeability
/// falls by a tenth from each to the next.
fn falling_values() -> Vec<i128> {
    [900, 810, 729, 656, 590, 531, 478, 430, 387]
        .iter()
        .enumerate()
        .map(|(i, mu)| flux_density_for(*mu, 10 * (i as i128 + 1)))
        .collect()
}

/// How the spline crate fares with the data.
fn outcome(data: &SplineData) -> Result<(), BuildError> {
    let built = AkimaSpline::new(
        data.xs.iter().map(|x| *x as f64 / 1e9).collect(),
        data.ys.iter().map(|y| *y as f64 / 1e9).collect(),
        Some(vec![data.extrapl.rise as f64 / data.extrapl.run as f64]),
        Some(vec![data.extrapr.rise as f64 / data.extrapr.run as f64]),
    );
    match built {
        Ok(_) => Ok(()),
        Err(akima_spline::BuildError::MinFivePointsNeeded) => Err(BuildError::MinFivePointsNeeded),
        Err(akima_spline::BuildError::InequalSliceLength { xs_len, ys_len }) => {
            Err(BuildError::InequalSliceLength { xs_len, ys_len })
        }
        Err(akima_spline::BuildError::XsNotStrictlyMonotonicIncreasing) => {
            Err(BuildError::XsNotStrictlyMonotonicIncreasing)
        }
    }
}

/// Makes the model of a curve measured at `raw_field_strength` A/m, of
/// which `values` were probed, as a caller does who builds the splines.
fn model_from(
    raw_field_strength: &[i128],
    values: &[i128],
    fill: i128,
) -> Result<FerromagneticPermeability, InvalidInputData> {
    let raw_flux_density: Vec<i128> = (0..raw_field_strength.len() as i128).collect();
    let curve = MagnetizationCurve::new(scaled(raw_field_strength), raw_flux_density, fill).unwrap();
    assert!(curve.is_within_limits());
    let probed = outcome(&curve.bh_spline()).map(|_| values.to_vec());
    let data = FerromagneticPermeability::from_magnetization(curve, probed)?;
    let from_field_strength = outcome(&data.from_field_strength);
    let from_flux_density = outcome(&data.from_flux_density);
    data.built(from_field_strength, from_flux_density)
}

#[test]
fn model_starts_at_the_largest_permeability_and_falls() {
    // Permeabilities at 10, 20, ..., 90 A/m. The largest is the third, the
    // sixth and the eighth are below their successors.
    let permeability = [500, 800, 1000, 900, 850, 800, 830, 760, 780];
    let values: Vec<i128> = permeability
        .iter()
        .enumerate()
        .map(|(i, mu)| flux_density_for(*mu, 10 * (i as i128 + 1)))
        .collect();
    let model = model_from(&[0, 20, 40, 60, 95], &values, SCALE).unwrap();

    assert_eq!(model.from_field_strength.xs, scaled(&[30, 40, 50, 60, 70, 80, 90]));
    assert_eq!(model.from_flux_density.xs, values[2..].to_vec());
    let ys: Vec<f64> = model
        .from_field_strength
        .ys
        .iter()
        .map(|mu| *mu as f64 / 1e9)
        .collect();
    // From the end: 760 is below 780 and has only one successor: it takes
    // the value of the last. 830 stays. 800 is below 830 and becomes
    // 830 + (830 - 780) = 880. 850 is below 880 and becomes
    // 880 + (880 - 830) = 930. 900 is below 930 and becomes 930 + 50 = 980.
    // 1000 is not below 980 and stays.
    let expected = [1000.0, 980.0, 930.0, 880.0, 830.0, 780.0, 780.0];
    assert_eq!(ys.len(), expected.len());
    for (mu, expected) in ys.iter().zip(expected.iter()) {
        assert!((mu - expected).abs() < 1e-3, "{mu} is not {expected}");
    }
    assert_eq!(model.from_flux_density.ys, model.from_field_strength.ys);

    // Both splines are flat to the left and head for the permeability 1 at
    // 100 T to the right.
    let last = *model.from_field_strength.ys.last().unwrap();
    let saturation_field_strength =
        100 * SCALE * VACUUM_PERMEABILITY_DENOMINATOR / VACUUM_PERMEABILITY_NUMERATOR;
    assert_eq!(saturation_field_strength, 79_577_471_548_222_157);
    assert_eq!(model.from_field_strength.extrapl, Slope { rise: 0, run: 1 });
    assert_eq!(model.from_flux_density.extrapl, Slope { rise: 0, run: 1 });
    assert_eq!(
        model.from_field_strength.extrapr,
        Slope {
            rise: SCALE - last,
            run: saturation_field_strength - 90 * SCALE
        }
    );
    assert_eq!(
        model.from_flux_density.extrapr,
        Slope {
            rise: SCALE - last,
            run: 100 * SCALE - values[8]
        }
    );
    assert_eq!(outcome(&model.from_field_strength), Ok(()));
    assert_eq!(outcome(&model.from_flux_density), Ok(()));

    let copy = model.clone();
    assert_eq!(copy.from_field_strength.xs, model.from_field_strength.xs);
    assert_eq!(copy.from_flux_density.ys, model.from_flux_density.ys);
    assert_eq!(copy.from_flux_density.extrapr, model.from_flux_density.extrapr);
}

#[test]
fn fill_factor_mixes_iron_and_vacuum() {
    // With the fill factor 0 only vacuum is left: the permeability is 1.
    let values: Vec<i128> = (1..=9).map(|i| flux_density_for(1000, 10 * i)).collect();
    let model = model_from(&[0, 20, 40, 60, 95], &values, 0);
    // All permeabilities are equal, up to what is cut off: the first of
    // the largest is the start, and too few knots may be left.
    match model {
        Ok(model) => {
            for mu in model.from_flux_density.ys.iter() {
                assert!((*mu - SCALE).abs() <= 1_000_000, "{mu}");
            }
        }
        Err(error) => {
            assert_eq!(error, InvalidInputData::AkimaBuildError(BuildError::MinFivePointsNeeded));
        }
    }

    // With the fill factor 1/2 the flux density is the mean of the two.
    let values = falling_values();
    let model = model_from(&[0, 20, 40, 60, 95], &values, SCALE / 2).unwrap();
    assert_eq!(model.from_field_strength.xs, scaled(&[10, 20, 30, 40, 50, 60, 70, 80, 90]));
    for (i, b) in model.from_flux_density.xs.iter().enumerate() {
        let h = 10 * (i as i128 + 1) * SCALE;
        let expected = (values[i] * SCALE / 2 + (SCALE / 2) * flux_density_in_vacuum(h)) / SCALE;
        assert_eq!(*b, expected);
    }
    // (900 + 1) / 2 = 450.5
    let first = model.from_flux_density.ys[0] as f64 / 1e9;
    assert!((first - 450.5).abs() < 1e-3, "{first}");
}

#[test]
fn spline_failures_are_errors() {
    let values = falling_values();

    // Fewer than five measured points.
    assert_eq!(
        model_from(&[0, 20, 40, 95], &values, SCALE).unwrap_err(),
        InvalidInputData::AkimaBuildError(BuildError::MinFivePointsNeeded)
    );
    assert_eq!(
        model_from(&[], &[], SCALE).unwrap_err(),
        InvalidInputData::AkimaBuildError(BuildError::MinFivePointsNeeded)
    );
    // Measured field strengths that do not ascend.
    assert_eq!(
        model_from(&[0, 20, 20, 60, 95], &values, SCALE).unwrap_err(),
        InvalidInputData::AkimaBuildError(BuildError::XsNotStrictlyMonotonicIncreasing)
    );
    let curve = MagnetizationCurve::new(scaled(&[0, 20, 10, 60, 95]), vec![0; 5], SCALE).unwrap();
    assert_eq!(
        outcome(&curve.bh_spline()),
        Err(BuildError::XsNotStrictlyMonotonicIncreasing)
    );

    // The largest permeability is so far to the right that fewer than five
    // knots are left.
    let rising: Vec<i128> = (1..=9).map(|i| flux_density_for(100 * i, 10 * i)).collect();
    assert_eq!(
        model_from(&[0, 20, 40, 60, 95], &rising, SCALE).unwrap_err(),
        InvalidInputData::AkimaBuildError(BuildError::MinFivePointsNeeded)
    );

    // Flux densities that do not ascend from knot to knot.
    let mut falling = falling_values();
    falling[7] = falling[6];
    assert_eq!(
        model_from(&[0, 20, 40, 60, 95], &falling, SCALE).unwrap_err(),
        InvalidInputData::AkimaBuildError(BuildError::XsNotStrictlyMonotonicIncreasing)
    );
}

#[test]
fn measured_curve_is_a_spline_with_the_slope_of_vacuum() {
    let curve = MagnetizationCurve::new(scaled(&[0, 20, 40, 60, 95]), vec![0, 1, 2, 3, 4], SCALE).unwrap();
    let spline = curve.bh_spline();
    assert_eq!(spline.xs, scaled(&[0, 20, 40, 60, 95]));
    assert_eq!(spline.ys, vec![0, 1, 2, 3, 4]);
    let vacuum = Slope {
        rise: VACUUM_PERMEABILITY_NUMERATOR,
        run: VACUUM_PERMEABILITY_DENOMINATOR,
    };
    assert_eq!(spline.extrapl, vacuum);
    assert_eq!(spline.extrapr, vacuum);
    let copy = spline.clone();
    assert_eq!(copy.xs, spline.xs);
    assert_eq!(copy.ys, spline.ys);
    assert_eq!(copy.extrapl, spline.extrapl);
}

fn some_model() -> FerromagneticPermeability {
    let values = falling_values();
    model_from(&[0, 20, 40, 60, 95], &values, SCALE).unwrap()
}

fn kelvin(value: i128) -> Quantity {
    Quantity {
        value,
        unit: Unit {
            second: 0,
            meter: 0,
            kilogram: 0,
            ampere: 0,
            kelvin: 1,
            mol: 0,
            candela: 0,
        },
    }
}

#[test]
fn query_names_the_spline_and_the_magnitude() {
    let model = some_model();
    let floored = |spline, at| SplineQuery {
        spline,
        at,
        floored: true,
    };
    assert_eq!(
        model.get(FieldStrengthOrFluxDensity::FieldStrength(-5)),
        floored(SplineChoice::FromFieldStrength, 5)
    );
    assert_eq!(
        model.get(FieldStrengthOrFluxDensity::FieldStrength(5)),
        floored(SplineChoice::FromFieldStrength, 5)
    );
    assert_eq!(
        model.get(FieldStrengthOrFluxDensity::FluxDensity(-7)),
        floored(SplineChoice::FromFluxDensity, 7)
    );
    assert_eq!(
        model.get(FieldStrengthOrFluxDensity::FluxDensity(0)),
        floored(SplineChoice::FromFluxDensity, 0)
    );
    assert_eq!(
        model.get(FieldStrengthOrFluxDensity::FluxDensity(i128::MIN)),
        floored(SplineChoice::FromFluxDensity, i128::MAX)
    );

    // Conditions: the first flux density, else the first field strength.
    let h = Quantity::magnetic_field_strength;
    let b = Quantity::magnetic_flux_density;
    assert_eq!(
        model.call(&vec![kelvin(3), h(-11), h(12)]),
        floored(SplineChoice::FromFieldStrength, 11)
    );
    assert_eq!(
        model.call(&vec![h(-11), kelvin(3), b(-13), b(14)]),
        floored(SplineChoice::FromFluxDensity, 13)
    );
    assert_eq!(
        model.call(&vec![b(-13), h(-11)]),
        floored(SplineChoice::FromFluxDensity, 13)
    );
    // Neither: the spline over the flux density at zero, as it is.
    let fallback = SplineQuery {
        spline: SplineChoice::FromFluxDensity,
        at: 0,
        floored: false,
    };
    assert_eq!(model.call(&vec![]), fallback);
    assert_eq!(model.call(&vec![kelvin(3), Quantity::frequency(50)]), fallback);

    assert_eq!(find_first_with_unit(&vec![h(1), b(2), h(3)], Unit::magnetic_field_strength()), Some(1));
    assert_eq!(find_first_with_unit(&vec![h(1), b(2), b(3)], Unit::magnetic_flux_density()), Some(2));
    assert_eq!(find_first_with_unit(&vec![h(1), b(2)], Unit::frequency()), None);

    assert_eq!(
        model.spline(SplineChoice::FromFieldStrength).xs,
        model.from_field_strength.xs
    );
    assert_eq!(
        model.spline(SplineChoice::FromFluxDensity).xs,
        model.from_flux_density.xs
    );
}

#[test]
fn floor_raises_what_is_below_one() {
    let floored = SplineQuery {
        spline: SplineChoice::FromFluxDensity,
        at: 0,
        floored: true,
    };
    assert_eq!(floored.finish(SCALE - 1), SCALE);
    assert_eq!(floored.finish(SCALE), SCALE);
    assert_eq!(floored.finish(SCALE + 1), SCALE + 1);
    assert_eq!(floored.finish(-5 * SCALE), SCALE);
    assert_eq!(floored.finish(i128::MIN), SCALE);
    assert_eq!(floored.finish(i128::MAX), i128::MAX);
    let plain = SplineQuery {
        spline: SplineChoice::FromFluxDensity,
        at: 0,
        floored: false,
    };
    assert_eq!(plain.finish(SCALE - 1), SCALE - 1);
    assert_eq!(plain.finish(-5), -5);
}

#[test]
fn relative_permeability_is_a_constant_a_model_or_a_function() {
    let conditions = vec![Quantity::magnetic_flux_density(-13)];
    let constant: RelativePermeability<u8> = RelativePermeability::Constant(42 * SCALE);
    assert_eq!(constant.get(&conditions), Lookup::Value(42 * SCALE));
    assert!(constant.function().is_none());

    let model: RelativePermeability<u8> =
        RelativePermeability::FerromagneticPermeability(some_model());
    assert_eq!(
        model.get(&conditions),
        Lookup::Spline(SplineQuery {
            spline: SplineChoice::FromFluxDensity,
            at: 13,
            floored: true
        })
    );
    assert!(model.function().is_none());

    let function: RelativePermeability<u8> = RelativePermeability::Function(7);
    assert_eq!(function.get(&conditions), Lookup::Function);
    assert_eq!(function.function(), Some(&7));
}

#[test]
fn fill_factor_equals_the_corrected_curve() {
    // Correcting the probed curve by hand and taking the fill factor 1
    // gives the same model as the fill factor itself, where the same points
    // are retained.
    let fill = 950_000_000;
    let values = falling_values();
    let corrected: Vec<i128> = values
        .iter()
        .enumerate()
        .map(|(i, b)| {
            let h = 10 * (i as i128 + 1) * SCALE;
            (b * fill + (SCALE - fill) * flux_density_in_vacuum(h)) / SCALE
        })
        .collect();
    let with_factor = model_from(&[0, 20, 40, 60, 95], &values, fill).unwrap();
    let without = model_from(&[0, 20, 40, 60, 95], &corrected, SCALE).unwrap();
    assert_eq!(with_factor.from_field_strength.xs, without.from_field_strength.xs);
    assert_eq!(with_factor.from_field_strength.ys, without.from_field_strength.ys);
    assert_eq!(with_factor.from_field_strength.extrapr, without.from_field_strength.extrapr);
    assert_eq!(with_factor.from_flux_density.xs, without.from_flux_density.xs);
    assert_eq!(with_factor.from_flux_density.ys, without.from_flux_density.ys);
    assert_eq!(with_factor.from_flux_density.extrapr, without.from_flux_density.extrapr);
    assert_eq!(with_factor.from_flux_density.xs, corrected);

    // The permeabilities at the knots fall.
    for pair in with_factor.from_flux_density.ys.windows(2) {
        assert!(pair[0] >= pair[1]);
    }
}

#[test]
fn model_is_made_only_of_what_is_accepted() {
    let curve = |h: &[i128]| {
        MagnetizationCurve::new(scaled(h), (0..h.len() as i128).collect(), SCALE).unwrap()
    };
    let values = falling_values();
    let made = FerromagneticPermeability::try_from_magnetization(
        curve(&[0, 20, 40, 60, 95]),
        Ok(values.clone()),
    );
    assert!(made.unwrap().is_ok());

    // One probed flux density too few, and one too many.
    assert!(FerromagneticPermeability::try_from_magnetization(
        curve(&[0, 20, 40, 60, 95]),
        Ok(values[..8].to_vec())
    )
    .is_none());
    let mut longer = values.clone();
    longer.push(*values.last().unwrap() + 1);
    assert!(FerromagneticPermeability::try_from_magnetization(
        curve(&[0, 20, 40, 60, 95]),
        Ok(longer)
    )
    .is_none());

    // A probed flux density beyond its limit.
    let mut beyond = values.clone();
    beyond[3] = FLUX_DENSITY_LIMIT + 1;
    assert!(FerromagneticPermeability::try_from_magnetization(
        curve(&[0, 20, 40, 60, 95]),
        Ok(beyond)
    )
    .is_none());

    // A measured field strength beyond its limit, and no measured point.
    assert!(FerromagneticPermeability::try_from_magnetization(
        curve(&[0, 20, 40, 60, 1_000_001]),
        Ok(values.clone())
    )
    .is_none());
    assert!(
        FerromagneticPermeability::try_from_magnetization(curve(&[]), Ok(vec![0])).is_none()
    );

    // Where no spline could be built through the measured points, that is
    // the error, whatever the curve.
    for h in [&[0, 20, 40, 95][..], &[0, 20, 40, 60, 1_000_001][..]] {
        let made = FerromagneticPermeability::try_from_magnetization(
            curve(h),
            Err(BuildError::MinFivePointsNeeded),
        );
        assert_eq!(
            made.unwrap().unwrap_err(),
            InvalidInputData::AkimaBuildError(BuildError::MinFivePointsNeeded)
        );
    }
}

#[test]
fn failed_splines_are_reported_field_strength_first() {
    let data = || some_model();
    assert!(data().built(Ok(()), Ok(())).is_ok());
    assert_eq!(
        data()
            .built(
                Err(BuildError::MinFivePointsNeeded),
                Err(BuildError::XsNotStrictlyMonotonicIncreasing)
            )
            .unwrap_err(),
        InvalidInputData::AkimaBuildError(BuildError::MinFivePointsNeeded)
    );
    assert_eq!(
        data()
            .built(Ok(()), Err(BuildError::XsNotStrictlyMonotonicIncreasing))
            .unwrap_err(),
        InvalidInputData::AkimaBuildError(BuildError::XsNotStrictlyMonotonicIncreasing)
    );
    assert_eq!(
        data()
            .built(
                Err(BuildError::InequalSliceLength {
                    xs_len: 6,
                    ys_len: 5
                }),
                Ok(())
            )
            .unwrap_err(),
        InvalidInputData::AkimaBuildError(BuildError::InequalSliceLength {
            xs_len: 6,
            ys_len: 5
        })
    );
}

#[test]
fn last_knot_does_not_rise() {
    // Permeabilities 100, 90, 80, 70, 75 at 10, ..., 50 A/m: the last is
    // above the one before it, which takes its value.
    let values: Vec<i128> = [100, 90, 80, 70, 75]
        .iter()
        .enumerate()
        .map(|(i, mu)| flux_density_for(*mu, 10 * (i as i128 + 1)))
        .collect();
    let model = model_from(&[0, 20, 30, 40, 55], &values, SCALE).unwrap();
    let ys: Vec<i128> = model
        .from_flux_density
        .ys
        .iter()
        .map(|mu| (*mu + SCALE / 2) / SCALE)
        .collect();
    assert_eq!(ys, vec![100, 90, 80, 75, 75]);
    assert_eq!(model.from_field_strength.ys, model.from_flux_density.ys);
    for pair in model.from_flux_density.ys.windows(2) {
        assert!(pair[0] >= pair[1]);
    }
}

#[test]
fn largest_field_strength_is_probed_where_it_is_a_step() {
    // The largest measured field strength is 50 A/m: the curve is probed
    // there, and the point is retained.
    let values: Vec<i128> = [100, 90, 80, 70, 60]
        .iter()
        .enumerate()
        .map(|(i, mu)| flux_density_for(*mu, 10 * (i as i128 + 1)))
        .collect();
    let curve = MagnetizationCurve::new(scaled(&[0, 20, 30, 40, 50]), vec![0, 1, 2, 3, 4], SCALE)
        .unwrap();
    assert_eq!(curve.sample_positions(), scaled(&[10, 20, 30, 40, 50]));
    let (h, _) = sample_bh_curve(&values, 20_000_000);
    assert_eq!(h.last(), Some(&(50 * SCALE)));
    let model = model_from(&[0, 20, 30, 40, 50], &values, SCALE).unwrap();
    assert_eq!(model.from_field_strength.xs.last(), Some(&(50 * SCALE)));
}

