use akima_spline::AkimaSpline;
use stem_material::quantity::Quantity;
use stem_material::relative_permeability::{
    sample_bh_curve, FerromagneticPermeability, MagnetizationCurve, PolarizationCurve,
    SplineChoice, CHANGE_TOLERANCE,
};
use stem_material::spline::{BuildError, Slope, SplineData};

const VACUUM_PERMEABILITY_UNITLESS: f64 = 4.0 * std::f64::consts::PI * 1e-7;

fn to_fixed(value: f64) -> i128 {
    (value * 1e9).round() as i128
}

fn to_float(value: i128) -> f64 {
    value as f64 / 1e9
}

fn slope(slope: Slope) -> f64 {
    slope.rise as f64 / slope.run as f64
}

fn build(data: &SplineData) -> Result<AkimaSpline, akima_spline::BuildError> {
    AkimaSpline::new(
        data.xs.iter().map(|x| to_float(*x)).collect(),
        data.ys.iter().map(|y| to_float(*y)).collect(),
        Some(vec![slope(data.extrapl)]),
        Some(vec![slope(data.extrapr)]),
    )
}

/// How the building of a spline ended, as the library takes it.
fn outcome(built: &Result<AkimaSpline, akima_spline::BuildError>) -> Result<(), BuildError> {
    match built {
        Ok(_) => Ok(()),
        Err(akima_spline::BuildError::MinFivePointsNeeded) => Err(BuildError::MinFivePointsNeeded),
        Err(akima_spline::BuildError::InequalSliceLength { xs_len, ys_len }) => {
            Err(BuildError::InequalSliceLength {
                xs_len: *xs_len,
                ys_len: *ys_len,
            })
        }
        Err(akima_spline::BuildError::XsNotStrictlyMonotonicIncreasing) => {
            Err(BuildError::XsNotStrictlyMonotonicIncreasing)
        }
    }
}

fn assert_close(value: f64, expected: f64, epsilon: f64) {
    assert!(
        (value - expected).abs() <= epsilon,
        "{value} is not within {epsilon} of {expected}"
    );
}

fn reference_field_strength() -> Vec<f64> {
    vec![
        0.0, 11.57, 22.11, 31.71, 40.47, 48.50, 55.29, 64.02, 75.66, 89.24, 107.67, 134.83, 179.45,
        276.45, 582.98, 1583.11, 3578.65, 6665.91, 11303.32, 18871.00, 29765.16, 45905.16,
        69372.42, 102918.79, 150142.01, 215692.99, 219224.15,
    ]
}

fn reference_flux_density() -> Vec<f64> {
    vec![
        0.0, 0.0970, 0.1940, 0.2910, 0.3880, 0.4851, 0.5821, 0.6791, 0.7761, 0.8731, 0.9701,
        1.0672, 1.1642, 1.2614, 1.3588, 1.4571, 1.5566, 1.6576, 1.7606, 1.8674, 1.9674, 2.0674,
        2.1674, 2.2674, 2.3674, 2.4674, 2.4720,
    ]
}

fn fixed(values: &[f64]) -> Vec<i128> {
    values.iter().map(|value| to_fixed(*value)).collect()
}

/// Evaluates the spline through the measured points at the sample positions.
fn probe(curve: &MagnetizationCurve) -> Result<Vec<i128>, BuildError> {
    assert!(curve.is_within_limits());
    let bh_curve = build(&curve.bh_spline());
    outcome(&bh_curve)?;
    let bh_curve = bh_curve.expect("the spline was built");
    Ok(curve
        .sample_positions()
        .iter()
        .map(|h| to_fixed(bh_curve.eval_infallible(to_float(*h))))
        .collect())
}

struct Splines {
    model: FerromagneticPermeability,
    from_field_strength: AkimaSpline,
    from_flux_density: AkimaSpline,
}

impl Splines {
    fn new(model: FerromagneticPermeability) -> Self {
        let from_field_strength = build(&model.from_field_strength);
        let from_flux_density = build(&model.from_flux_density);
        let model = model
            .built(outcome(&from_field_strength), outcome(&from_flux_density))
            .unwrap();
        Splines {
            model,
            from_field_strength: from_field_strength.expect("the spline was built"),
            from_flux_density: from_flux_density.expect("the spline was built"),
        }
    }

    fn call(&self, conditions: &[Quantity]) -> f64 {
        let query = self.model.call(&conditions.to_vec());
        let spline = match query.spline {
            SplineChoice::FromFieldStrength => &self.from_field_strength,
            SplineChoice::FromFluxDensity => &self.from_flux_density,
        };
        let interpolated = spline.eval_infallible(to_float(query.at));
        to_float(query.finish(to_fixed(interpolated)))
    }
}

fn from_magnetization(field_strength: &[f64], flux_density: &[f64], fill: f64) -> Splines {
    let curve =
        MagnetizationCurve::new(fixed(field_strength), fixed(flux_density), to_fixed(fill))
            .unwrap();
    let values = probe(&curve);
    Splines::new(FerromagneticPermeability::from_magnetization(curve, values).unwrap())
}

fn flux_density(value: f64) -> Quantity {
    Quantity::magnetic_flux_density(to_fixed(value))
}

#[test]
fn test_sample_bh_curve() {
    let curve = MagnetizationCurve::new(
        fixed(&reference_field_strength()),
        fixed(&reference_flux_density()),
        to_fixed(1.0),
    )
    .unwrap();
    let values = probe(&curve).unwrap();
    assert_eq!(CHANGE_TOLERANCE, to_fixed(0.02));

    let (h, b) = sample_bh_curve(&values, to_fixed(0.02));

    let len = 300;
    assert_eq!(h.len(), len);
    assert_eq!(b.len(), len);

    // Field strength
    assert_close(to_float(h[0]), 0.0, 0.001);
    assert_close(to_float(h[1]), 10.0, 0.001);
    assert_close(to_float(h[2]), 20.0, 0.001);
    assert_close(to_float(h[50]), 580.0, 0.001);
    assert_close(to_float(h[150]), 7040.0, 0.001);
    assert_close(to_float(h[299]), 217110.0, 0.001);

    // Flux density
    assert_close(to_float(b[0]), 0.0, 0.001);
    assert_close(to_float(b[1]), 0.08142, 0.001);
    assert_close(to_float(b[2]), 0.17399, 0.001);
    assert_close(to_float(b[50]), 1.35845, 0.001);
    assert_close(to_float(b[150]), 1.66712, 0.001);
    assert_close(to_float(b[299]), 2.46926, 0.001);
}

#[test]
fn test_relative_permeability() {
    let permeability =
        from_magnetization(&reference_field_strength(), &reference_flux_density(), 1.0);

    assert_close(permeability.call(&[flux_density(0.5)]), 8469.282, 0.001);
    assert_close(permeability.call(&[flux_density(0.9)]), 7647.7276, 0.001);
    assert_close(permeability.call(&[flux_density(1.0)]), 6924.8432, 0.001);
    assert_close(permeability.call(&[flux_density(10.0)]), 8.4290, 0.001);
    assert_close(permeability.call(&[flux_density(90.0)]), 1.8254, 0.001);
    assert_close(permeability.call(&[flux_density(100.0)]), 1.0, 0.001);

    // Negative flux densities
    assert_close(permeability.call(&[flux_density(-0.5)]), 8469.282, 0.001);
    assert_close(permeability.call(&[flux_density(-10.0)]), 8.4290, 0.001);
    assert_close(permeability.call(&[flux_density(-100.0)]), 1.0, 0.001);
}

#[test]
fn test_relative_permeability_iron_fill_factor() {
    let permeability =
        from_magnetization(&reference_field_strength(), &reference_flux_density(), 0.95);

    assert_close(permeability.call(&[flux_density(0.5)]), 8045.868, 0.001);
    assert_close(permeability.call(&[flux_density(0.9)]), 6974.4999, 0.001);
    assert_close(permeability.call(&[flux_density(1.0)]), 6129.6062, 0.001);
    assert_close(permeability.call(&[flux_density(10.0)]), 8.0496, 0.001);
    assert_close(permeability.call(&[flux_density(90.0)]), 1.7833, 0.001);
    assert_close(permeability.call(&[flux_density(100.0)]), 1.0, 0.001);

    // Negative flux densities
    assert_close(
        permeability.call(&[flux_density(0.5)]),
        permeability.call(&[flux_density(-0.5)]),
        0.001,
    );
    assert_close(
        permeability.call(&[flux_density(10.0)]),
        permeability.call(&[flux_density(-10.0)]),
        0.001,
    );
}

#[test]
fn test_permeability_curve_without_iron_fill_factor() {
    let field_strength = reference_field_strength();
    let mut flux_density = reference_flux_density();

    for (bi, hi) in flux_density.iter_mut().zip(field_strength.iter()) {
        *bi = *bi * 0.95 + (1.0 - 0.95) * *hi * VACUUM_PERMEABILITY_UNITLESS;
    }

    // Create permeability characteristic
    let fp = from_magnetization(&field_strength, &flux_density, 1.0);

    assert_close(fp.from_flux_density.eval(0.5).unwrap(), 8045.868, 0.001);
    assert_close(fp.from_flux_density.eval(0.9).unwrap(), 6974.4999, 0.001);
    assert_close(fp.from_flux_density.eval(1.0).unwrap(), 6129.6062, 0.001);
    assert_close(fp.from_flux_density.eval(10.0).unwrap(), 8.0057, 0.001);
    assert_close(fp.from_flux_density.eval(90.0).unwrap(), 1.7784, 0.001);
    assert_close(fp.from_flux_density.eval(100.0).unwrap(), 1.0, 0.001);

    // Recreate the B(H) curve from the permeability curve
    assert_close(
        fp.from_field_strength.eval(field_strength[1]).unwrap(),
        8045.868,
        0.001,
    );
    assert_close(
        fp.from_field_strength.eval(field_strength[5]).unwrap(),
        8045.868,
        0.001,
    );
    assert_close(
        fp.from_field_strength.eval(field_strength[10]).unwrap(),
        flux_density[10] / VACUUM_PERMEABILITY_UNITLESS / field_strength[10],
        1.0,
    );
    assert_close(
        fp.from_field_strength.eval(field_strength[15]).unwrap(),
        flux_density[15] / VACUUM_PERMEABILITY_UNITLESS / field_strength[15],
        0.02,
    );
    assert_close(
        fp.from_field_strength.eval(field_strength[20]).unwrap(),
        flux_density[20] / VACUUM_PERMEABILITY_UNITLESS / field_strength[20],
        0.02,
    );
    assert_close(
        fp.from_field_strength.eval(field_strength[26]).unwrap(),
        8.6002,
        0.02,
    );
}

#[test]
fn test_monotonic_decreasing() {
    let fp = from_magnetization(&reference_field_strength(), &reference_flux_density(), 1.0);

    // Check the mu(H) curve
    let mut permeability = 10000.0;
    for idx in 0..300 {
        let field_strength = idx as f64 * 100.0;
        let mu_eval = fp.from_field_strength.eval(field_strength).unwrap();
        assert!(mu_eval <= permeability);
        permeability = mu_eval;
    }

    // Check the mu(B) curve
    let mut permeability = 10000.0;
    for idx in 0..300 {
        let flux_density = idx as f64 / 100.0;
        let mu_eval = fp.from_flux_density.eval(flux_density).unwrap();
        assert!(mu_eval <= permeability);
        permeability = mu_eval;
    }
}

#[test]
fn test_bh_curve_reconstruction() {
    let field_strength = reference_field_strength();
    let flux_density = reference_flux_density();
    let fp = from_magnetization(&field_strength, &flux_density, 1.0);

    // Check some values from the B(H) curve given above
    assert_close(
        fp.from_field_strength.eval(field_strength[10]).unwrap()
            * VACUUM_PERMEABILITY_UNITLESS
            * field_strength[10],
        flux_density[10],
        0.02,
    );
    assert_close(
        fp.from_field_strength.eval(field_strength[20]).unwrap()
            * VACUUM_PERMEABILITY_UNITLESS
            * field_strength[20],
        flux_density[20],
        0.02,
    );

    // Recreate the B(H) curve from the mu(H) curve and check if it is strictly
    // monotonically increasing
    let mut flux_density = 0.0;
    for idx in 0..300 {
        let field_strength = idx as f64 * 10.0;
        let b_eval = fp.from_field_strength.eval(field_strength).unwrap()
            * VACUUM_PERMEABILITY_UNITLESS
            * field_strength;
        assert!(b_eval >= flux_density);
        flux_density = b_eval;
    }
}

#[test]
fn test_bh_curve_reconstruction_from_polarization() {
    let field_strength = reference_field_strength();
    let flux_density = reference_flux_density();

    // Convert to polarization
    let polarization: Vec<f64> = flux_density
        .iter()
        .zip(field_strength.iter())
        .map(|(b, h)| {
            return *b - *h * VACUUM_PERMEABILITY_UNITLESS;
        })
        .collect();

    let curve =
        PolarizationCurve::new(fixed(&field_strength), fixed(&polarization), to_fixed(1.0))
            .unwrap();
    assert!(curve.is_within_limits());
    let values = probe(&curve.into_magnetization());
    let fp = Splines::new(
        FerromagneticPermeability::from_polarization(
            PolarizationCurve::new(fixed(&field_strength), fixed(&polarization), to_fixed(1.0))
                .unwrap(),
            values,
        )
        .unwrap(),
    );

    // Check some values from the B(H) curve given above
    assert_close(
        fp.from_flux_density.eval(flux_density[10]).unwrap()
            * VACUUM_PERMEABILITY_UNITLESS
            * field_strength[10],
        flux_density[10],
        0.02,
    );
    assert_close(
        fp.from_field_strength.eval(field_strength[10]).unwrap()
            * VACUUM_PERMEABILITY_UNITLESS
            * field_strength[10],
        flux_density[10],
        0.02,
    );
    assert_close(
        fp.from_field_strength.eval(field_strength[20]).unwrap()
            * VACUUM_PERMEABILITY_UNITLESS
            * field_strength[20],
        flux_density[20],
        0.02,
    );

    // Recreate the B(H) curve from the mu(H) curve and check if it is strictly
    // monotonically increasing
    let mut flux_density = 0.0;
    for idx in 0..300 {
        let field_strength = idx as f64 * 10.0;
        let b_eval = fp.from_field_strength.eval(field_strength).unwrap()
            * VACUUM_PERMEABILITY_UNITLESS
            * field_strength;
        assert!(b_eval >= flux_density);
        flux_density = b_eval;
    }
}

#[test]
fn test_permeability_curve_with_iron_fill_factor() {
    let fp = from_magnetization(&reference_field_strength(), &reference_flux_density(), 0.95);

    assert_close(fp.from_flux_density.eval(1.0).unwrap(), 6129.606, 0.001);
    assert_close(fp.from_flux_density.eval(10.0).unwrap(), 8.049, 0.001);
    assert_close(fp.from_flux_density.eval(90.0).unwrap(), 1.783, 0.001);
}

#[test]
fn permeability_never_falls_below_one() {
    let permeability =
        from_magnetization(&reference_field_strength(), &reference_flux_density(), 1.0);
    // Beyond saturation the spline falls below 1, the permeability does not.
    assert!(permeability.from_flux_density.eval_infallible(150.0) < 1.0);
    for b in [100.0, 100.5, 150.0, 1000.0, -150.0, -1e4] {
        assert_eq!(permeability.call(&[flux_density(b)]), 1.0);
    }
    for h in [1e8, -1e8, 5e8] {
        assert_eq!(
            permeability.call(&[Quantity::magnetic_field_strength(to_fixed(h))]),
            1.0
        );
    }
    for idx in 0..2000 {
        let b = (idx as f64 - 1000.0) / 5.0;
        assert!(permeability.call(&[flux_density(b)]) >= 1.0);
        assert_eq!(
            permeability.call(&[flux_density(b)]),
            permeability.call(&[flux_density(-b)])
        );
        let h = Quantity::magnetic_field_strength(to_fixed(b * 1000.0));
        let minus_h = Quantity::magnetic_field_strength(to_fixed(-b * 1000.0));
        assert!(permeability.call(&[h]) >= 1.0);
        assert_eq!(permeability.call(&[h]), permeability.call(&[minus_h]));
    }
}
