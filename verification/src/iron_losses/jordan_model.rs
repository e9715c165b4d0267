//! The Jordan model of the iron losses in a core lamination.
//!
//! For a flux density that changes sinusoidally with the frequency `f` and
//! the amplitude `B`, the model splits the specific losses into a part that
//! grows with the frequency and a part that grows with its square:
//!
//! `p = kh · (f / f0) · (B / B0)² + kec · (f / f0)² · (B / B0)²`,
//!
//! with the hysteresis coefficient `kh`, the eddy current coefficient `kec`,
//! the reference frequency `f0` = 50 Hz and the reference flux density
//! `B0` = 1.5 T, see [`loss_equation`].
//!
//! A [`JordanModel`] holds two coefficients. They are known, or they are
//! fitted to the measured loss curves of an [`IronLossData`]: the cost of a
//! pair of coefficients is the sum of the squared differences between the
//! measured losses and those of the loss equation, see
//! [`FitLossCurve::cost`], and the fit is the pair with the least cost.
//! The minimization is stated by
//! [`IronLossData::solve_for_coefficients`] and run by the caller;
//! [`JordanModel::from_best_param`] makes the model from its outcome.

use crate::fixed_point::{
    divide, lemma_magnitude_of_product, lemma_product_bound, lemma_product_not_negative,
    lemma_product_of_negations, lemma_product_unit, lemma_quotient_bound,
    lemma_quotient_of_multiple, lemma_quotient_sign, lemma_quotients_of_multiples,
    lemma_ratio_odd, magnitude, multiply, product, ratio, SCALE,
};
use crate::quantity::{frequency_unit, magnetic_flux_density_unit, Quantity, Unit};
use vstd::prelude::*;

verus! {

/// The frequency by which frequencies are divided in the loss equation:
/// 50 Hz.
pub const REFERENCE_FREQUENCY: i128 = 50_000_000_000;

/// The flux density by which flux densities are divided in the loss
/// equation: 1.5 T.
pub const REFERENCE_FLUX_DENSITY: i128 = 1_500_000_000;

/// Largest magnitude of a flux density that the loss equation accepts:
/// 10⁴ T. Beyond the limits of the loss equation its products do not fit
/// into the numbers of this crate.
pub const LOSS_FLUX_DENSITY_LIMIT: i128 = 10_000_000_000_000;

/// Largest magnitude of a frequency that the loss equation accepts:
/// 100 kHz.
pub const FREQUENCY_LIMIT: i128 = 100_000_000_000_000;

/// Largest magnitude of a coefficient that the loss equation accepts:
/// 10⁴ W/kg.
pub const COEFFICIENT_LIMIT: i128 = 10_000_000_000_000;

/// Largest magnitude of a specific loss that the loss equation gives within
/// its limits.
pub const LOSS_LIMIT: i128 = 2_000_000_000_000_000_000_000_000_000;

/// Largest magnitude of a flux density that the cost function of the fit
/// accepts in a sample: 10 T. The cost function squares the difference
/// between a measured loss and a loss of the loss equation; its limits are
/// narrower than those of the loss equation so that the square fits.
pub const SAMPLE_FLUX_DENSITY_LIMIT: i128 = 10_000_000_000;

/// Largest magnitude of a frequency that the cost function accepts in a
/// sample: 10 kHz.
pub const SAMPLE_FREQUENCY_LIMIT: i128 = 10_000_000_000_000;

/// Largest magnitude of a coefficient that the cost function accepts:
/// 1000 W/kg.
pub const FIT_COEFFICIENT_LIMIT: i128 = 1_000_000_000_000;

/// Largest magnitude of a measured specific loss that the cost function
/// accepts: 10⁹ W/kg.
pub const SPECIFIC_LOSS_LIMIT: i128 = 1_000_000_000_000_000_000;

/// Largest magnitude of a specific loss that the loss equation gives within
/// the limits of the cost function.
pub const FIT_LOSS_LIMIT: i128 = 2_000_000_000_000_000_000;

/// The square `(B / B0)²` of a flux density, taken relative to the
/// reference flux density.
pub open spec fn relative_flux_density_squared(flux_density: int) -> int {
    let relative = ratio(flux_density, REFERENCE_FLUX_DENSITY as int);
    product(relative, relative)
}

/// A frequency relative to the reference frequency, `f / f0`.
pub open spec fn relative_frequency(frequency: int) -> int {
    ratio(frequency, REFERENCE_FREQUENCY as int)
}

/// The loss equation
/// `kh · (f / f0) · (B / B0)² + kec · (f / f0)² · (B / B0)²`
/// with the hysteresis coefficient `kh` and the eddy current coefficient
/// `kec`. Each product is rounded as it is taken, from left to right.
pub open spec fn loss_equation(
    flux_density: int,
    frequency: int,
    hysteresis_coefficient: int,
    eddy_current_coefficient: int,
) -> int {
    let f = relative_frequency(frequency);
    let b2 = relative_flux_density_squared(flux_density);
    product(product(hysteresis_coefficient, f), b2) + product(
        product(eddy_current_coefficient, product(f, f)),
        b2,
    )
}

/// Whether the loss equation accepts the flux density and the frequency.
pub open spec fn conditions_within_limits(flux_density: int, frequency: int) -> bool {
    &&& magnitude(flux_density) <= LOSS_FLUX_DENSITY_LIMIT
    &&& magnitude(frequency) <= FREQUENCY_LIMIT
}

/// Whether the loss equation accepts the two coefficients.
pub open spec fn coefficients_within_limits(first: int, second: int) -> bool {
    &&& magnitude(first) <= COEFFICIENT_LIMIT
    &&& magnitude(second) <= COEFFICIENT_LIMIT
}

/// Tells whether the loss equation accepts the flux density and the
/// frequency.
pub fn are_conditions_within_limits(flux_density: i128, frequency: i128) -> (within: bool)
    ensures
        within == conditions_within_limits(flux_density as int, frequency as int),
{
    -LOSS_FLUX_DENSITY_LIMIT <= flux_density && flux_density <= LOSS_FLUX_DENSITY_LIMIT
        && -FREQUENCY_LIMIT <= frequency && frequency <= FREQUENCY_LIMIT
}

/// Tells whether the loss equation accepts the two coefficients.
pub fn are_coefficients_within_limits(first: i128, second: i128) -> (within: bool)
    ensures
        within == coefficients_within_limits(first as int, second as int),
{
    -COEFFICIENT_LIMIT <= first && first <= COEFFICIENT_LIMIT && -COEFFICIENT_LIMIT <= second
        && second <= COEFFICIENT_LIMIT
}

/// Whether the cost function accepts the flux density and the frequency.
pub open spec fn fit_accepts_conditions(flux_density: int, frequency: int) -> bool {
    &&& magnitude(flux_density) <= SAMPLE_FLUX_DENSITY_LIMIT
    &&& magnitude(frequency) <= SAMPLE_FREQUENCY_LIMIT
}

/// Whether the cost function accepts the two coefficients.
pub open spec fn fit_accepts_coefficients(first: int, second: int) -> bool {
    &&& magnitude(first) <= FIT_COEFFICIENT_LIMIT
    &&& magnitude(second) <= FIT_COEFFICIENT_LIMIT
}

/// Tells whether the cost function accepts the flux density and the
/// frequency.
pub fn does_fit_accept_conditions(flux_density: i128, frequency: i128) -> (within: bool)
    ensures
        within == fit_accepts_conditions(flux_density as int, frequency as int),
{
    -SAMPLE_FLUX_DENSITY_LIMIT <= flux_density && flux_density <= SAMPLE_FLUX_DENSITY_LIMIT
        && -SAMPLE_FREQUENCY_LIMIT <= frequency && frequency <= SAMPLE_FREQUENCY_LIMIT
}

/// Tells whether the cost function accepts the two coefficients.
pub fn does_fit_accept_coefficients(first: i128, second: i128) -> (within: bool)
    ensures
        within == fit_accepts_coefficients(first as int, second as int),
{
    -FIT_COEFFICIENT_LIMIT <= first && first <= FIT_COEFFICIENT_LIMIT && -FIT_COEFFICIENT_LIMIT
        <= second && second <= FIT_COEFFICIENT_LIMIT
}

/// A fixed-point product stays below the product of bounds on its factors,
/// divided by the scale.
proof fn lemma_fixed_product_bound(a: int, b: int, bound_a: int, bound_b: int, bound: int)
    requires
        magnitude(a) <= bound_a,
        magnitude(b) <= bound_b,
        bound_a * bound_b <= bound * SCALE,
    ensures
        magnitude(a * b) <= bound_a * bound_b,
        magnitude(product(a, b)) <= bound,
{
    lemma_product_bound(a, b, bound_a, bound_b);
    lemma_quotient_bound(a * b, SCALE as int, bound);
}

/// Within its limits the loss equation gives a loss below [`LOSS_LIMIT`].
pub proof fn lemma_loss_equation_bound(
    flux_density: int,
    frequency: int,
    hysteresis_coefficient: int,
    eddy_current_coefficient: int,
)
    requires
        conditions_within_limits(flux_density, frequency),
        coefficients_within_limits(hysteresis_coefficient, eddy_current_coefficient),
    ensures
        magnitude(
            loss_equation(
                flux_density,
                frequency,
                hysteresis_coefficient,
                eddy_current_coefficient,
            ),
        ) <= LOSS_LIMIT,
{
    lemma_loss_terms_bound(flux_density, frequency, hysteresis_coefficient);
    lemma_loss_terms_bound(flux_density, frequency, eddy_current_coefficient);
}

/// The bounds of the intermediate results of the loss equation.
proof fn lemma_loss_terms_bound(flux_density: int, frequency: int, coefficient: int)
    requires
        conditions_within_limits(flux_density, frequency),
        magnitude(coefficient) <= COEFFICIENT_LIMIT,
    ensures
        ({
            let f = relative_frequency(frequency);
            let b = ratio(flux_density, REFERENCE_FLUX_DENSITY as int);
            let b2 = relative_flux_density_squared(flux_density);
            &&& magnitude(frequency * SCALE) <= FREQUENCY_LIMIT * SCALE
            &&& magnitude(flux_density * SCALE) <= LOSS_FLUX_DENSITY_LIMIT * SCALE
            &&& magnitude(f) <= 2_000 * SCALE
            &&& magnitude(b) <= 7_000 * SCALE
            &&& magnitude(b * b) <= 49_000_000 * SCALE * SCALE
            &&& magnitude(b2) <= 49_000_000 * SCALE
            &&& magnitude(f * f) <= 4_000_000 * SCALE * SCALE
            &&& magnitude(product(f, f)) <= 4_000_000 * SCALE
            &&& magnitude(coefficient * f) <= 20_000_000 * SCALE * SCALE
            &&& magnitude(product(coefficient, f)) <= 20_000_000 * SCALE
            &&& magnitude(product(coefficient, f) * b2) <= 980_000_000_000_000 * SCALE * SCALE
            &&& magnitude(product(product(coefficient, f), b2)) <= 980_000_000_000_000 * SCALE
            &&& magnitude(coefficient * product(f, f)) <= 40_000_000_000 * SCALE * SCALE
            &&& magnitude(product(coefficient, product(f, f))) <= 40_000_000_000 * SCALE
            &&& magnitude(product(coefficient, product(f, f)) * b2)
                <= 1_960_000_000_000_000_000 * SCALE * SCALE
            &&& magnitude(product(product(coefficient, product(f, f)), b2))
                <= 1_960_000_000_000_000_000 * SCALE
        }),
{
    let f = relative_frequency(frequency);
    let b = ratio(flux_density, REFERENCE_FLUX_DENSITY as int);
    let b2 = relative_flux_density_squared(flux_density);
    lemma_product_bound(frequency, SCALE as int, FREQUENCY_LIMIT as int, SCALE as int);
    lemma_quotient_bound(frequency * SCALE, REFERENCE_FREQUENCY as int, 2_000 * SCALE);
    lemma_product_bound(flux_density, SCALE as int, LOSS_FLUX_DENSITY_LIMIT as int, SCALE as int);
    lemma_quotient_bound(flux_density * SCALE, REFERENCE_FLUX_DENSITY as int, 7_000 * SCALE);
    lemma_fixed_product_bound(b, b, 7_000 * SCALE, 7_000 * SCALE, 49_000_000 * SCALE);
    lemma_fixed_product_bound(f, f, 2_000 * SCALE, 2_000 * SCALE, 4_000_000 * SCALE);
    lemma_fixed_product_bound(
        coefficient,
        f,
        COEFFICIENT_LIMIT as int,
        2_000 * SCALE,
        20_000_000 * SCALE,
    );
    lemma_fixed_product_bound(
        product(coefficient, f),
        b2,
        20_000_000 * SCALE,
        49_000_000 * SCALE,
        980_000_000_000_000 * SCALE,
    );
    lemma_fixed_product_bound(
        coefficient,
        product(f, f),
        COEFFICIENT_LIMIT as int,
        4_000_000 * SCALE,
        40_000_000_000 * SCALE,
    );
    lemma_fixed_product_bound(
        product(coefficient, product(f, f)),
        b2,
        40_000_000_000 * SCALE,
        49_000_000 * SCALE,
        1_960_000_000_000_000_000 * SCALE,
    );
}

/// Within the limits of the cost function the loss equation gives a loss
/// below [`FIT_LOSS_LIMIT`].
pub proof fn lemma_fit_loss_bound(
    flux_density: int,
    frequency: int,
    hysteresis_coefficient: int,
    eddy_current_coefficient: int,
)
    requires
        fit_accepts_conditions(flux_density, frequency),
        fit_accepts_coefficients(hysteresis_coefficient, eddy_current_coefficient),
    ensures
        magnitude(
            loss_equation(
                flux_density,
                frequency,
                hysteresis_coefficient,
                eddy_current_coefficient,
            ),
        ) <= FIT_LOSS_LIMIT,
{
    lemma_fit_terms_bound(flux_density, frequency, hysteresis_coefficient);
    lemma_fit_terms_bound(flux_density, frequency, eddy_current_coefficient);
}

/// The bounds of the intermediate results of the loss equation within the
/// limits of the cost function.
proof fn lemma_fit_terms_bound(flux_density: int, frequency: int, coefficient: int)
    requires
        fit_accepts_conditions(flux_density, frequency),
        magnitude(coefficient) <= FIT_COEFFICIENT_LIMIT,
    ensures
        ({
            let f = relative_frequency(frequency);
            let b = ratio(flux_density, REFERENCE_FLUX_DENSITY as int);
            let b2 = relative_flux_density_squared(flux_density);
            &&& magnitude(frequency * SCALE) <= SAMPLE_FREQUENCY_LIMIT * SCALE
            &&& magnitude(flux_density * SCALE) <= SAMPLE_FLUX_DENSITY_LIMIT * SCALE
            &&& magnitude(f) <= 200 * SCALE
            &&& magnitude(b) <= 7 * SCALE
            &&& magnitude(b * b) <= 49 * SCALE * SCALE
            &&& magnitude(b2) <= 49 * SCALE
            &&& magnitude(f * f) <= 40_000 * SCALE * SCALE
            &&& magnitude(product(f, f)) <= 40_000 * SCALE
            &&& magnitude(coefficient * f) <= 200_000 * SCALE * SCALE
            &&& magnitude(product(coefficient, f)) <= 200_000 * SCALE
            &&& magnitude(product(coefficient, f) * b2) <= 9_800_000 * SCALE * SCALE
            &&& magnitude(product(product(coefficient, f), b2)) <= 9_800_000 * SCALE
            &&& magnitude(coefficient * product(f, f)) <= 40_000_000 * SCALE * SCALE
            &&& magnitude(product(coefficient, product(f, f))) <= 40_000_000 * SCALE
            &&& magnitude(product(coefficient, product(f, f)) * b2) <= 1_960_000_000 * SCALE
                * SCALE
            &&& magnitude(product(product(coefficient, product(f, f)), b2)) <= 1_960_000_000
                * SCALE
        }),
{
    let f = relative_frequency(frequency);
    let b = ratio(flux_density, REFERENCE_FLUX_DENSITY as int);
    let b2 = relative_flux_density_squared(flux_density);
    lemma_product_bound(frequency, SCALE as int, SAMPLE_FREQUENCY_LIMIT as int, SCALE as int);
    lemma_quotient_bound(frequency * SCALE, REFERENCE_FREQUENCY as int, 200 * SCALE);
    lemma_product_bound(flux_density, SCALE as int, SAMPLE_FLUX_DENSITY_LIMIT as int, SCALE as int);
    lemma_quotient_bound(flux_density * SCALE, REFERENCE_FLUX_DENSITY as int, 7 * SCALE);
    lemma_fixed_product_bound(b, b, 7 * SCALE, 7 * SCALE, 49 * SCALE);
    lemma_fixed_product_bound(f, f, 200 * SCALE, 200 * SCALE, 40_000 * SCALE);
    lemma_fixed_product_bound(
        coefficient,
        f,
        FIT_COEFFICIENT_LIMIT as int,
        200 * SCALE,
        200_000 * SCALE,
    );
    lemma_fixed_product_bound(
        product(coefficient, f),
        b2,
        200_000 * SCALE,
        49 * SCALE,
        9_800_000 * SCALE,
    );
    lemma_fixed_product_bound(
        coefficient,
        product(f, f),
        FIT_COEFFICIENT_LIMIT as int,
        40_000 * SCALE,
        40_000_000 * SCALE,
    );
    lemma_fixed_product_bound(
        product(coefficient, product(f, f)),
        b2,
        40_000_000 * SCALE,
        49 * SCALE,
        1_960_000_000 * SCALE,
    );
}

/// Evaluates the loss equation.
pub fn losses(
    flux_density: i128,
    frequency: i128,
    hysteresis_coefficient: i128,
    eddy_current_coefficient: i128,
) -> (loss: i128)
    requires
        conditions_within_limits(flux_density as int, frequency as int),
        coefficients_within_limits(hysteresis_coefficient as int, eddy_current_coefficient as int),
    ensures
        loss == loss_equation(
            flux_density as int,
            frequency as int,
            hysteresis_coefficient as int,
            eddy_current_coefficient as int,
        ),
        magnitude(loss as int) <= LOSS_LIMIT,
{
    proof {
        lemma_loss_terms_bound(
            flux_density as int,
            frequency as int,
            hysteresis_coefficient as int,
        );
        lemma_loss_terms_bound(
            flux_density as int,
            frequency as int,
            eddy_current_coefficient as int,
        );
    }
    let f: i128 = divide(frequency * SCALE, REFERENCE_FREQUENCY);
    let b: i128 = divide(flux_density * SCALE, REFERENCE_FLUX_DENSITY);
    let b2: i128 = multiply(b, b);
    let f2: i128 = multiply(f, f);
    let linear: i128 = multiply(multiply(hysteresis_coefficient, f), b2);
    let quadratic: i128 = multiply(multiply(eddy_current_coefficient, f2), b2);
    linear + quadratic
}

/// The two coefficients of the Jordan model, in W/kg.
///
/// A model is either made from known coefficients or fitted to measured
/// loss curves, see [`IronLossData`].
#[derive(Clone, Copy, Debug, PartialEq, Eq, Structural)]
pub struct JordanModel {
    /// Static hysteresis loss coefficient `kh`.
    pub hysteresis_coefficient: i128,
    /// Dynamic eddy current loss coefficient `kec`.
    pub eddy_current_coefficient: i128,
}

/// The value of the last of `conditions` that has the unit `unit`, or zero
/// where none has it.
pub open spec fn last_with_unit(conditions: Seq<Quantity>, unit: Unit) -> i128
    decreases conditions.len(),
{
    if conditions.len() == 0 {
        0
    } else if conditions.last().unit == unit {
        conditions.last().value
    } else {
        last_with_unit(conditions.drop_last(), unit)
    }
}

/// Finds the value of the last of `conditions` that has the unit `unit`.
pub fn find_last_with_unit(conditions: &Vec<Quantity>, unit: Unit) -> (value: i128)
    ensures
        value == last_with_unit(conditions@, unit),
{
    let mut value: i128 = 0;
    let mut i: usize = 0;
    assert(conditions@.subrange(0, 0) =~= Seq::<Quantity>::empty());
    while i < conditions.len()
        invariant
            i <= conditions.len(),
            value == last_with_unit(conditions@.subrange(0, i as int), unit),
        decreases conditions.len() - i,
    {
        assert(conditions@.subrange(0, i + 1).drop_last() =~= conditions@.subrange(0, i as int));
        if conditions[i].unit == unit {
            value = conditions[i].value;
        }
        i += 1;
    }
    assert(conditions@.subrange(0, i as int) =~= conditions@);
    value
}

impl JordanModel {
    /// The specific losses that the model gives for a flux density and a
    /// frequency: the loss equation with the coefficients of the model.
    pub open spec fn losses_at(self, magnetic_flux_density: int, frequency: int) -> int {
        loss_equation(
            magnetic_flux_density,
            frequency,
            self.hysteresis_coefficient as int,
            self.eddy_current_coefficient as int,
        )
    }

    /// Whether the loss equation accepts the coefficients of the model.
    pub open spec fn within_limits(self) -> bool {
        coefficients_within_limits(
            self.hysteresis_coefficient as int,
            self.eddy_current_coefficient as int,
        )
    }

    /// Makes a model from its coefficients.
    pub fn new(hysteresis_coefficient: i128, eddy_current_coefficient: i128) -> (model: Self)
        ensures
            model == (JordanModel { hysteresis_coefficient, eddy_current_coefficient }),
    {
        JordanModel { hysteresis_coefficient, eddy_current_coefficient }
    }

    /// The frequency of 50 Hz by which frequencies are divided in the loss
    /// equation.
    pub fn reference_frequency() -> (frequency: i128)
        ensures
            frequency == REFERENCE_FREQUENCY,
            frequency == 50 * SCALE,
    {
        REFERENCE_FREQUENCY
    }

    /// The flux density of 1.5 T by which flux densities are divided in the
    /// loss equation.
    pub fn reference_flux_density() -> (flux_density: i128)
        ensures
            flux_density == REFERENCE_FLUX_DENSITY,
            2 * flux_density == 3 * SCALE,
    {
        REFERENCE_FLUX_DENSITY
    }

    /// The specific losses for a flux density that changes sinusoidally
    /// with the amplitude `magnetic_flux_density` and the frequency
    /// `frequency`.
    pub fn losses(&self, magnetic_flux_density: i128, frequency: i128) -> (loss: i128)
        requires
            self.within_limits(),
            conditions_within_limits(magnetic_flux_density as int, frequency as int),
        ensures
            loss == self.losses_at(magnetic_flux_density as int, frequency as int),
    {
        losses(
            magnetic_flux_density,
            frequency,
            self.hysteresis_coefficient,
            self.eddy_current_coefficient,
        )
    }

    /// Tells whether the loss equation accepts the coefficients of the
    /// model.
    pub fn is_within_limits(&self) -> (within: bool)
        ensures
            within == self.within_limits(),
    {
        are_coefficients_within_limits(self.hysteresis_coefficient, self.eddy_current_coefficient)
    }

    /// The specific losses as [`losses`](Self::losses) gives them, or
    /// nothing where the coefficients, the flux density or the frequency
    /// are beyond the limits of the loss equation.
    pub fn try_losses(&self, magnetic_flux_density: i128, frequency: i128) -> (loss: Option<i128>)
        ensures
            loss is Some <==> self.within_limits() && conditions_within_limits(
                magnetic_flux_density as int,
                frequency as int,
            ),
            loss matches Some(value) ==> value == self.losses_at(
                magnetic_flux_density as int,
                frequency as int,
            ),
    {
        if self.is_within_limits() && are_conditions_within_limits(
            magnetic_flux_density,
            frequency,
        ) {
            Some(self.losses(magnetic_flux_density, frequency))
        } else {
            None
        }
    }

    /// The specific losses as [`call`](Self::call) gives them, or nothing
    /// where the coefficients, the flux density or the frequency are beyond
    /// the limits of the loss equation.
    pub fn try_call(&self, influencing_factors: &Vec<Quantity>) -> (loss: Option<i128>)
        ensures
            loss is Some <==> self.within_limits() && conditions_within_limits(
                last_with_unit(influencing_factors@, magnetic_flux_density_unit()) as int,
                last_with_unit(influencing_factors@, frequency_unit()) as int,
            ),
            loss matches Some(value) ==> value == self.losses_at(
                last_with_unit(influencing_factors@, magnetic_flux_density_unit()) as int,
                last_with_unit(influencing_factors@, frequency_unit()) as int,
            ),
    {
        let flux_density: i128 = find_last_with_unit(
            influencing_factors,
            Unit::magnetic_flux_density(),
        );
        let frequency: i128 = find_last_with_unit(influencing_factors, Unit::frequency());
        self.try_losses(flux_density, frequency)
    }

    /// The specific losses under the conditions `influencing_factors`: at
    /// the last flux density and the last frequency among them, each taken
    /// as zero where there is none.
    pub fn call(&self, influencing_factors: &Vec<Quantity>) -> (loss: i128)
        requires
            self.within_limits(),
            conditions_within_limits(
                last_with_unit(influencing_factors@, magnetic_flux_density_unit()) as int,
                last_with_unit(influencing_factors@, frequency_unit()) as int,
            ),
        ensures
            loss == self.losses_at(
                last_with_unit(influencing_factors@, magnetic_flux_density_unit()) as int,
                last_with_unit(influencing_factors@, frequency_unit()) as int,
            ),
    {
        let flux_density: i128 = find_last_with_unit(
            influencing_factors,
            Unit::magnetic_flux_density(),
        );
        let frequency: i128 = find_last_with_unit(influencing_factors, Unit::frequency());
        self.losses(flux_density, frequency)
    }
}

impl Default for JordanModel {
    fn default() -> (model: Self)
        ensures
            model == (JordanModel { hysteresis_coefficient: 0, eddy_current_coefficient: 0 }),
    {
        JordanModel { hysteresis_coefficient: 0, eddy_current_coefficient: 0 }
    }
}

/// One measured point of a loss curve.
#[derive(Clone, Copy, Debug, PartialEq, Eq, Structural)]
pub struct FluxDensityLossPair {
    /// Amplitude of the flux density.
    pub flux_density: i128,
    /// Specific losses at that amplitude.
    pub specific_loss: i128,
}

impl FluxDensityLossPair {
    /// Makes a point from its two values.
    pub fn new(flux_density: i128, specific_loss: i128) -> (pair: Self)
        ensures
            pair == (FluxDensityLossPair { flux_density, specific_loss }),
    {
        FluxDensityLossPair { flux_density, specific_loss }
    }
}

/// The loss curve of a material at one frequency.
#[derive(Clone, Debug)]
pub struct IronLossCharacteristic {
    /// Frequency at which the curve was measured.
    pub frequency: i128,
    /// The measured points, in any order.
    pub characteristic: Vec<FluxDensityLossPair>,
}

/// The points that the first `count` flux densities and specific losses
/// pair up to.
pub open spec fn paired(flux_densities: Seq<i128>, specific_losses: Seq<i128>, count: nat) -> Seq<
    FluxDensityLossPair,
> {
    Seq::new(
        count,
        |i: int|
            FluxDensityLossPair {
                flux_density: flux_densities[i],
                specific_loss: specific_losses[i],
            },
    )
}

/// The smaller of two lengths.
pub open spec fn shorter(first: nat, second: nat) -> nat {
    if first <= second {
        first
    } else {
        second
    }
}

impl IronLossCharacteristic {
    /// Makes a loss curve from its frequency and its points.
    pub fn new(frequency: i128, characteristic: Vec<FluxDensityLossPair>) -> (curve: Self)
        ensures
            curve.frequency == frequency,
            curve.characteristic@ == characteristic@,
    {
        IronLossCharacteristic { frequency, characteristic }
    }

    /// Makes a loss curve from its frequency, flux densities and the
    /// specific losses measured at them. Each flux density is paired with
    /// the specific loss at the same index; what the longer of the two
    /// holds beyond the length of the shorter is left out.
    pub fn from_vecs(
        frequency: i128,
        flux_densities: &Vec<i128>,
        specific_losses: &Vec<i128>,
    ) -> (curve: Self)
        ensures
            curve.frequency == frequency,
            curve.characteristic@ == paired(
                flux_densities@,
                specific_losses@,
                shorter(flux_densities@.len(), specific_losses@.len()),
            ),
    {
        let mut characteristic: Vec<FluxDensityLossPair> = Vec::new();
        let mut i: usize = 0;
        while i < flux_densities.len() && i < specific_losses.len()
            invariant
                i <= flux_densities.len(),
                i <= specific_losses.len(),
                characteristic@ == paired(flux_densities@, specific_losses@, i as nat),
            decreases flux_densities.len() - i,
        {
            characteristic.push(FluxDensityLossPair::new(flux_densities[i], specific_losses[i]));
            assert(characteristic@ =~= paired(flux_densities@, specific_losses@, (i + 1) as nat));
            i += 1;
        }
        IronLossCharacteristic::new(frequency, characteristic)
    }
}

/// One measured point together with the frequency of its loss curve.
#[derive(Clone, Copy, Debug, PartialEq, Eq, Structural)]
pub struct LossSample {
    /// Frequency of the loss curve.
    pub frequency: i128,
    /// Amplitude of the flux density.
    pub flux_density: i128,
    /// Specific losses measured.
    pub specific_loss: i128,
}

/// The points of one loss curve, each with the frequency of the curve.
pub open spec fn samples_of(curve: IronLossCharacteristic) -> Seq<LossSample> {
    Seq::new(
        curve.characteristic@.len(),
        |i: int|
            LossSample {
                frequency: curve.frequency,
                flux_density: curve.characteristic@[i].flux_density,
                specific_loss: curve.characteristic@[i].specific_loss,
            },
    )
}

/// The points of all loss curves in one sequence: those of the first
/// curve, then those of the second, and so on.
pub open spec fn flattened(curves: Seq<IronLossCharacteristic>) -> Seq<LossSample>
    decreases curves.len(),
{
    if curves.len() == 0 {
        Seq::empty()
    } else {
        flattened(curves.drop_last()) + samples_of(curves.last())
    }
}

/// All points of an [`IronLossData`], as three sequences of equal length.
/// It is the cost function of the fit.
#[derive(Debug)]
pub struct FitLossCurve {
    frequencies: Vec<i128>,
    flux_densities: Vec<i128>,
    specific_losses: Vec<i128>,
}

impl View for FitLossCurve {
    type V = Seq<LossSample>;

    closed spec fn view(&self) -> Seq<LossSample> {
        Seq::new(
            self.frequencies@.len(),
            |i: int|
                LossSample {
                    frequency: self.frequencies@[i],
                    flux_density: self.flux_densities@[i],
                    specific_loss: self.specific_losses@[i],
                },
        )
    }
}

/// Whether the cost function accepts every one of the samples.
pub open spec fn samples_within_limits(samples: Seq<LossSample>) -> bool {
    forall|i: int|
        0 <= i < samples.len() ==> {
            &&& fit_accepts_conditions(
                (#[trigger] samples[i]).flux_density as int,
                samples[i].frequency as int,
            )
            &&& magnitude(samples[i].specific_loss as int) <= SPECIFIC_LOSS_LIMIT
        }
}

/// Whether every one of the samples is without a frequency or without a
/// flux density. The loss equation gives no losses for such a sample,
/// whatever the coefficients, so that samples of this kind alone decide
/// nothing about the fit; no samples at all decide nothing either.
pub open spec fn without_field(samples: Seq<LossSample>) -> bool {
    forall|i: int|
        0 <= i < samples.len() ==> (#[trigger] samples[i]).flux_density == 0
            || samples[i].frequency == 0
}

/// Largest number of samples that the cost function accepts.
pub const SAMPLE_LIMIT: usize = 1_000_000;

/// The square of the difference between the measured loss of a sample and
/// the loss that the loss equation gives for it with the coefficients
/// `hysteresis_coefficient` for the term that grows with the frequency and
/// `eddy_current_coefficient` for the term that grows with its square.
pub open spec fn squared_residual(
    sample: LossSample,
    hysteresis_coefficient: int,
    eddy_current_coefficient: int,
) -> int {
    let residual = sample.specific_loss - loss_equation(
        sample.flux_density as int,
        sample.frequency as int,
        hysteresis_coefficient,
        eddy_current_coefficient,
    );
    product(residual, residual)
}

/// The sum of the squared residuals of the first `count` samples.
pub open spec fn cost_of(
    samples: Seq<LossSample>,
    hysteresis_coefficient: int,
    eddy_current_coefficient: int,
    count: nat,
) -> int
    decreases count,
{
    if count == 0 {
        0
    } else {
        cost_of(samples, hysteresis_coefficient, eddy_current_coefficient, (count - 1) as nat)
            + squared_residual(samples[count - 1], hysteresis_coefficient, eddy_current_coefficient)
    }
}

/// Largest squared residual of a sample within the limits.
pub const RESIDUAL_LIMIT: i128 = 9_000_000_000_000_000_000_000_000_000;

/// A squared residual is not negative and at most [`RESIDUAL_LIMIT`].
pub proof fn lemma_squared_residual_bound(
    sample: LossSample,
    hysteresis_coefficient: int,
    eddy_current_coefficient: int,
)
    requires
        fit_accepts_conditions(sample.flux_density as int, sample.frequency as int),
        magnitude(sample.specific_loss as int) <= SPECIFIC_LOSS_LIMIT,
        fit_accepts_coefficients(hysteresis_coefficient, eddy_current_coefficient),
    ensures
        0 <= squared_residual(sample, hysteresis_coefficient, eddy_current_coefficient)
            <= RESIDUAL_LIMIT,
        ({
            let residual = sample.specific_loss - loss_equation(
                sample.flux_density as int,
                sample.frequency as int,
                hysteresis_coefficient,
                eddy_current_coefficient,
            );
            magnitude(residual * residual) <= RESIDUAL_LIMIT * SCALE
        }),
{
    lemma_fit_loss_bound(
        sample.flux_density as int,
        sample.frequency as int,
        hysteresis_coefficient,
        eddy_current_coefficient,
    );
    let residual = sample.specific_loss - loss_equation(
        sample.flux_density as int,
        sample.frequency as int,
        hysteresis_coefficient,
        eddy_current_coefficient,
    );
    let limit = SPECIFIC_LOSS_LIMIT + FIT_LOSS_LIMIT;
    lemma_fixed_product_bound(residual, residual, limit, limit, RESIDUAL_LIMIT as int);
    assert(residual * residual >= 0) by (nonlinear_arith);
    assert((residual * residual) / (SCALE as int) >= 0) by (nonlinear_arith)
        requires
            residual * residual >= 0,
    ;
}

/// The cost of samples within the limits is not negative and at most
/// [`RESIDUAL_LIMIT`] for each sample.
pub proof fn lemma_cost_bound(
    samples: Seq<LossSample>,
    hysteresis_coefficient: int,
    eddy_current_coefficient: int,
    count: nat,
)
    requires
        count <= samples.len(),
        samples_within_limits(samples),
        fit_accepts_coefficients(hysteresis_coefficient, eddy_current_coefficient),
    ensures
        0 <= cost_of(samples, hysteresis_coefficient, eddy_current_coefficient, count) <= count
            * RESIDUAL_LIMIT,
    decreases count,
{
    if count > 0 {
        lemma_cost_bound(
            samples,
            hysteresis_coefficient,
            eddy_current_coefficient,
            (count - 1) as nat,
        );
        lemma_squared_residual_bound(
            samples[count - 1],
            hysteresis_coefficient,
            eddy_current_coefficient,
        );
    }
}

impl FitLossCurve {
    #[verifier::type_invariant]
    spec fn well_formed(self) -> bool {
        &&& self.frequencies@.len() == self.flux_densities@.len()
        &&& self.frequencies@.len() == self.specific_losses@.len()
    }

    /// The number of samples.
    pub fn len(&self) -> (count: usize)
        ensures
            count == self@.len(),
    {
        self.frequencies.len()
    }

    /// The sample at `index`.
    pub fn sample(&self, index: usize) -> (sample: LossSample)
        requires
            index < self@.len(),
        ensures
            sample == self@[index as int],
    {
        proof {
            use_type_invariant(self);
        }
        LossSample {
            frequency: self.frequencies[index],
            flux_density: self.flux_densities[index],
            specific_loss: self.specific_losses[index],
        }
    }

    /// Tells whether every sample is without a frequency or without a flux
    /// density.
    pub fn is_without_field(&self) -> (without: bool)
        ensures
            without == without_field(self@),
    {
        proof {
            use_type_invariant(self);
        }
        let mut i: usize = 0;
        while i < self.frequencies.len()
            invariant
                i <= self.frequencies@.len(),
                self.frequencies@.len() == self.flux_densities@.len(),
                self.frequencies@.len() == self.specific_losses@.len(),
                self@.len() == self.frequencies@.len(),
                forall|j: int|
                    0 <= j < i ==> (#[trigger] self@[j]).flux_density == 0 || self@[j].frequency
                        == 0,
            decreases self.frequencies@.len() - i,
        {
            let frequency: i128 = self.frequencies[i];
            let flux_density: i128 = self.flux_densities[i];
            assert(self@[i as int].frequency == frequency);
            assert(self@[i as int].flux_density == flux_density);
            if frequency != 0 && flux_density != 0 {
                return false;
            }
            i += 1;
        }
        true
    }

    /// Tells whether the cost function accepts the samples.
    pub fn is_within_limits(&self) -> (within: bool)
        ensures
            within == (samples_within_limits(self@) && self@.len() <= SAMPLE_LIMIT),
    {
        proof {
            use_type_invariant(self);
        }
        if self.frequencies.len() > SAMPLE_LIMIT {
            return false;
        }
        let mut i: usize = 0;
        while i < self.frequencies.len()
            invariant
                i <= self.frequencies@.len(),
                self.frequencies@.len() == self.flux_densities@.len(),
                self.frequencies@.len() == self.specific_losses@.len(),
                self@.len() == self.frequencies@.len(),
                forall|j: int|
                    0 <= j < i ==> {
                        &&& fit_accepts_conditions(
                            (#[trigger] self@[j]).flux_density as int,
                            self@[j].frequency as int,
                        )
                        &&& magnitude(self@[j].specific_loss as int) <= SPECIFIC_LOSS_LIMIT
                    },
            decreases self.frequencies@.len() - i,
        {
            let frequency: i128 = self.frequencies[i];
            let flux_density: i128 = self.flux_densities[i];
            let specific_loss: i128 = self.specific_losses[i];
            assert(self@[i as int].frequency == frequency);
            assert(self@[i as int].flux_density == flux_density);
            assert(self@[i as int].specific_loss == specific_loss);
            if frequency > SAMPLE_FREQUENCY_LIMIT || frequency < -SAMPLE_FREQUENCY_LIMIT
                || flux_density
                > SAMPLE_FLUX_DENSITY_LIMIT || flux_density < -SAMPLE_FLUX_DENSITY_LIMIT
                || specific_loss > SPECIFIC_LOSS_LIMIT || specific_loss < -SPECIFIC_LOSS_LIMIT {
                return false;
            }
            i += 1;
        }
        true
    }

    /// The cost as [`cost`](Self::cost) gives it, or nothing where there are
    /// fewer than two coefficients, or the coefficients or the samples are
    /// beyond the limits of the cost function.
    pub fn try_cost(&self, p: &Vec<i128>) -> (err: Option<i128>)
        ensures
            err is Some <==> p@.len() >= 2 && fit_accepts_coefficients(
                p@[0] as int,
                p@[1] as int,
            ) && samples_within_limits(self@) && self@.len() <= SAMPLE_LIMIT,
            err matches Some(value) ==> value == cost_of(
                self@,
                p@[0] as int,
                p@[1] as int,
                self@.len(),
            ),
    {
        if p.len() >= 2 && does_fit_accept_coefficients(p[0], p[1]) && self.is_within_limits() {
            Some(self.cost(p))
        } else {
            None
        }
    }

    /// The cost of the coefficients `p`, of which the first is the
    /// hysteresis coefficient and the second the eddy current coefficient:
    /// the sum over all samples of the squared difference between the
    /// measured loss and the loss that the loss equation gives.
    pub fn cost(&self, p: &Vec<i128>) -> (err: i128)
        requires
            p.len() >= 2,
            fit_accepts_coefficients(p[0] as int, p[1] as int),
            samples_within_limits(self@),
            self@.len() <= SAMPLE_LIMIT,
        ensures
            err == cost_of(self@, p[0] as int, p[1] as int, self@.len()),
            err >= 0,
    {
        proof {
            use_type_invariant(self);
        }
        let hysteresis_coefficient: i128 = p[0];
        let eddy_current_coefficient: i128 = p[1];
        let mut err: i128 = 0;
        let mut i: usize = 0;
        while i < self.frequencies.len()
            invariant
                i <= self.frequencies@.len(),
                self.frequencies@.len() == self.flux_densities@.len(),
                self.frequencies@.len() == self.specific_losses@.len(),
                self@.len() == self.frequencies@.len(),
                self@.len() <= SAMPLE_LIMIT,
                samples_within_limits(self@),
                fit_accepts_coefficients(
                    hysteresis_coefficient as int,
                    eddy_current_coefficient as int,
                ),
                err == cost_of(
                    self@,
                    hysteresis_coefficient as int,
                    eddy_current_coefficient as int,
                    i as nat,
                ),
            decreases self.frequencies@.len() - i,
        {
            let ghost sample = self@[i as int];
            assert(sample.frequency == self.frequencies@[i as int]);
            assert(sample.flux_density == self.flux_densities@[i as int]);
            assert(sample.specific_loss == self.specific_losses@[i as int]);
            proof {
                lemma_cost_bound(
                    self@,
                    hysteresis_coefficient as int,
                    eddy_current_coefficient as int,
                    i as nat,
                );
                lemma_cost_bound(
                    self@,
                    hysteresis_coefficient as int,
                    eddy_current_coefficient as int,
                    (i + 1) as nat,
                );
                lemma_squared_residual_bound(
                    sample,
                    hysteresis_coefficient as int,
                    eddy_current_coefficient as int,
                );
            }
            let predicted: i128 = losses(
                self.flux_densities[i],
                self.frequencies[i],
                hysteresis_coefficient,
                eddy_current_coefficient,
            );
            let residual: i128 = self.specific_losses[i] - predicted;
            err = err + multiply(residual, residual);
            i += 1;
        }
        proof {
            lemma_cost_bound(
                self@,
                hysteresis_coefficient as int,
                eddy_current_coefficient as int,
                self@.len(),
            );
        }
        err
    }
}

/// Measured loss curves of a material at several frequencies, from which
/// the coefficients of a [`JordanModel`] are fitted.
#[derive(Clone, Debug)]
pub struct IronLossData(pub Vec<IronLossCharacteristic>);

/// The fit of the two coefficients to measured losses, as a minimization
/// for a simplex method.
#[derive(Debug)]
pub struct Minimization {
    /// The cost function, which is to be minimized.
    pub fit: FitLossCurve,
    /// The corners of the first simplex: pairs of a hysteresis and an eddy
    /// current coefficient.
    pub start_values: [[i128; 2]; 3],
    /// The standard deviation of the costs at the corners of the simplex
    /// below which the minimization ends.
    pub sd_tolerance: i128,
    /// The number of iterations after which the minimization ends in any
    /// case.
    pub max_iters: u64,
}

/// The corners of the first simplex: (3, 3), (2, 1.5) and (1, 0.5) W/kg.
pub open spec fn start_values() -> Seq<Seq<i128>> {
    seq![
        seq![3_000_000_000i128, 3_000_000_000i128],
        seq![2_000_000_000i128, 1_500_000_000i128],
        seq![1_000_000_000i128, 500_000_000i128],
    ]
}

/// The standard deviation at which the minimization ends: 0.0001.
pub const SD_TOLERANCE: i128 = 100_000;

/// The number of iterations after which the minimization ends.
pub const MAX_ITERS: u64 = 200;

impl IronLossData {
    /// Lines up the points of all loss curves, each with the frequency of
    /// its curve.
    pub fn flatten(&self) -> (fit: FitLossCurve)
        ensures
            fit@ == flattened(self.0@),
    {
        let mut frequencies_flat: Vec<i128> = Vec::new();
        let mut flux_density_flat: Vec<i128> = Vec::new();
        let mut specific_losses_flat: Vec<i128> = Vec::new();
        let ghost mut samples: Seq<LossSample> = Seq::empty();
        let mut i: usize = 0;
        assert(self.0@.subrange(0, 0) =~= Seq::<IronLossCharacteristic>::empty());
        while i < self.0.len()
            invariant
                i <= self.0.len(),
                samples == flattened(self.0@.subrange(0, i as int)),
                frequencies_flat@.len() == samples.len(),
                flux_density_flat@.len() == samples.len(),
                specific_losses_flat@.len() == samples.len(),
                forall|k: int|
                    0 <= k < samples.len() ==> #[trigger] samples[k] == (LossSample {
                        frequency: frequencies_flat@[k],
                        flux_density: flux_density_flat@[k],
                        specific_loss: specific_losses_flat@[k],
                    }),
            decreases self.0.len() - i,
        {
            let characteristic = &self.0[i];
            let frequency: i128 = characteristic.frequency;
            let ghost before = samples;
            let mut j: usize = 0;
            while j < characteristic.characteristic.len()
                invariant
                    j <= characteristic.characteristic.len(),
                    frequency == characteristic.frequency,
                    samples == before + samples_of(*characteristic).subrange(0, j as int),
                    frequencies_flat@.len() == samples.len(),
                    flux_density_flat@.len() == samples.len(),
                    specific_losses_flat@.len() == samples.len(),
                    forall|k: int|
                        0 <= k < samples.len() ==> #[trigger] samples[k] == (LossSample {
                            frequency: frequencies_flat@[k],
                            flux_density: flux_density_flat@[k],
                            specific_loss: specific_losses_flat@[k],
                        }),
                decreases characteristic.characteristic.len() - j,
            {
                let pair = characteristic.characteristic[j];
                frequencies_flat.push(frequency);
                flux_density_flat.push(pair.flux_density);
                specific_losses_flat.push(pair.specific_loss);
                proof {
                    let added = LossSample {
                        frequency,
                        flux_density: pair.flux_density,
                        specific_loss: pair.specific_loss,
                    };
                    assert(samples_of(*characteristic).subrange(0, j + 1) =~= samples_of(
                        *characteristic,
                    ).subrange(0, j as int).push(added));
                    assert(before + samples_of(*characteristic).subrange(0, j + 1) =~= samples.push(
                        added,
                    ));
                    samples = samples.push(added);
                }
                j += 1;
            }
            proof {
                assert(samples_of(*characteristic).subrange(
                    0,
                    characteristic.characteristic@.len() as int,
                ) =~= samples_of(*characteristic));
                assert(self.0@.subrange(0, i + 1).drop_last() =~= self.0@.subrange(0, i as int));
                assert(self.0@.subrange(0, i + 1).last() == *characteristic);
            }
            i += 1;
        }
        assert(self.0@.subrange(0, i as int) =~= self.0@);
        let fit = FitLossCurve {
            frequencies: frequencies_flat,
            flux_densities: flux_density_flat,
            specific_losses: specific_losses_flat,
        };
        assert(fit@ =~= samples);
        fit
    }

    /// States the minimization whose solution holds the two coefficients
    /// that fit the measured losses best: the cost function over all points,
    /// the first simplex, and where to end.
    ///
    /// Where every point is without a frequency or without a flux density,
    /// and where there is no point, the cost is the same for all
    /// coefficients and there is nothing to minimize: the fit fails, with
    /// no message.
    pub fn solve_for_coefficients(&self) -> (res: Result<
        Minimization,
        FailedCoefficientCalculation,
    >)
        ensures
            match res {
                Err(failure) => without_field(flattened(self.0@)) && failure.0 is None,
                Ok(minimization) => {
                    &&& !without_field(flattened(self.0@))
                    &&& minimization.fit@ == flattened(self.0@)
                    &&& minimization.start_values@.len() == 3
                    &&& forall|i: int|
                        0 <= i < 3 ==> (#[trigger] minimization.start_values@[i])@
                            == start_values()[i]
                    &&& minimization.sd_tolerance == SD_TOLERANCE
                    &&& minimization.max_iters == MAX_ITERS
                },
            },
    {
        let fit = self.flatten();
        if fit.is_without_field() {
            return Err(FailedCoefficientCalculation(None));
        }
        Ok(
            Minimization {
                fit,
                start_values: [
                    [3_000_000_000, 3_000_000_000],
                    [2_000_000_000, 1_500_000_000],
                    [1_000_000_000, 500_000_000],
                ],
                sd_tolerance: SD_TOLERANCE,
                max_iters: MAX_ITERS,
            },
        )
    }
}

/// The failure of a fit of the coefficients of a [`JordanModel`]. It holds
/// the message of the minimization where that reported an error, and
/// nothing where there are no coefficients to be had: the minimization
/// ended without any, or the measured points decide nothing.
#[derive(Debug)]
pub struct FailedCoefficientCalculation(pub Option<String>);

impl JordanModel {
    /// Makes the model from the outcome of the minimization of
    /// [`IronLossData::solve_for_coefficients`]: the error that it
    /// reported, or the best coefficients that it found, if any. The first
    /// is the hysteresis coefficient, the second the eddy current
    /// coefficient.
    pub fn from_best_param(outcome: Result<Option<Vec<i128>>, String>) -> (res: Result<
        JordanModel,
        FailedCoefficientCalculation,
    >)
        ensures
            match outcome {
                Err(message) => res is Err && res->Err_0.0 == Some(message),
                Ok(None) => res is Err && res->Err_0.0 is None,
                Ok(Some(solution)) => if solution@.len() >= 2 {
                    res == Ok::<JordanModel, FailedCoefficientCalculation>(
                        JordanModel {
                            hysteresis_coefficient: solution@[0],
                            eddy_current_coefficient: solution@[1],
                        },
                    )
                } else {
                    res is Err && res->Err_0.0 is None
                },
            },
    {
        match outcome {
            Err(message) => Err(FailedCoefficientCalculation(Some(message))),
            Ok(None) => Err(FailedCoefficientCalculation(None)),
            Ok(Some(solution)) => {
                if solution.len() >= 2 {
                    Ok(
                        JordanModel {
                            hysteresis_coefficient: solution[0],
                            eddy_current_coefficient: solution[1],
                        },
                    )
                } else {
                    Err(FailedCoefficientCalculation(None))
                }
            },
        }
    }
}

/// At the reference flux density and the reference frequency the losses
/// are the sum of the two coefficients.
pub proof fn lemma_losses_at_reference(hysteresis_coefficient: int, eddy_current_coefficient: int)
    ensures
        loss_equation(
            REFERENCE_FLUX_DENSITY as int,
            REFERENCE_FREQUENCY as int,
            hysteresis_coefficient,
            eddy_current_coefficient,
        ) == hysteresis_coefficient + eddy_current_coefficient,
{
    lemma_quotient_of_multiple(SCALE as int, REFERENCE_FLUX_DENSITY as int);
    lemma_quotient_of_multiple(SCALE as int, REFERENCE_FREQUENCY as int);
    assert(REFERENCE_FLUX_DENSITY * SCALE == SCALE * REFERENCE_FLUX_DENSITY);
    assert(REFERENCE_FREQUENCY * SCALE == SCALE * REFERENCE_FREQUENCY);
    lemma_product_unit(SCALE as int);
    lemma_product_unit(hysteresis_coefficient);
    lemma_product_unit(eddy_current_coefficient);
}

/// The losses do not depend on the sign of the flux density.
pub proof fn lemma_losses_even_in_flux_density(
    flux_density: int,
    frequency: int,
    hysteresis_coefficient: int,
    eddy_current_coefficient: int,
)
    ensures
        loss_equation(-flux_density, frequency, hysteresis_coefficient, eddy_current_coefficient)
            == loss_equation(
                flux_density,
                frequency,
                hysteresis_coefficient,
                eddy_current_coefficient,
            ),
{
    lemma_ratio_odd(flux_density, REFERENCE_FLUX_DENSITY as int);
    let relative = ratio(flux_density, REFERENCE_FLUX_DENSITY as int);
    lemma_product_of_negations(relative, relative);
}

/// With coefficients and a frequency that are not negative, the losses are
/// not negative.
pub proof fn lemma_losses_not_negative(
    flux_density: int,
    frequency: int,
    hysteresis_coefficient: int,
    eddy_current_coefficient: int,
)
    requires
        frequency >= 0,
        hysteresis_coefficient >= 0,
        eddy_current_coefficient >= 0,
    ensures
        loss_equation(flux_density, frequency, hysteresis_coefficient, eddy_current_coefficient)
            >= 0,
{
    let f = relative_frequency(frequency);
    let b = ratio(flux_density, REFERENCE_FLUX_DENSITY as int);
    let b2 = relative_flux_density_squared(flux_density);
    assert(frequency * SCALE >= 0) by (nonlinear_arith)
        requires
            frequency >= 0,
    ;
    lemma_quotient_sign(frequency * SCALE, REFERENCE_FREQUENCY as int);
    lemma_product_not_negative(b, b);
    lemma_product_not_negative(f, f);
    lemma_product_not_negative(hysteresis_coefficient, f);
    lemma_product_not_negative(product(hysteresis_coefficient, f), b2);
    lemma_product_not_negative(eddy_current_coefficient, product(f, f));
    lemma_product_not_negative(product(eddy_current_coefficient, product(f, f)), b2);
}

/// At twice the flux density the losses are four times as large, up to
/// what the rounding of the products leaves.
///
/// The square of the relative flux density is four times as large up to a
/// deviation of less than `5 + (8 · |B / B0| + 4)` billionths of a
/// billionth, that is a few billionths for flux densities near the
/// reference. The losses are four times as large up to ten billionths of a
/// watt per kilogram and that deviation times `kh · (f / f0)` and
/// `kec · (f / f0)²`.
pub proof fn lemma_losses_at_twice_the_flux_density(
    flux_density: int,
    frequency: int,
    hysteresis_coefficient: int,
    eddy_current_coefficient: int,
)
    ensures
        ({
            let relative = ratio(flux_density, REFERENCE_FLUX_DENSITY as int);
            let f = relative_frequency(frequency);
            let deviation = relative_flux_density_squared(2 * flux_density) - 4
                * relative_flux_density_squared(flux_density);
            let weights = magnitude(product(hysteresis_coefficient, f)) + magnitude(
                product(eddy_current_coefficient, product(f, f)),
            );
            &&& magnitude(deviation) * SCALE < 5 * SCALE + 8 * magnitude(relative) + 4
            &&& magnitude(
                loss_equation(
                    2 * flux_density,
                    frequency,
                    hysteresis_coefficient,
                    eddy_current_coefficient,
                ) - 4 * loss_equation(
                    flux_density,
                    frequency,
                    hysteresis_coefficient,
                    eddy_current_coefficient,
                ),
            ) * SCALE < 10 * SCALE + weights * magnitude(deviation)
        }),
{
    let b0 = REFERENCE_FLUX_DENSITY as int;
    let scale = SCALE as int;
    let r1 = ratio(flux_density, b0);
    let r2 = ratio(2 * flux_density, b0);
    let f = relative_frequency(frequency);
    let s1 = relative_flux_density_squared(flux_density);
    let s2 = relative_flux_density_squared(2 * flux_density);
    let c1 = product(hysteresis_coefficient, f);
    let c2 = product(eddy_current_coefficient, product(f, f));
    // The relative flux density doubles up to the rounding.
    assert((2 * flux_density) * SCALE - 2 * (flux_density * SCALE) == 0) by (nonlinear_arith);
    lemma_quotients_of_multiples((2 * flux_density) * SCALE, flux_density * SCALE, b0, 2, 0);
    let d = r2 - 2 * r1;
    assert(-2 <= d <= 2);
    // Its square quadruples up to the rounding and that deviation.
    assert(r2 * r2 - 4 * (r1 * r1) == d * (4 * r1 + d)) by (nonlinear_arith)
        requires
            d == r2 - 2 * r1,
    ;
    assert(magnitude(d * (4 * r1 + d)) <= 8 * magnitude(r1) + 4) by {
        if d == 0 {
            assert(d * (4 * r1 + d) == 0) by (nonlinear_arith)
                requires
                    d == 0,
            ;
        } else if d == 1 {
            assert(d * (4 * r1 + d) == 4 * r1 + 1) by (nonlinear_arith)
                requires
                    d == 1,
            ;
        } else if d == -1 {
            assert(d * (4 * r1 + d) == -(4 * r1 - 1)) by (nonlinear_arith)
                requires
                    d == -1,
            ;
        } else if d == 2 {
            assert(d * (4 * r1 + d) == 8 * r1 + 4) by (nonlinear_arith)
                requires
                    d == 2,
            ;
        } else {
            assert(d * (4 * r1 + d) == -(8 * r1 - 4)) by (nonlinear_arith)
                requires
                    d == -2,
            ;
        }
    }
    lemma_quotients_of_multiples(r2 * r2, r1 * r1, scale, 4, 8 * magnitude(r1) + 4);
    let deviation = s2 - 4 * s1;
    // Each term quadruples up to the rounding and the deviation of the
    // square, times the factor before it.
    assert(c1 * s2 - 4 * (c1 * s1) == c1 * deviation) by (nonlinear_arith)
        requires
            deviation == s2 - 4 * s1,
    ;
    assert(c2 * s2 - 4 * (c2 * s1) == c2 * deviation) by (nonlinear_arith)
        requires
            deviation == s2 - 4 * s1,
    ;
    lemma_magnitude_of_product(c1, deviation);
    lemma_magnitude_of_product(c2, deviation);
    lemma_quotients_of_multiples(c1 * s2, c1 * s1, scale, 4, magnitude(c1) * magnitude(deviation));
    lemma_quotients_of_multiples(c2 * s2, c2 * s1, scale, 4, magnitude(c2) * magnitude(deviation));
    let t1 = product(c1, s2) - 4 * product(c1, s1);
    let t2 = product(c2, s2) - 4 * product(c2, s1);
    let weights = magnitude(c1) + magnitude(c2);
    assert(weights * magnitude(deviation) == magnitude(c1) * magnitude(deviation) + magnitude(c2)
        * magnitude(deviation)) by (nonlinear_arith)
        requires
            weights == magnitude(c1) + magnitude(c2),
    ;
    assert(magnitude(t1 + t2) * scale <= magnitude(t1) * scale + magnitude(t2) * scale)
        by (nonlinear_arith)
        requires
            scale > 0,
    ;
}

/// Without a flux density, and without a frequency, there are no losses,
/// whatever the coefficients.
pub proof fn lemma_no_losses_at_zero(
    flux_density: int,
    frequency: int,
    hysteresis_coefficient: int,
    eddy_current_coefficient: int,
)
    requires
        flux_density == 0 || frequency == 0,
    ensures
        loss_equation(
            flux_density,
            frequency,
            hysteresis_coefficient,
            eddy_current_coefficient,
        ) == 0,
{
    let f = relative_frequency(frequency);
    let b2 = relative_flux_density_squared(flux_density);
    if flux_density == 0 {
        assert(0 * SCALE == 0);
        lemma_product_unit(0);
        assert(b2 == 0);
        lemma_product_unit(product(hysteresis_coefficient, f));
        lemma_product_unit(product(eddy_current_coefficient, product(f, f)));
    } else {
        assert(0 * SCALE == 0);
        assert(f == 0);
        lemma_product_unit(0);
        lemma_product_unit(hysteresis_coefficient);
        lemma_product_unit(eddy_current_coefficient);
        lemma_product_unit(b2);
    }
}

/// Where every sample has no flux density or no frequency, the cost is the
/// same for all coefficients: such samples decide nothing about the fit.
pub proof fn lemma_cost_at_zero(
    samples: Seq<LossSample>,
    first: (int, int),
    second: (int, int),
    count: nat,
)
    requires
        count <= samples.len(),
        without_field(samples),
    ensures
        cost_of(samples, first.0, first.1, count) == cost_of(samples, second.0, second.1, count),
    decreases count,
{
    if count > 0 {
        lemma_cost_at_zero(samples, first, second, (count - 1) as nat);
        let sample = samples[count - 1];
        lemma_no_losses_at_zero(
            sample.flux_density as int,
            sample.frequency as int,
            first.0,
            first.1,
        );
        lemma_no_losses_at_zero(
            sample.flux_density as int,
            sample.frequency as int,
            second.0,
            second.1,
        );
    }
}

} // verus!
