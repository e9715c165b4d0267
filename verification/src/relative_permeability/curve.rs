//! Measured curves of a material, from which its permeability is made.

use crate::fixed_point::{
    divide, lemma_product_bound, lemma_quotient_bound, magnitude, quotient, SCALE,
};
use crate::relative_permeability::sampling::{
    largest, positions_to_sample, sample_positions, SAMPLE_COUNT_LIMIT,
};
use crate::spline::{BuildError, Slope, SplineData, SplineDataView};
use vstd::prelude::*;

verus! {

/// Largest magnitude of a field strength that the curves of this module
/// accept: 10⁶ A/m.
pub const FIELD_STRENGTH_LIMIT: i128 = 1_000_000_000_000_000;

/// Largest magnitude of a flux density or polarization that the curves of
/// this module accept: 10⁴ T.
pub const FLUX_DENSITY_LIMIT: i128 = 10_000_000_000_000;

/// Numerator of the vacuum permeability `µ0 = 4π · 10⁻⁷ H/m`, which this
/// crate takes as the ratio 12 566 370 614 / 10¹⁶.
pub const VACUUM_PERMEABILITY_NUMERATOR: i128 = 12_566_370_614;

/// Denominator of the vacuum permeability.
pub const VACUUM_PERMEABILITY_DENOMINATOR: i128 = 10_000_000_000_000_000;

/// Errors found in the data from which a [`FerromagneticPermeability`] is
/// made.
#[derive(Clone, Copy, Debug, PartialEq, Eq, Structural)]
pub enum InvalidInputData {
    /// The iron fill factor is not between 0 and 1.
    IronFillFactor(i128),
    /// A magnetization curve has not as many flux densities as field
    /// strengths.
    IneqNumElementsFluxDensity {
        /// Number of field strengths.
        field_strength: usize,
        /// Number of flux densities.
        flux_density: usize,
    },
    /// A polarization curve has not as many polarizations as field strengths.
    IneqNumElementsPolarization {
        /// Number of field strengths.
        field_strength: usize,
        /// Number of polarizations.
        polarization: usize,
    },
    /// No spline could be built from the knots.
    AkimaBuildError(BuildError),
}

/// Whether every element of `values` has a magnitude of at most `limit`.
pub open spec fn all_within(values: Seq<i128>, limit: int) -> bool {
    forall|i: int| 0 <= i < values.len() ==> -limit <= #[trigger] values[i] <= limit
}

/// Tells whether every element of `values` has a magnitude of at most
/// `limit`.
pub fn are_within(values: &Vec<i128>, limit: i128) -> (within: bool)
    requires
        limit >= 0,
    ensures
        within == all_within(values@, limit as int),
{
    let mut i: usize = 0;
    while i < values.len()
        invariant
            limit >= 0,
            i <= values.len(),
            forall|j: int| 0 <= j < i ==> -limit <= #[trigger] values@[j] <= limit,
        decreases values.len() - i,
    {
        if values[i] > limit || values[i] < -limit {
            return false;
        }
        i += 1;
    }
    true
}

/// The mathematical content of a [`MagnetizationCurve`].
pub struct MagnetizationCurveView {
    /// Field strengths of the measured points.
    pub field_strength: Seq<i128>,
    /// Flux densities of the measured points.
    pub flux_density: Seq<i128>,
    /// Share of iron in the cross section, between 0 and [`SCALE`].
    pub iron_fill_factor: i128,
}

/// Measured points of the magnetization curve `B(H)` of a material.
///
/// Curves are measured on massive samples, while the cores of electrical
/// machines are stacked from insulated sheets. The iron fill factor is the
/// share of the cross section that the sheets take up; the insulation
/// between them is taken to have the permeability of vacuum.
#[derive(Debug)]
pub struct MagnetizationCurve {
    field_strength: Vec<i128>,
    flux_density: Vec<i128>,
    iron_fill_factor: i128,
}

/// The error, if any, in the fill factor and the two lengths of a
/// magnetization curve. The fill factor is tested first.
pub open spec fn magnetization_error(
    field_strength: Seq<i128>,
    flux_density: Seq<i128>,
    iron_fill_factor: i128,
) -> Option<InvalidInputData> {
    if iron_fill_factor > SCALE || iron_fill_factor < 0 {
        Some(InvalidInputData::IronFillFactor(iron_fill_factor))
    } else if field_strength.len() != flux_density.len() {
        Some(
            InvalidInputData::IneqNumElementsFluxDensity {
                field_strength: field_strength.len() as usize,
                flux_density: flux_density.len() as usize,
            },
        )
    } else {
        None
    }
}

impl View for MagnetizationCurve {
    type V = MagnetizationCurveView;

    closed spec fn view(&self) -> MagnetizationCurveView {
        MagnetizationCurveView {
            field_strength: self.field_strength@,
            flux_density: self.flux_density@,
            iron_fill_factor: self.iron_fill_factor,
        }
    }
}

impl MagnetizationCurveView {
    /// Whether the curve has as many flux densities as field strengths and a
    /// fill factor between 0 and 1.
    pub open spec fn valid(self) -> bool {
        magnetization_error(self.field_strength, self.flux_density, self.iron_fill_factor) is None
    }

    /// Whether every value of the curve is within the limit of its quantity.
    pub open spec fn within_limits(self) -> bool {
        &&& all_within(self.field_strength, FIELD_STRENGTH_LIMIT as int)
        &&& all_within(self.flux_density, FLUX_DENSITY_LIMIT as int)
    }
}

impl Clone for MagnetizationCurve {
    fn clone(&self) -> (copy: Self)
        ensures
            copy@ == self@,
    {
        proof {
            use_type_invariant(self);
        }
        let field_strength = self.field_strength.clone();
        let flux_density = self.flux_density.clone();
        assert(field_strength@ =~= self.field_strength@);
        assert(flux_density@ =~= self.flux_density@);
        MagnetizationCurve { field_strength, flux_density, iron_fill_factor: self.iron_fill_factor }
    }
}

impl MagnetizationCurve {
    #[verifier::type_invariant]
    spec fn well_formed(self) -> bool {
        self@.valid()
    }

    /// Makes a curve from field strengths, the flux densities measured at
    /// them, and the iron fill factor, or tells what is wrong with them.
    pub fn new(
        field_strength: Vec<i128>,
        flux_density: Vec<i128>,
        iron_fill_factor: i128,
    ) -> (res: Result<Self, InvalidInputData>)
        ensures
            match magnetization_error(field_strength@, flux_density@, iron_fill_factor) {
                Some(error) => res == Err::<Self, InvalidInputData>(error),
                None => res is Ok && res->Ok_0@ == (MagnetizationCurveView {
                    field_strength: field_strength@,
                    flux_density: flux_density@,
                    iron_fill_factor,
                }),
            },
    {
        if iron_fill_factor > SCALE || iron_fill_factor < 0 {
            return Err(InvalidInputData::IronFillFactor(iron_fill_factor));
        }
        if field_strength.len() != flux_density.len() {
            return Err(
                InvalidInputData::IneqNumElementsFluxDensity {
                    field_strength: field_strength.len(),
                    flux_density: flux_density.len(),
                },
            );
        }
        Ok(MagnetizationCurve { field_strength, flux_density, iron_fill_factor })
    }

    /// Tells whether every value of the curve is within the limit of its
    /// quantity.
    pub fn is_within_limits(&self) -> (within: bool)
        ensures
            within == self@.within_limits(),
    {
        are_within(&self.field_strength, FIELD_STRENGTH_LIMIT) && are_within(
            &self.flux_density,
            FLUX_DENSITY_LIMIT,
        )
    }

    /// The field strengths of the measured points.
    pub fn field_strength(&self) -> (values: &Vec<i128>)
        ensures
            values@ == self@.field_strength,
            self@.valid(),
    {
        proof {
            use_type_invariant(self);
        }
        &self.field_strength
    }

    /// The flux densities of the measured points.
    pub fn flux_density(&self) -> (values: &Vec<i128>)
        ensures
            values@ == self@.flux_density,
            self@.valid(),
    {
        proof {
            use_type_invariant(self);
        }
        &self.flux_density
    }

    /// The iron fill factor.
    pub fn iron_fill_factor(&self) -> (factor: i128)
        ensures
            factor == self@.iron_fill_factor,
            self@.valid(),
    {
        proof {
            use_type_invariant(self);
        }
        self.iron_fill_factor
    }

    /// The data of the spline `B(H)` through the measured points, which is
    /// continued on both sides with the slope `µ0`.
    pub fn bh_spline(&self) -> (data: SplineData)
        ensures
            data@ == (SplineDataView {
                xs: self@.field_strength,
                ys: self@.flux_density,
                extrapl: Slope {
                    rise: VACUUM_PERMEABILITY_NUMERATOR,
                    run: VACUUM_PERMEABILITY_DENOMINATOR,
                },
                extrapr: Slope {
                    rise: VACUUM_PERMEABILITY_NUMERATOR,
                    run: VACUUM_PERMEABILITY_DENOMINATOR,
                },
            }),
    {
        let xs = self.field_strength.clone();
        let ys = self.flux_density.clone();
        assert(xs@ =~= self.field_strength@);
        assert(ys@ =~= self.flux_density@);
        let slope = Slope {
            rise: VACUUM_PERMEABILITY_NUMERATOR,
            run: VACUUM_PERMEABILITY_DENOMINATOR,
        };
        SplineData { xs, ys, extrapl: slope, extrapr: slope }
    }

    /// Lists the field strengths at which the spline of
    /// [`bh_spline`](Self::bh_spline) is to be evaluated for
    /// [`FerromagneticPermeability::from_magnetization`].
    pub fn sample_positions(&self) -> (positions: Vec<i128>)
        requires
            self@.field_strength.len() > 0,
            self@.within_limits(),
        ensures
            positions@ == sample_positions(largest(self@.field_strength) as int),
            1 <= positions.len() <= SAMPLE_COUNT_LIMIT,
    {
        positions_to_sample(&self.field_strength)
    }
}

/// The flux density `µ0 · H` that the field strength `field_strength` causes
/// in vacuum.
pub open spec fn vacuum_flux_density(field_strength: int) -> int {
    quotient(
        field_strength * VACUUM_PERMEABILITY_NUMERATOR,
        VACUUM_PERMEABILITY_DENOMINATOR as int,
    )
}

/// A field strength within its limit causes less than 2 T in vacuum.
pub proof fn lemma_vacuum_flux_density_bound(field_strength: int)
    requires
        magnitude(field_strength) <= FIELD_STRENGTH_LIMIT,
    ensures
        magnitude(field_strength * VACUUM_PERMEABILITY_NUMERATOR) <= FIELD_STRENGTH_LIMIT
            * VACUUM_PERMEABILITY_NUMERATOR,
        magnitude(vacuum_flux_density(field_strength)) <= 2 * SCALE,
{
    lemma_product_bound(
        field_strength,
        VACUUM_PERMEABILITY_NUMERATOR as int,
        FIELD_STRENGTH_LIMIT as int,
        VACUUM_PERMEABILITY_NUMERATOR as int,
    );
    lemma_quotient_bound(
        field_strength * VACUUM_PERMEABILITY_NUMERATOR,
        VACUUM_PERMEABILITY_DENOMINATOR as int,
        2 * SCALE,
    );
}

/// Computes the flux density that `field_strength` causes in vacuum.
pub fn flux_density_in_vacuum(field_strength: i128) -> (flux_density: i128)
    requires
        magnitude(field_strength as int) <= FIELD_STRENGTH_LIMIT,
    ensures
        flux_density == vacuum_flux_density(field_strength as int),
        magnitude(flux_density as int) <= 2 * SCALE,
{
    proof {
        lemma_vacuum_flux_density_bound(field_strength as int);
    }
    divide(field_strength * VACUUM_PERMEABILITY_NUMERATOR, VACUUM_PERMEABILITY_DENOMINATOR)
}

/// The mathematical content of a [`PolarizationCurve`].
pub struct PolarizationCurveView {
    /// Field strengths of the measured points.
    pub field_strength: Seq<i128>,
    /// Magnetic polarizations of the measured points.
    pub polarization: Seq<i128>,
    /// Share of iron in the cross section, between 0 and [`SCALE`].
    pub iron_fill_factor: i128,
}

/// Measured points of the polarization curve `J(H)` of a material, where
/// `J = B - µ0 · H`.
#[derive(Debug)]
pub struct PolarizationCurve {
    field_strength: Vec<i128>,
    polarization: Vec<i128>,
    iron_fill_factor: i128,
}

/// The error, if any, in the fill factor and the two lengths of a
/// polarization curve. The fill factor is tested first.
pub open spec fn polarization_error(
    field_strength: Seq<i128>,
    polarization: Seq<i128>,
    iron_fill_factor: i128,
) -> Option<InvalidInputData> {
    if iron_fill_factor > SCALE || iron_fill_factor < 0 {
        Some(InvalidInputData::IronFillFactor(iron_fill_factor))
    } else if field_strength.len() != polarization.len() {
        Some(
            InvalidInputData::IneqNumElementsPolarization {
                field_strength: field_strength.len() as usize,
                polarization: polarization.len() as usize,
            },
        )
    } else {
        None
    }
}

impl View for PolarizationCurve {
    type V = PolarizationCurveView;

    closed spec fn view(&self) -> PolarizationCurveView {
        PolarizationCurveView {
            field_strength: self.field_strength@,
            polarization: self.polarization@,
            iron_fill_factor: self.iron_fill_factor,
        }
    }
}

impl PolarizationCurveView {
    /// Whether the curve has as many polarizations as field strengths and a
    /// fill factor between 0 and 1.
    pub open spec fn valid(self) -> bool {
        polarization_error(self.field_strength, self.polarization, self.iron_fill_factor) is None
    }

    /// Whether every value of the curve is within the limit of its quantity.
    pub open spec fn within_limits(self) -> bool {
        &&& all_within(self.field_strength, FIELD_STRENGTH_LIMIT as int)
        &&& all_within(self.polarization, FLUX_DENSITY_LIMIT as int)
    }

    /// The magnetization curve of the same material: the same field
    /// strengths and fill factor, with the flux densities `J + µ0 · H`.
    pub open spec fn magnetization(self) -> MagnetizationCurveView {
        MagnetizationCurveView {
            field_strength: self.field_strength,
            flux_density: Seq::new(
                self.polarization.len(),
                |i: int|
                    (self.polarization[i] + vacuum_flux_density(self.field_strength[i] as int))
                        as i128,
            ),
            iron_fill_factor: self.iron_fill_factor,
        }
    }
}

impl PolarizationCurve {
    #[verifier::type_invariant]
    spec fn well_formed(self) -> bool {
        self@.valid()
    }

    /// Makes a curve from field strengths, the polarizations measured at
    /// them, and the iron fill factor, or tells what is wrong with them.
    pub fn new(
        field_strength: Vec<i128>,
        polarization: Vec<i128>,
        iron_fill_factor: i128,
    ) -> (res: Result<Self, InvalidInputData>)
        ensures
            match polarization_error(field_strength@, polarization@, iron_fill_factor) {
                Some(error) => res == Err::<Self, InvalidInputData>(error),
                None => res is Ok && res->Ok_0@ == (PolarizationCurveView {
                    field_strength: field_strength@,
                    polarization: polarization@,
                    iron_fill_factor,
                }),
            },
    {
        if iron_fill_factor > SCALE || iron_fill_factor < 0 {
            return Err(InvalidInputData::IronFillFactor(iron_fill_factor));
        }
        if field_strength.len() != polarization.len() {
            return Err(
                InvalidInputData::IneqNumElementsPolarization {
                    field_strength: field_strength.len(),
                    polarization: polarization.len(),
                },
            );
        }
        Ok(PolarizationCurve { field_strength, polarization, iron_fill_factor })
    }

    /// Tells whether every value of the curve is within the limit of its
    /// quantity.
    pub fn is_within_limits(&self) -> (within: bool)
        ensures
            within == self@.within_limits(),
    {
        are_within(&self.field_strength, FIELD_STRENGTH_LIMIT) && are_within(
            &self.polarization,
            FLUX_DENSITY_LIMIT,
        )
    }

    /// Converts the curve into the magnetization curve of the same material.
    pub fn into_magnetization(self) -> (curve: MagnetizationCurve)
        requires
            self@.within_limits(),
        ensures
            curve@ == self@.magnetization(),
    {
        proof {
            use_type_invariant(&self);
        }
        let ghost given = self@;
        let field_strength = self.field_strength;
        let mut flux_density = self.polarization;
        let mut i: usize = 0;
        while i < flux_density.len()
            invariant
                given.within_limits(),
                field_strength@ == given.field_strength,
                flux_density.len() == given.polarization.len(),
                field_strength.len() == flux_density.len(),
                i <= flux_density.len(),
                forall|j: int|
                    0 <= j < i ==> flux_density@[j] == given.magnetization().flux_density[j],
                forall|j: int|
                    i <= j < flux_density.len() ==> flux_density@[j] == given.polarization[j],
            decreases flux_density.len() - i,
        {
            let vacuum: i128 = flux_density_in_vacuum(field_strength[i]);
            let sum: i128 = flux_density[i] + vacuum;
            flux_density.set(i, sum);
            i += 1;
        }
        assert(flux_density@ =~= given.magnetization().flux_density);
        MagnetizationCurve { field_strength, flux_density, iron_fill_factor: self.iron_fill_factor }
    }
}

} // verus!
