//! The permeability model and its construction from measured curves.

use crate::fixed_point::{divide, quotient, SCALE};
use crate::relative_permeability::curve::{
    all_within, are_within, InvalidInputData, MagnetizationCurve, MagnetizationCurveView,
    PolarizationCurve, FIELD_STRENGTH_LIMIT, FLUX_DENSITY_LIMIT, VACUUM_PERMEABILITY_DENOMINATOR,
    VACUUM_PERMEABILITY_NUMERATOR,
};
use crate::relative_permeability::knots::{
    corrected_samples, first_maximum, index_of_first_maximum, knots_of_samples,
    lemma_corrected_samples, lemma_first_maximum, lemma_measured_knots, lemma_repaired,
    measured_knots, repair, repaired, samples_within_limits, tail_from, PERMEABILITY_LIMIT,
};
use crate::relative_permeability::sampling::{
    largest, lemma_largest, lemma_sampled, sample_bh_curve, sample_count, sampled,
    CHANGE_TOLERANCE, SAMPLE_COUNT_LIMIT,
};
use crate::spline::{BuildError, Slope, SplineData, SplineDataView};
use vstd::prelude::*;

verus! {

/// Flux density at which the material is taken to be saturated, so that its
/// relative permeability is 1: 100 T.
pub const SATURATION_FLUX_DENSITY: i128 = 100_000_000_000;

/// The field strength `B / µ0` at which vacuum carries the flux density at
/// which the material is taken to be saturated.
pub open spec fn saturation_field_strength() -> int {
    quotient(
        SATURATION_FLUX_DENSITY * VACUUM_PERMEABILITY_DENOMINATOR,
        VACUUM_PERMEABILITY_NUMERATOR as int,
    )
}

/// The mathematical content of a [`FerromagneticPermeability`].
pub struct FerromagneticPermeabilityView {
    /// Data of the spline `µr(H)`.
    pub from_field_strength: SplineDataView,
    /// Data of the spline `µr(B)`.
    pub from_flux_density: SplineDataView,
}

/// The relative permeability of a ferromagnetic material as the data of two
/// splines, one over the field strength and one over the flux density.
///
/// Both describe the same curve. They start at the largest permeability
/// that was measured, are flat below it, and run from their last knot in a
/// straight line to the point at which the material is taken to be
/// saturated.
#[derive(Debug)]
pub struct FerromagneticPermeability {
    /// Data of the spline `µr(H)`.
    pub from_field_strength: SplineData,
    /// Data of the spline `µr(B)`.
    pub from_flux_density: SplineData,
}

impl Clone for FerromagneticPermeability {
    fn clone(&self) -> (copy: Self)
        ensures
            copy@ == self@,
    {
        FerromagneticPermeability {
            from_field_strength: self.from_field_strength.clone(),
            from_flux_density: self.from_flux_density.clone(),
        }
    }
}

impl View for FerromagneticPermeability {
    type V = FerromagneticPermeabilityView;

    open spec fn view(&self) -> FerromagneticPermeabilityView {
        FerromagneticPermeabilityView {
            from_field_strength: self.from_field_strength@,
            from_flux_density: self.from_flux_density@,
        }
    }
}

/// The data of the two splines that sampled points give.
///
/// The knots are those of [`measured_knots`] from the first largest
/// permeability on, with the permeabilities repaired. To the right both
/// splines head for the relative permeability 1 at saturation; the rise is
/// the same for both, the run is taken in the field strength for one and in
/// the flux density for the other.
pub open spec fn splines_of_samples(
    field_strength: Seq<i128>,
    flux_density: Seq<i128>,
    iron_fill_factor: int,
) -> FerromagneticPermeabilityView {
    let knots = measured_knots(field_strength, flux_density, iron_fill_factor);
    let first = first_maximum(knots.permeability, knots.permeability.len());
    let permeability = repaired(knots.permeability.skip(first));
    let rise = (SCALE - permeability.last()) as i128;
    FerromagneticPermeabilityView {
        from_field_strength: SplineDataView {
            xs: knots.field_strength.skip(first),
            ys: permeability,
            extrapl: Slope::flat(),
            extrapr: Slope {
                rise,
                run: (saturation_field_strength() - knots.field_strength.last()) as i128,
            },
        },
        from_flux_density: SplineDataView {
            xs: knots.induction.skip(first),
            ys: permeability,
            extrapl: Slope::flat(),
            extrapr: Slope {
                rise,
                run: (SATURATION_FLUX_DENSITY - knots.induction.last()) as i128,
            },
        },
    }
}

/// The data of the two splines for the measured curve `raw_curve` and the
/// flux densities `curve` of the spline through it at the sample
/// positions: the curve is sampled with [`CHANGE_TOLERANCE`], and the
/// retained points give the splines, see [`splines_of_samples`].
pub open spec fn splines_of_curve(
    raw_curve: MagnetizationCurveView,
    curve: Seq<i128>,
) -> FerromagneticPermeabilityView {
    let (field_strength, flux_density) = sampled(curve, CHANGE_TOLERANCE as int, curve.len());
    splines_of_samples(field_strength, flux_density, raw_curve.iron_fill_factor as int)
}

/// Whether no element of `values` is below its successor.
pub open spec fn falls(values: Seq<i128>) -> bool {
    forall|j: int| 0 <= j < values.len() - 1 ==> values[j] >= #[trigger] values[j + 1]
}

/// Both splines have the same permeabilities at their knots, and none of
/// them is below its successor: the curve through the knots falls.
pub proof fn lemma_splines_fall(
    field_strength: Seq<i128>,
    flux_density: Seq<i128>,
    iron_fill_factor: int,
)
    requires
        samples_within_limits(field_strength, flux_density),
        2 <= field_strength.len() <= SAMPLE_COUNT_LIMIT + 1,
        0 <= iron_fill_factor <= SCALE,
    ensures
        ({
            let model = splines_of_samples(field_strength, flux_density, iron_fill_factor);
            &&& model.from_field_strength.ys == model.from_flux_density.ys
            &&& falls(model.from_field_strength.ys)
        }),
{
    let knots = measured_knots(field_strength, flux_density, iron_fill_factor);
    lemma_measured_knots(field_strength, flux_density, iron_fill_factor);
    let measured = knots.permeability;
    lemma_first_maximum(measured, measured.len());
    let first = first_maximum(measured, measured.len());
    let kept = measured.skip(first);
    assert forall|i: int| 0 <= i < kept.len() implies -PERMEABILITY_LIMIT <= #[trigger] kept[i]
        <= PERMEABILITY_LIMIT by {
        assert(kept[i] == measured[first + i]);
    }
    lemma_repaired(kept);
    let model = splines_of_samples(field_strength, flux_density, iron_fill_factor);
    assert(model.from_field_strength.ys == repaired(kept));
}

/// The two splines that samples with an iron fill factor give are those
/// that the corrected samples give with the iron fill factor 1.
pub proof fn lemma_fill_factor_applied_to_samples(
    field_strength: Seq<i128>,
    flux_density: Seq<i128>,
    iron_fill_factor: int,
)
    requires
        samples_within_limits(field_strength, flux_density),
        0 <= iron_fill_factor <= SCALE,
    ensures
        splines_of_samples(field_strength, flux_density, iron_fill_factor) == splines_of_samples(
            field_strength,
            corrected_samples(field_strength, flux_density, iron_fill_factor),
            SCALE as int,
        ),
{
    lemma_corrected_samples(field_strength, flux_density, iron_fill_factor);
}

/// Computes the data of the two splines from sampled points.
fn splines_from_samples(
    field_strength: &Vec<i128>,
    flux_density: &Vec<i128>,
    iron_fill_factor: i128,
) -> (model: FerromagneticPermeability)
    requires
        field_strength.len() == flux_density.len(),
        2 <= field_strength.len() <= SAMPLE_COUNT_LIMIT + 1,
        forall|i: int|
            1 <= i < field_strength.len() ==> 0 < #[trigger] field_strength@[i]
                <= FIELD_STRENGTH_LIMIT,
        all_within(flux_density@, FLUX_DENSITY_LIMIT as int),
        0 <= iron_fill_factor <= SCALE,
    ensures
        model@ == splines_of_samples(field_strength@, flux_density@, iron_fill_factor as int),
{
    let ghost knots = measured_knots(field_strength@, flux_density@, iron_fill_factor as int);
    let (h, b, mu) = knots_of_samples(field_strength, flux_density, iron_fill_factor);
    let first: usize = index_of_first_maximum(&mu);
    let field_strength_right_of_maximum = tail_from(&h, first);
    let induction_right_of_maximum = tail_from(&b, first);
    let permeability_right_of_maximum = tail_from(&mu, first);
    let permeability = repair(permeability_right_of_maximum);
    let last: usize = permeability.len() - 1;
    let permeability_1: i128 = permeability[last];
    let field_strength_1: i128 = field_strength_right_of_maximum[last];
    let induction_1: i128 = induction_right_of_maximum[last];
    assert(permeability_1 == mu@[mu.len() - 1]);
    assert(field_strength_1 == h@[h.len() - 1]);
    assert(induction_1 == b@[b.len() - 1]);
    assert(h@[h.len() - 1] == field_strength@[field_strength.len() - 1]);
    let field_strength_2: i128 = divide(
        SATURATION_FLUX_DENSITY * VACUUM_PERMEABILITY_DENOMINATOR,
        VACUUM_PERMEABILITY_NUMERATOR,
    );
    let rise: i128 = SCALE - permeability_1;
    let ys = permeability.clone();
    assert(ys@ =~= permeability@);
    FerromagneticPermeability {
        from_field_strength: SplineData {
            xs: field_strength_right_of_maximum,
            ys: permeability,
            extrapl: Slope { rise: 0, run: 1 },
            extrapr: Slope { rise, run: field_strength_2 - field_strength_1 },
        },
        from_flux_density: SplineData {
            xs: induction_right_of_maximum,
            ys,
            extrapl: Slope { rise: 0, run: 1 },
            extrapr: Slope { rise, run: SATURATION_FLUX_DENSITY - induction_1 },
        },
    }
}

impl FerromagneticPermeability {
    /// Whether [`from_magnetization`](Self::from_magnetization) accepts
    /// the measured curve and the probed flux densities: there is a
    /// measured point, the measured values are within their limits, and
    /// there is one probed flux density for each sample position, each
    /// within the limit. Beyond the limits the permeabilities do not fit
    /// into the numbers of this crate.
    pub open spec fn accepts(raw_curve: MagnetizationCurveView, curve: Seq<i128>) -> bool {
        &&& raw_curve.within_limits()
        &&& raw_curve.field_strength.len() > 0
        &&& curve.len() == sample_count(largest(raw_curve.field_strength) as int)
        &&& all_within(curve, FLUX_DENSITY_LIMIT as int)
    }

    /// Makes the data of the permeability model of the material with the
    /// measured magnetization curve `raw_curve`.
    ///
    /// `curve` tells how the caller fared with the spline through the
    /// measured points, see [`MagnetizationCurve::bh_spline`]: it holds
    /// the reason for which the spline could not be built, which is then
    /// the error, or the flux densities of the spline at the field
    /// strengths of [`MagnetizationCurve::sample_positions`].
    ///
    /// The permeabilities at the knots of the two splines never rise
    /// towards larger fields. Whether the splines can be built is for the
    /// caller to try, see [`built`](Self::built).
    pub fn from_magnetization(
        raw_curve: MagnetizationCurve,
        curve: Result<Vec<i128>, BuildError>,
    ) -> (res: Result<Self, InvalidInputData>)
        requires
            curve matches Ok(values) ==> Self::accepts(raw_curve@, values@),
        ensures
            match curve {
                Err(error) => res == Err::<Self, InvalidInputData>(
                    InvalidInputData::AkimaBuildError(error),
                ),
                Ok(values) => {
                    &&& res is Ok
                    &&& res->Ok_0@ == splines_of_curve(raw_curve@, values@)
                    &&& res->Ok_0@.from_field_strength.ys == res->Ok_0@.from_flux_density.ys
                    &&& falls(res->Ok_0@.from_flux_density.ys)
                },
            },
    {
        match curve {
            Err(error) => Err(InvalidInputData::AkimaBuildError(error)),
            Ok(values) => {
                proof {
                    lemma_largest(raw_curve@.field_strength);
                    lemma_sampled(values@, CHANGE_TOLERANCE as int, values@.len());
                }
                let (field_strength, flux_density) = sample_bh_curve(&values, CHANGE_TOLERANCE);
                let iron_fill_factor: i128 = raw_curve.iron_fill_factor();
                proof {
                    lemma_splines_fall(field_strength@, flux_density@, iron_fill_factor as int);
                }
                Ok(splines_from_samples(&field_strength, &flux_density, iron_fill_factor))
            },
        }
    }

    /// Makes the data of the permeability model as
    /// [`from_magnetization`](Self::from_magnetization) does, or nothing
    /// where that does not accept the measured curve and the probed flux
    /// densities.
    pub fn try_from_magnetization(
        raw_curve: MagnetizationCurve,
        curve: Result<Vec<i128>, BuildError>,
    ) -> (res: Option<Result<Self, InvalidInputData>>)
        ensures
            res is None <==> curve is Ok && !Self::accepts(raw_curve@, curve->Ok_0@),
            res matches Some(made) ==> match curve {
                Err(error) => made == Err::<Self, InvalidInputData>(
                    InvalidInputData::AkimaBuildError(error),
                ),
                Ok(values) => {
                    &&& made is Ok
                    &&& made->Ok_0@ == splines_of_curve(raw_curve@, values@)
                    &&& made->Ok_0@.from_field_strength.ys == made->Ok_0@.from_flux_density.ys
                    &&& falls(made->Ok_0@.from_flux_density.ys)
                },
            },
    {
        let acceptable: bool = match &curve {
            Err(_) => true,
            Ok(values) => {
                if raw_curve.is_within_limits() && raw_curve.field_strength().len() > 0 {
                    let positions = raw_curve.sample_positions();
                    values.len() == positions.len() && are_within(values, FLUX_DENSITY_LIMIT)
                } else {
                    false
                }
            },
        };
        if acceptable {
            Some(FerromagneticPermeability::from_magnetization(raw_curve, curve))
        } else {
            None
        }
    }

    /// Makes the data of the permeability model of the material with the
    /// measured polarization curve `raw_curve`, as
    /// [`from_magnetization`](Self::from_magnetization) does for the
    /// magnetization curve of the same material.
    pub fn from_polarization(
        raw_curve: PolarizationCurve,
        curve: Result<Vec<i128>, BuildError>,
    ) -> (res: Result<Self, InvalidInputData>)
        requires
            raw_curve@.within_limits(),
            curve matches Ok(values) ==> Self::accepts(raw_curve@.magnetization(), values@),
        ensures
            match curve {
                Err(error) => res == Err::<Self, InvalidInputData>(
                    InvalidInputData::AkimaBuildError(error),
                ),
                Ok(values) => {
                    &&& res is Ok
                    &&& res->Ok_0@ == splines_of_curve(raw_curve@.magnetization(), values@)
                    &&& falls(res->Ok_0@.from_flux_density.ys)
                },
            },
    {
        FerromagneticPermeability::from_magnetization(raw_curve.into_magnetization(), curve)
    }

    /// The model whose data `self` is, once the caller has tried to build
    /// its two splines: the reason for which one of them could not be
    /// built is the error, that of the spline over the field strength
    /// first.
    pub fn built(
        self,
        from_field_strength: Result<(), BuildError>,
        from_flux_density: Result<(), BuildError>,
    ) -> (res: Result<Self, InvalidInputData>)
        ensures
            match (from_field_strength, from_flux_density) {
                (Err(error), _) => res == Err::<Self, InvalidInputData>(
                    InvalidInputData::AkimaBuildError(error),
                ),
                (Ok(_), Err(error)) => res == Err::<Self, InvalidInputData>(
                    InvalidInputData::AkimaBuildError(error),
                ),
                (Ok(_), Ok(_)) => res == Ok::<Self, InvalidInputData>(self),
            },
    {
        match from_field_strength {
            Err(error) => Err(InvalidInputData::AkimaBuildError(error)),
            Ok(()) => match from_flux_density {
                Err(error) => Err(InvalidInputData::AkimaBuildError(error)),
                Ok(()) => Ok(self),
            },
        }
    }
}

} // verus!
