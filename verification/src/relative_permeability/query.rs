//! Queries for the permeability.
//!
//! The permeability does not depend on the direction of the field and is
//! never below that of vacuum. A query for it is answered in two steps: the
//! model tells which of its splines is to be evaluated at which magnitude,
//! and the value of the spline is raised to 1 where it is below.

use crate::fixed_point::{absolute, saturating_magnitude, SCALE};
use crate::quantity::{magnetic_field_strength_unit, magnetic_flux_density_unit, Quantity, Unit};
use crate::relative_permeability::model::FerromagneticPermeability;
use crate::spline::SplineData;
use vstd::prelude::*;

verus! {

/// One of the two splines of a [`FerromagneticPermeability`].
#[derive(Clone, Copy, Debug, PartialEq, Eq, Structural)]
pub enum SplineChoice {
    /// The spline `µr(H)`.
    FromFieldStrength,
    /// The spline `µr(B)`.
    FromFluxDensity,
}

/// A magnetic field strength or a magnetic flux density.
#[derive(Clone, Copy, Debug, PartialEq, Eq, Structural)]
pub enum FieldStrengthOrFluxDensity {
    /// A field strength, in billionths of an ampere per meter.
    FieldStrength(i128),
    /// A flux density, in billionths of a tesla.
    FluxDensity(i128),
}

/// The evaluation of a spline that answers a query for the permeability.
#[derive(Clone, Copy, Debug, PartialEq, Eq, Structural)]
pub struct SplineQuery {
    /// The spline to evaluate.
    pub spline: SplineChoice,
    /// Where to evaluate it.
    pub at: i128,
    /// Whether the permeability is the value of the spline raised to 1
    /// where it is below, or the value as it is.
    pub floored: bool,
}

/// The value of the first of `conditions` that has the unit `unit`.
pub open spec fn first_with_unit(conditions: Seq<Quantity>, unit: Unit) -> Option<i128>
    decreases conditions.len(),
{
    if conditions.len() == 0 {
        None
    } else {
        match first_with_unit(conditions.drop_last(), unit) {
            Some(value) => Some(value),
            None => if conditions.last().unit == unit {
                Some(conditions.last().value)
            } else {
                None
            },
        }
    }
}

/// The query that the field strength or flux density `value` leads to: its
/// own spline, at its magnitude, with the floor.
pub open spec fn query_for(value: FieldStrengthOrFluxDensity) -> SplineQuery {
    match value {
        FieldStrengthOrFluxDensity::FieldStrength(field_strength) => SplineQuery {
            spline: SplineChoice::FromFieldStrength,
            at: saturating_magnitude(field_strength as int) as i128,
            floored: true,
        },
        FieldStrengthOrFluxDensity::FluxDensity(flux_density) => SplineQuery {
            spline: SplineChoice::FromFluxDensity,
            at: saturating_magnitude(flux_density as int) as i128,
            floored: true,
        },
    }
}

/// The query that `conditions` lead to: that for the first flux density
/// among them; where there is none, that for the first field strength;
/// where there is neither, the spline over the flux density at zero, as it
/// is.
pub open spec fn query_for_conditions(conditions: Seq<Quantity>) -> SplineQuery {
    match first_with_unit(conditions, magnetic_flux_density_unit()) {
        Some(flux_density) => query_for(FieldStrengthOrFluxDensity::FluxDensity(flux_density)),
        None => match first_with_unit(conditions, magnetic_field_strength_unit()) {
            Some(field_strength) => query_for(
                FieldStrengthOrFluxDensity::FieldStrength(field_strength),
            ),
            None => SplineQuery { spline: SplineChoice::FromFluxDensity, at: 0, floored: false },
        },
    }
}

/// The permeability that the value `interpolated` of the spline of `query`
/// stands for.
pub open spec fn permeability_for(query: SplineQuery, interpolated: i128) -> i128 {
    if query.floored && interpolated < SCALE {
        SCALE
    } else {
        interpolated
    }
}

/// `conditions` with the sign of every value turned round.
pub open spec fn negated(conditions: Seq<Quantity>) -> Seq<Quantity> {
    Seq::new(
        conditions.len(),
        |i: int| Quantity { value: (-conditions[i].value) as i128, unit: conditions[i].unit },
    )
}

/// Finds the value of the first of `conditions` that has the unit `unit`.
pub fn find_first_with_unit(conditions: &Vec<Quantity>, unit: Unit) -> (found: Option<i128>)
    ensures
        found == first_with_unit(conditions@, unit),
{
    let mut i: usize = 0;
    assert(conditions@.subrange(0, 0) =~= Seq::<Quantity>::empty());
    while i < conditions.len()
        invariant
            i <= conditions.len(),
            first_with_unit(conditions@.subrange(0, i as int), unit) is None,
        decreases conditions.len() - i,
    {
        assert(conditions@.subrange(0, i + 1).drop_last() =~= conditions@.subrange(0, i as int));
        if conditions[i].unit == unit {
            proof {
                lemma_first_with_unit_prefix(conditions@, unit, i + 1);
            }
            return Some(conditions[i].value);
        }
        i += 1;
    }
    assert(conditions@.subrange(0, i as int) =~= conditions@);
    None
}

/// A value found among the first `count` conditions is the one found among
/// all of them.
pub proof fn lemma_first_with_unit_prefix(conditions: Seq<Quantity>, unit: Unit, count: int)
    requires
        0 <= count <= conditions.len(),
        first_with_unit(conditions.subrange(0, count), unit) is Some,
    ensures
        first_with_unit(conditions, unit) == first_with_unit(conditions.subrange(0, count), unit),
    decreases conditions.len() - count,
{
    if count < conditions.len() {
        assert(conditions.subrange(0, count + 1).drop_last() =~= conditions.subrange(0, count));
        lemma_first_with_unit_prefix(conditions, unit, count + 1);
    } else {
        assert(conditions.subrange(0, count) =~= conditions);
    }
}

impl SplineQuery {
    /// The query for the relative permeability at the field strength or
    /// flux density `value`.
    pub fn for_value(value: FieldStrengthOrFluxDensity) -> (query: SplineQuery)
        ensures
            query == query_for(value),
            query.at >= 0,
            query.floored,
    {
        match value {
            FieldStrengthOrFluxDensity::FieldStrength(field_strength) => SplineQuery {
                spline: SplineChoice::FromFieldStrength,
                at: absolute(field_strength),
                floored: true,
            },
            FieldStrengthOrFluxDensity::FluxDensity(flux_density) => SplineQuery {
                spline: SplineChoice::FromFluxDensity,
                at: absolute(flux_density),
                floored: true,
            },
        }
    }

    /// The query for the relative permeability under the conditions
    /// `influencing_factors`.
    pub fn for_conditions(influencing_factors: &Vec<Quantity>) -> (query: SplineQuery)
        ensures
            query == query_for_conditions(influencing_factors@),
            query.at >= 0,
    {
        match find_first_with_unit(influencing_factors, Unit::magnetic_flux_density()) {
            Some(flux_density) => SplineQuery::for_value(
                FieldStrengthOrFluxDensity::FluxDensity(flux_density),
            ),
            None => match find_first_with_unit(
                influencing_factors,
                Unit::magnetic_field_strength(),
            ) {
                Some(field_strength) => SplineQuery::for_value(
                    FieldStrengthOrFluxDensity::FieldStrength(field_strength),
                ),
                None => SplineQuery {
                    spline: SplineChoice::FromFluxDensity,
                    at: 0,
                    floored: false,
                },
            },
        }
    }

    /// Turns the value `interpolated` of the spline into the permeability:
    /// where the query asks for the floor, a value below 1 becomes 1.
    pub fn finish(&self, interpolated: i128) -> (permeability: i128)
        ensures
            permeability == permeability_for(*self, interpolated),
            self.floored ==> permeability >= SCALE,
    {
        if self.floored && interpolated < SCALE {
            SCALE
        } else {
            interpolated
        }
    }
}

impl FerromagneticPermeability {
    /// Tells which spline is to be evaluated where for the relative
    /// permeability at the field strength or flux density `value`.
    /// [`SplineQuery::finish`] turns the value of the spline into the
    /// permeability.
    pub fn get(&self, value: FieldStrengthOrFluxDensity) -> (query: SplineQuery)
        ensures
            query == query_for(value),
            query.at >= 0,
            query.floored,
    {
        SplineQuery::for_value(value)
    }

    /// Tells which spline is to be evaluated where for the relative
    /// permeability under the conditions `influencing_factors`.
    /// [`SplineQuery::finish`] turns the value of the spline into the
    /// permeability.
    pub fn call(&self, influencing_factors: &Vec<Quantity>) -> (query: SplineQuery)
        ensures
            query == query_for_conditions(influencing_factors@),
            query.at >= 0,
    {
        SplineQuery::for_conditions(influencing_factors)
    }

    /// The data of the spline that `choice` names.
    pub fn spline(&self, choice: SplineChoice) -> (data: &SplineData)
        ensures
            data@ == match choice {
                SplineChoice::FromFieldStrength => self@.from_field_strength,
                SplineChoice::FromFluxDensity => self@.from_flux_density,
            },
    {
        match choice {
            SplineChoice::FromFieldStrength => &self.from_field_strength,
            SplineChoice::FromFluxDensity => &self.from_flux_density,
        }
    }
}

/// The permeability is the same for a field and for the field of the same
/// strength in the opposite direction: a value and its negation lead to the
/// same query.
pub proof fn lemma_permeability_symmetric(value: i128)
    requires
        value > i128::MIN,
    ensures
        query_for(FieldStrengthOrFluxDensity::FieldStrength(value)) == query_for(
            FieldStrengthOrFluxDensity::FieldStrength((-value) as i128),
        ),
        query_for(FieldStrengthOrFluxDensity::FluxDensity(value)) == query_for(
            FieldStrengthOrFluxDensity::FluxDensity((-value) as i128),
        ),
{
}

/// Conditions and the same conditions with every sign turned round lead to
/// the same query.
pub proof fn lemma_conditions_symmetric(conditions: Seq<Quantity>)
    requires
        forall|i: int| 0 <= i < conditions.len() ==> (#[trigger] conditions[i]).value > i128::MIN,
    ensures
        query_for_conditions(conditions) == query_for_conditions(negated(conditions)),
{
    lemma_first_with_unit_negated(conditions, magnetic_flux_density_unit());
    lemma_first_with_unit_negated(conditions, magnetic_field_strength_unit());
    lemma_first_with_unit_found(conditions, magnetic_flux_density_unit());
    lemma_first_with_unit_found(conditions, magnetic_field_strength_unit());
}

/// A value that is found is the value of one of the conditions, which has
/// the unit.
pub proof fn lemma_first_with_unit_found(conditions: Seq<Quantity>, unit: Unit)
    ensures
        first_with_unit(conditions, unit) matches Some(value) ==> exists|i: int|
            0 <= i < conditions.len() && #[trigger] conditions[i] == (Quantity { value, unit }),
    decreases conditions.len(),
{
    if conditions.len() > 0 {
        let front = conditions.drop_last();
        lemma_first_with_unit_found(front, unit);
        match first_with_unit(front, unit) {
            Some(value) => {
                let i = choose|i: int|
                    0 <= i < front.len() && #[trigger] front[i] == (Quantity { value, unit });
                assert(conditions[i] == front[i]);
            },
            None => {
                if conditions.last().unit == unit {
                    assert(conditions[conditions.len() - 1] == (Quantity {
                        value: conditions.last().value,
                        unit,
                    }));
                }
            },
        }
    }
}

/// The first value with a unit among negated conditions is the negation of
/// the first value with that unit.
pub proof fn lemma_first_with_unit_negated(conditions: Seq<Quantity>, unit: Unit)
    ensures
        first_with_unit(negated(conditions), unit) == match first_with_unit(conditions, unit) {
            Some(value) => Some((-value) as i128),
            None => None,
        },
    decreases conditions.len(),
{
    if conditions.len() > 0 {
        lemma_first_with_unit_negated(conditions.drop_last(), unit);
        assert(negated(conditions).drop_last() =~= negated(conditions.drop_last()));
    }
}

/// The permeability keeps the order of the values of the spline: where the
/// spline does not rise from one place to another, neither does the
/// permeability that a query gives.
pub proof fn lemma_permeability_keeps_order(query: SplineQuery, higher: i128, lower: i128)
    requires
        higher >= lower,
    ensures
        permeability_for(query, higher) >= permeability_for(query, lower),
{
}

/// Whatever value a spline has, the permeability that a query for a field
/// strength or a flux density gives is at least 1.
pub proof fn lemma_permeability_floor(value: FieldStrengthOrFluxDensity, interpolated: i128)
    ensures
        permeability_for(query_for(value), interpolated) >= SCALE,
{
}

} // verus!
