//! The knots of a permeability curve.
//!
//! Sampled points of a magnetization curve are corrected by the iron fill
//! factor and turned into secant permeabilities. The knots before the
//! largest permeability are left out, and the permeabilities after it are
//! made to fall towards larger fields.

use crate::fixed_point::{
    divide, lemma_product_bound, lemma_quotient_bound, lemma_quotient_of_multiple, magnitude,
    quotient, SCALE,
};
use crate::relative_permeability::curve::{
    all_within, flux_density_in_vacuum, lemma_vacuum_flux_density_bound, vacuum_flux_density,
    FIELD_STRENGTH_LIMIT, FLUX_DENSITY_LIMIT, VACUUM_PERMEABILITY_DENOMINATOR,
    VACUUM_PERMEABILITY_NUMERATOR,
};
use crate::relative_permeability::sampling::SAMPLE_COUNT_LIMIT;
use vstd::prelude::*;

verus! {

/// Largest magnitude of a secant permeability between points within the
/// limits of their quantities.
pub const PERMEABILITY_LIMIT: i128 = 10_000_000_000_000_000_000_000_000_000;

/// The flux density in a stack of sheets with the iron fill factor
/// `iron_fill_factor`, of which the iron carries `flux_density` at
/// `field_strength` and the insulation what vacuum would:
/// `B · f + (1 - f) · µ0 · H`.
pub open spec fn reduced_flux_density(
    field_strength: int,
    flux_density: int,
    iron_fill_factor: int,
) -> int {
    quotient(
        flux_density * iron_fill_factor + (SCALE - iron_fill_factor) * vacuum_flux_density(
            field_strength,
        ),
        SCALE as int,
    )
}

/// The secant permeability `B / (µ0 · H)` at a positive field strength.
pub open spec fn secant_permeability(field_strength: int, flux_density: int) -> int
    recommends
        field_strength > 0,
{
    quotient(
        flux_density * (VACUUM_PERMEABILITY_DENOMINATOR * SCALE),
        VACUUM_PERMEABILITY_NUMERATOR * field_strength,
    )
}

/// Within the limits of the field strength and the flux density, the flux
/// density in a stack is within the limit of the flux density.
pub proof fn lemma_reduced_flux_density(
    field_strength: int,
    flux_density: int,
    iron_fill_factor: int,
)
    requires
        magnitude(field_strength) <= FIELD_STRENGTH_LIMIT,
        magnitude(flux_density) <= FLUX_DENSITY_LIMIT,
        0 <= iron_fill_factor <= SCALE,
    ensures
        magnitude(flux_density * iron_fill_factor) <= FLUX_DENSITY_LIMIT * iron_fill_factor,
        magnitude((SCALE - iron_fill_factor) * vacuum_flux_density(field_strength)) <= (SCALE
            - iron_fill_factor) * FLUX_DENSITY_LIMIT,
        magnitude(
            flux_density * iron_fill_factor + (SCALE - iron_fill_factor) * vacuum_flux_density(
                field_strength,
            ),
        ) <= FLUX_DENSITY_LIMIT * SCALE,
        magnitude(reduced_flux_density(field_strength, flux_density, iron_fill_factor))
            <= FLUX_DENSITY_LIMIT,
{
    let vacuum = vacuum_flux_density(field_strength);
    let air = SCALE - iron_fill_factor;
    lemma_vacuum_flux_density_bound(field_strength);
    lemma_product_bound(
        flux_density,
        iron_fill_factor,
        FLUX_DENSITY_LIMIT as int,
        iron_fill_factor,
    );
    lemma_product_bound(air, vacuum, air, FLUX_DENSITY_LIMIT as int);
    assert(FLUX_DENSITY_LIMIT * iron_fill_factor + air * FLUX_DENSITY_LIMIT == FLUX_DENSITY_LIMIT
        * SCALE) by (nonlinear_arith)
        requires
            air == SCALE - iron_fill_factor,
    ;
    lemma_quotient_bound(
        flux_density * iron_fill_factor + air * vacuum,
        SCALE as int,
        FLUX_DENSITY_LIMIT as int,
    );
}

/// A stack without insulation carries the flux density of the iron: with
/// the iron fill factor 1 the correction changes nothing.
pub proof fn lemma_fill_factor_one(field_strength: int, flux_density: int)
    ensures
        reduced_flux_density(field_strength, flux_density, SCALE as int) == flux_density,
{
    assert((SCALE - SCALE) * vacuum_flux_density(field_strength) == 0) by (nonlinear_arith);
    lemma_quotient_of_multiple(flux_density, SCALE as int);
}

/// Within the limits of the field strength and the flux density, the
/// secant permeability at a positive field strength is within its limit.
pub proof fn lemma_secant_permeability(field_strength: int, flux_density: int)
    requires
        0 < field_strength <= FIELD_STRENGTH_LIMIT,
        magnitude(flux_density) <= FLUX_DENSITY_LIMIT,
    ensures
        magnitude(flux_density * (VACUUM_PERMEABILITY_DENOMINATOR * SCALE)) <= FLUX_DENSITY_LIMIT
            * (VACUUM_PERMEABILITY_DENOMINATOR * SCALE),
        0 < VACUUM_PERMEABILITY_NUMERATOR * field_strength <= VACUUM_PERMEABILITY_NUMERATOR
            * FIELD_STRENGTH_LIMIT,
        magnitude(secant_permeability(field_strength, flux_density)) <= PERMEABILITY_LIMIT,
{
    let factor = VACUUM_PERMEABILITY_DENOMINATOR * SCALE;
    lemma_product_bound(flux_density, factor, FLUX_DENSITY_LIMIT as int, factor);
    assert(VACUUM_PERMEABILITY_NUMERATOR <= VACUUM_PERMEABILITY_NUMERATOR * field_strength
        <= VACUUM_PERMEABILITY_NUMERATOR * FIELD_STRENGTH_LIMIT) by (nonlinear_arith)
        requires
            0 < field_strength <= FIELD_STRENGTH_LIMIT,
    ;
    assert(PERMEABILITY_LIMIT * VACUUM_PERMEABILITY_NUMERATOR <= PERMEABILITY_LIMIT * (
    VACUUM_PERMEABILITY_NUMERATOR * field_strength)) by (nonlinear_arith)
        requires
            VACUUM_PERMEABILITY_NUMERATOR <= VACUUM_PERMEABILITY_NUMERATOR * field_strength,
    ;
    lemma_quotient_bound(
        flux_density * factor,
        VACUUM_PERMEABILITY_NUMERATOR * field_strength,
        PERMEABILITY_LIMIT as int,
    );
}

/// Computes the flux density in a stack of sheets.
pub(crate) fn flux_density_in_stack(
    field_strength: i128,
    flux_density: i128,
    iron_fill_factor: i128,
) -> (reduced: i128)
    requires
        magnitude(field_strength as int) <= FIELD_STRENGTH_LIMIT,
        magnitude(flux_density as int) <= FLUX_DENSITY_LIMIT,
        0 <= iron_fill_factor <= SCALE,
    ensures
        reduced == reduced_flux_density(
            field_strength as int,
            flux_density as int,
            iron_fill_factor as int,
        ),
        magnitude(reduced as int) <= FLUX_DENSITY_LIMIT,
{
    let vacuum: i128 = flux_density_in_vacuum(field_strength);
    let air: i128 = SCALE - iron_fill_factor;
    proof {
        lemma_reduced_flux_density(
            field_strength as int,
            flux_density as int,
            iron_fill_factor as int,
        );
        assert(FLUX_DENSITY_LIMIT * iron_fill_factor <= FLUX_DENSITY_LIMIT * SCALE)
            by (nonlinear_arith)
            requires
                0 <= iron_fill_factor <= SCALE,
        ;
        assert(air * FLUX_DENSITY_LIMIT <= FLUX_DENSITY_LIMIT * SCALE) by (nonlinear_arith)
            requires
                0 <= air <= SCALE,
        ;
    }
    divide(flux_density * iron_fill_factor + air * vacuum, SCALE)
}

/// Computes the secant permeability at a positive field strength.
pub(crate) fn permeability_at(field_strength: i128, flux_density: i128) -> (permeability: i128)
    requires
        0 < field_strength <= FIELD_STRENGTH_LIMIT,
        magnitude(flux_density as int) <= FLUX_DENSITY_LIMIT,
    ensures
        permeability == secant_permeability(field_strength as int, flux_density as int),
        magnitude(permeability as int) <= PERMEABILITY_LIMIT,
{
    let factor: i128 = VACUUM_PERMEABILITY_DENOMINATOR * SCALE;
    proof {
        lemma_secant_permeability(field_strength as int, flux_density as int);
    }
    divide(flux_density * factor, VACUUM_PERMEABILITY_NUMERATOR * field_strength)
}

/// Knots of a permeability curve: field strengths, the flux densities in
/// the stack at them, and the secant permeabilities.
pub struct Knots {
    /// Field strengths, all positive.
    pub field_strength: Seq<i128>,
    /// Flux densities, corrected by the iron fill factor.
    pub induction: Seq<i128>,
    /// Secant permeabilities.
    pub permeability: Seq<i128>,
}

/// The knots that sampled points give: the first point, the origin, has no
/// secant and is left out; at every other point the flux density is
/// corrected by the iron fill factor and divided by `µ0 · H`.
pub open spec fn measured_knots(
    field_strength: Seq<i128>,
    flux_density: Seq<i128>,
    iron_fill_factor: int,
) -> Knots {
    let induction = Seq::new(
        (field_strength.len() - 1) as nat,
        |i: int|
            reduced_flux_density(
                field_strength[i + 1] as int,
                flux_density[i + 1] as int,
                iron_fill_factor,
            ) as i128,
    );
    Knots {
        field_strength: field_strength.skip(1),
        induction,
        permeability: Seq::new(
            (field_strength.len() - 1) as nat,
            |i: int| secant_permeability(field_strength[i + 1] as int, induction[i] as int) as i128,
        ),
    }
}

/// Whether sampled points are such that their knots can be computed: as
/// many flux densities as field strengths, at least one point, every field
/// strength after the first positive, and all values within their limits.
pub open spec fn samples_within_limits(field_strength: Seq<i128>, flux_density: Seq<i128>) -> bool {
    &&& field_strength.len() == flux_density.len()
    &&& field_strength.len() >= 1
    &&& forall|i: int|
        1 <= i < field_strength.len() ==> 0 < #[trigger] field_strength[i] <= FIELD_STRENGTH_LIMIT
    &&& all_within(flux_density, FLUX_DENSITY_LIMIT as int)
}

/// The knots of samples within their limits are within the limits of the
/// flux density and of the permeability; there is one for each sample but
/// the first.
pub proof fn lemma_measured_knots(
    field_strength: Seq<i128>,
    flux_density: Seq<i128>,
    iron_fill_factor: int,
)
    requires
        samples_within_limits(field_strength, flux_density),
        0 <= iron_fill_factor <= SCALE,
    ensures
        ({
            let knots = measured_knots(field_strength, flux_density, iron_fill_factor);
            &&& knots.field_strength.len() == field_strength.len() - 1
            &&& knots.induction.len() == field_strength.len() - 1
            &&& knots.permeability.len() == field_strength.len() - 1
            &&& all_within(knots.induction, FLUX_DENSITY_LIMIT as int)
            &&& all_within(knots.permeability, PERMEABILITY_LIMIT as int)
            &&& forall|i: int|
                0 <= i < knots.induction.len() ==> #[trigger] knots.induction[i]
                    == reduced_flux_density(
                    field_strength[i + 1] as int,
                    flux_density[i + 1] as int,
                    iron_fill_factor,
                )
        }),
{
    let knots = measured_knots(field_strength, flux_density, iron_fill_factor);
    assert forall|i: int| 0 <= i < knots.induction.len() implies -FLUX_DENSITY_LIMIT
        <= #[trigger] knots.induction[i] <= FLUX_DENSITY_LIMIT && knots.induction[i]
        == reduced_flux_density(
        field_strength[i + 1] as int,
        flux_density[i + 1] as int,
        iron_fill_factor,
    ) by {
        assert(0 < field_strength[i + 1] <= FIELD_STRENGTH_LIMIT);
        assert(-FLUX_DENSITY_LIMIT <= flux_density[i + 1] <= FLUX_DENSITY_LIMIT);
        lemma_reduced_flux_density(
            field_strength[i + 1] as int,
            flux_density[i + 1] as int,
            iron_fill_factor,
        );
    }
    assert forall|i: int| 0 <= i < knots.permeability.len() implies -PERMEABILITY_LIMIT
        <= #[trigger] knots.permeability[i] <= PERMEABILITY_LIMIT by {
        assert(0 < field_strength[i + 1] <= FIELD_STRENGTH_LIMIT);
        assert(-FLUX_DENSITY_LIMIT <= knots.induction[i] <= FLUX_DENSITY_LIMIT);
        lemma_secant_permeability(field_strength[i + 1] as int, knots.induction[i] as int);
    }
}

/// The flux densities of sampled points after the correction by the iron
/// fill factor; the first point, the origin, stays.
pub open spec fn corrected_samples(
    field_strength: Seq<i128>,
    flux_density: Seq<i128>,
    iron_fill_factor: int,
) -> Seq<i128> {
    Seq::new(
        flux_density.len(),
        |i: int|
            if i == 0 {
                flux_density[0]
            } else {
                reduced_flux_density(
                    field_strength[i] as int,
                    flux_density[i] as int,
                    iron_fill_factor,
                ) as i128
            },
    )
}

/// Samples with an iron fill factor give the knots that the corrected
/// samples give with the iron fill factor 1.
pub proof fn lemma_corrected_samples(
    field_strength: Seq<i128>,
    flux_density: Seq<i128>,
    iron_fill_factor: int,
)
    requires
        samples_within_limits(field_strength, flux_density),
        0 <= iron_fill_factor <= SCALE,
    ensures
        measured_knots(field_strength, flux_density, iron_fill_factor) == measured_knots(
            field_strength,
            corrected_samples(field_strength, flux_density, iron_fill_factor),
            SCALE as int,
        ),
{
    let corrected = corrected_samples(field_strength, flux_density, iron_fill_factor);
    let with_factor = measured_knots(field_strength, flux_density, iron_fill_factor);
    let without = measured_knots(field_strength, corrected, SCALE as int);
    lemma_measured_knots(field_strength, flux_density, iron_fill_factor);
    assert forall|i: int| 0 <= i < with_factor.induction.len() implies with_factor.induction[i]
        == without.induction[i] by {
        lemma_fill_factor_one(field_strength[i + 1] as int, corrected[i + 1] as int);
    }
    assert(with_factor.induction =~= without.induction);
    assert(with_factor.permeability =~= without.permeability);
    assert(with_factor.field_strength =~= without.field_strength);
}

/// Computes the knots that sampled points give.
pub(crate) fn knots_of_samples(
    field_strength: &Vec<i128>,
    flux_density: &Vec<i128>,
    iron_fill_factor: i128,
) -> (knots: (Vec<i128>, Vec<i128>, Vec<i128>))
    requires
        field_strength.len() == flux_density.len(),
        field_strength.len() >= 1,
        forall|i: int|
            1 <= i < field_strength.len() ==> 0 < #[trigger] field_strength@[i]
                <= FIELD_STRENGTH_LIMIT,
        all_within(flux_density@, FLUX_DENSITY_LIMIT as int),
        0 <= iron_fill_factor <= SCALE,
    ensures
        (Knots { field_strength: knots.0@, induction: knots.1@, permeability: knots.2@ })
            == measured_knots(field_strength@, flux_density@, iron_fill_factor as int),
        all_within(knots.1@, FLUX_DENSITY_LIMIT as int),
        all_within(knots.2@, PERMEABILITY_LIMIT as int),
{
    let ghost expected = measured_knots(field_strength@, flux_density@, iron_fill_factor as int);
    let mut h: Vec<i128> = Vec::new();
    let mut b: Vec<i128> = Vec::new();
    let mut mu: Vec<i128> = Vec::new();
    let mut i: usize = 1;
    while i < field_strength.len()
        invariant
            field_strength.len() == flux_density.len(),
            1 <= i <= field_strength.len(),
            forall|j: int|
                1 <= j < field_strength.len() ==> 0 < #[trigger] field_strength@[j]
                    <= FIELD_STRENGTH_LIMIT,
            all_within(flux_density@, FLUX_DENSITY_LIMIT as int),
            0 <= iron_fill_factor <= SCALE,
            expected == measured_knots(field_strength@, flux_density@, iron_fill_factor as int),
            h.len() == i - 1,
            b.len() == i - 1,
            mu.len() == i - 1,
            forall|j: int| 0 <= j < i - 1 ==> h@[j] == expected.field_strength[j],
            forall|j: int| 0 <= j < i - 1 ==> b@[j] == expected.induction[j],
            forall|j: int| 0 <= j < i - 1 ==> mu@[j] == expected.permeability[j],
            all_within(b@, FLUX_DENSITY_LIMIT as int),
            all_within(mu@, PERMEABILITY_LIMIT as int),
        decreases field_strength.len() - i,
    {
        let hi: i128 = field_strength[i];
        let bi: i128 = flux_density[i];
        let b_red: i128 = flux_density_in_stack(hi, bi, iron_fill_factor);
        let mu_r: i128 = permeability_at(hi, b_red);
        h.push(hi);
        b.push(b_red);
        mu.push(mu_r);
        i += 1;
    }
    assert(h@ =~= expected.field_strength);
    assert(b@ =~= expected.induction);
    assert(mu@ =~= expected.permeability);
    (h, b, mu)
}

/// The index of the first largest element among the first `count` elements
/// of `values`.
pub open spec fn first_maximum(values: Seq<i128>, count: nat) -> int
    decreases count,
{
    if count <= 1 {
        0
    } else {
        let before = first_maximum(values, (count - 1) as nat);
        if values[count - 1] > values[before] {
            count - 1
        } else {
            before
        }
    }
}

/// The first maximum is an index below `count`; no element before it
/// reaches its value and none after it exceeds it.
pub proof fn lemma_first_maximum(values: Seq<i128>, count: nat)
    requires
        1 <= count <= values.len(),
    ensures
        0 <= first_maximum(values, count) < count,
        forall|i: int|
            0 <= i < count ==> #[trigger] values[i] <= values[first_maximum(values, count)],
        forall|i: int|
            0 <= i < first_maximum(values, count) ==> #[trigger] values[i] < values[first_maximum(
                values,
                count,
            )],
    decreases count,
{
    if count > 1 {
        lemma_first_maximum(values, (count - 1) as nat);
    }
}

/// Finds the first largest element of `values`.
pub(crate) fn index_of_first_maximum(values: &Vec<i128>) -> (index: usize)
    requires
        values.len() >= 1,
    ensures
        index == first_maximum(values@, values.len() as nat),
        index < values.len(),
{
    let mut index: usize = 0;
    let mut i: usize = 1;
    while i < values.len()
        invariant
            1 <= i <= values.len(),
            index < i,
            index == first_maximum(values@, i as nat),
        decreases values.len() - i,
    {
        if values[i] > values[index] {
            index = i;
        }
        i += 1;
    }
    index
}

/// Copies the elements of `values` from the index `first` on.
pub(crate) fn tail_from(values: &Vec<i128>, first: usize) -> (tail: Vec<i128>)
    requires
        first <= values.len(),
    ensures
        tail@ == values@.skip(first as int),
{
    let mut tail: Vec<i128> = Vec::new();
    let mut i: usize = first;
    while i < values.len()
        invariant
            first <= i <= values.len(),
            tail.len() == i - first,
            forall|j: int| 0 <= j < i - first ==> tail@[j] == values@[first + j],
        decreases values.len() - i,
    {
        tail.push(values[i]);
        i += 1;
    }
    assert(tail@ =~= values@.skip(first as int));
    tail
}

/// The value that continues two values with the step between them: `near`
/// is as far from the result as `far` is from `near`.
pub open spec fn mirrored(near: int, far: int) -> int {
    near + (near - far)
}

/// The permeabilities `permeability` after the knots from `index` on have
/// been made to fall towards larger fields.
///
/// The knots are gone through from the third last down to `index`. A knot
/// whose permeability is below that of its successor gets the permeability
/// that continues the two knots after it with the step between them. The
/// last two knots have no two successors and are not touched here, see
/// [`settled`].
pub open spec fn repaired_from(permeability: Seq<i128>, index: int) -> Seq<i128>
    decreases permeability.len() - index,
{
    if index < 0 || index + 2 >= permeability.len() {
        permeability
    } else {
        let after = repaired_from(permeability, index + 1);
        if after[index] < after[index + 1] {
            after.update(index, mirrored(after[index + 1] as int, after[index + 2] as int) as i128)
        } else {
            after
        }
    }
}

/// The permeabilities `permeability` with the last two made to fall: the
/// last knot has no successor and the one before it has only one, so there
/// is no step to continue. Where the permeability before the last is below
/// the last, it takes the value of the last; the last stays as measured.
pub open spec fn settled(permeability: Seq<i128>) -> Seq<i128> {
    let n = permeability.len() as int;
    if n >= 2 && permeability[n - 2] < permeability[n - 1] {
        permeability.update(n - 2, permeability[n - 1])
    } else {
        permeability
    }
}

/// The permeabilities `permeability` after all knots have been made to fall
/// towards larger fields: first the last two, see [`settled`], then all
/// knots before them from the back to the front, see [`repaired_from`].
pub open spec fn repaired(permeability: Seq<i128>) -> Seq<i128> {
    repaired_from(settled(permeability), 0)
}

/// By how much repairs may have raised a permeability that has `knots_after`
/// knots after it: by four times the limit for each of them.
pub open spec fn room_for_repairs(knots_after: int) -> int {
    4 * PERMEABILITY_LIMIT * knots_after
}

/// The room for repairs grows by four times the limit with each knot, and
/// with the largest number of knots it is still far from the largest
/// number that can be represented.
proof fn lemma_room_for_repairs(knots_after: int)
    requires
        0 <= knots_after <= SAMPLE_COUNT_LIMIT,
    ensures
        room_for_repairs(knots_after + 1) == room_for_repairs(knots_after) + 4
            * PERMEABILITY_LIMIT,
        0 <= room_for_repairs(knots_after) <= 4 * PERMEABILITY_LIMIT * SAMPLE_COUNT_LIMIT,
        room_for_repairs(0) == 0,
{
    assert(4 * PERMEABILITY_LIMIT * (knots_after + 1) == 4 * PERMEABILITY_LIMIT * knots_after + 4
        * PERMEABILITY_LIMIT) by (nonlinear_arith);
    assert(0 <= 4 * PERMEABILITY_LIMIT * knots_after <= 4 * PERMEABILITY_LIMIT
        * SAMPLE_COUNT_LIMIT) by (nonlinear_arith)
        requires
            0 <= knots_after <= SAMPLE_COUNT_LIMIT,
    ;
}

/// What holds of permeabilities `after` that were repaired from `index` on,
/// if the measured `permeability` is within its limit: the number of knots
/// is kept, as are the knots before `index` and the last two; and no
/// permeability has left the range that is written here, in which none is
/// cut off. The range grows with the number of knots after a knot, since
/// each repair may add the step between two knots once more.
pub open spec fn repair_kept_in_range(
    after: Seq<i128>,
    permeability: Seq<i128>,
    index: int,
) -> bool {
    let n = permeability.len() as int;
    &&& after.len() == n
    &&& forall|j: int| 0 <= j < index && j < n ==> #[trigger] after[j] == permeability[j]
    &&& forall|j: int| n - 2 <= j < n && 0 <= j ==> #[trigger] after[j] == permeability[j]
    &&& forall|j: int|
        0 <= j < n ==> -3 * PERMEABILITY_LIMIT <= #[trigger] after[j] <= PERMEABILITY_LIMIT
            + room_for_repairs(n - 1 - j)
    &&& forall|j: int|
        index <= j < n - 1 ==> -2 * PERMEABILITY_LIMIT <= after[j] - #[trigger] after[j + 1] <= 4
            * PERMEABILITY_LIMIT
}

/// One repair keeps the permeabilities in range.
proof fn lemma_repair_step(before: Seq<i128>, permeability: Seq<i128>, index: int)
    requires
        0 <= index,
        index + 2 < permeability.len() <= SAMPLE_COUNT_LIMIT + 1,
        all_within(permeability, PERMEABILITY_LIMIT as int),
        repair_kept_in_range(before, permeability, index + 1),
    ensures
        -i128::MAX <= mirrored(before[index + 1] as int, before[index + 2] as int) <= i128::MAX,
        before[index] < before[index + 1] ==> repair_kept_in_range(
            before.update(
                index,
                mirrored(before[index + 1] as int, before[index + 2] as int) as i128,
            ),
            permeability,
            index,
        ),
        before[index] >= before[index + 1] ==> repair_kept_in_range(before, permeability, index),
{
    let n = permeability.len() as int;
    let near = before[index + 1] as int;
    let far = before[index + 2] as int;
    let own = before[index] as int;
    assert(own == permeability[index]);
    assert(-PERMEABILITY_LIMIT <= permeability[index] <= PERMEABILITY_LIMIT);
    lemma_room_for_repairs(n - 2 - index);
    assert(-3 * PERMEABILITY_LIMIT <= near <= PERMEABILITY_LIMIT + room_for_repairs(
        n - 1 - (index + 1),
    ));
    assert(-3 * PERMEABILITY_LIMIT <= far);
    assert(-2 * PERMEABILITY_LIMIT <= near - far <= 4 * PERMEABILITY_LIMIT) by {
        assert(before[(index + 1) + 1] == far);
    }
    let value = mirrored(near, far);
    assert(n - 1 - index == (n - 2 - index) + 1);
    assert(value <= PERMEABILITY_LIMIT + room_for_repairs(n - 1 - index));
    assert(value <= 5 * PERMEABILITY_LIMIT + 4 * PERMEABILITY_LIMIT * SAMPLE_COUNT_LIMIT);
    if own < near {
        let after = before.update(index, value as i128);
        assert(value >= -3 * PERMEABILITY_LIMIT);
        assert(after[index] == value);
        assert forall|j: int| 0 <= j < n implies -3 * PERMEABILITY_LIMIT <= #[trigger] after[j]
            <= PERMEABILITY_LIMIT + room_for_repairs(n - 1 - j) by {
            if j != index {
                assert(after[j] == before[j]);
            }
        }
        assert forall|j: int| index <= j < n - 1 implies -2 * PERMEABILITY_LIMIT <= after[j]
            - #[trigger] after[j + 1] <= 4 * PERMEABILITY_LIMIT by {
            if j > index {
                assert(after[j] == before[j]);
                assert(after[j + 1] == before[j + 1]);
            } else {
                assert(after[j + 1] == near);
            }
        }
        assert forall|j: int| n - 2 <= j < n && 0 <= j implies #[trigger] after[j]
            == permeability[j] by {
            assert(after[j] == before[j]);
        }
        assert forall|j: int| 0 <= j < index && j < n implies #[trigger] after[j]
            == permeability[j] by {
            assert(after[j] == before[j]);
        }
    } else {
        assert forall|j: int| index <= j < n - 1 implies -2 * PERMEABILITY_LIMIT <= before[j]
            - #[trigger] before[j + 1] <= 4 * PERMEABILITY_LIMIT by {
            if j == index {
                assert(before[j + 1] == near);
            }
        }
    }
}

/// Repairing keeps the permeabilities in range.
proof fn lemma_repaired_from(permeability: Seq<i128>, index: int)
    requires
        0 <= index,
        permeability.len() <= SAMPLE_COUNT_LIMIT + 1,
        all_within(permeability, PERMEABILITY_LIMIT as int),
    ensures
        repair_kept_in_range(repaired_from(permeability, index), permeability, index),
    decreases permeability.len() - index,
{
    let n = permeability.len() as int;
    if index + 2 >= n {
        assert forall|j: int| index <= j < n - 1 implies -2 * PERMEABILITY_LIMIT <= permeability[j]
            - #[trigger] permeability[j + 1] <= 4 * PERMEABILITY_LIMIT by {
            assert(-PERMEABILITY_LIMIT <= permeability[j] <= PERMEABILITY_LIMIT);
        }
        assert forall|j: int| 0 <= j < n implies -3 * PERMEABILITY_LIMIT
            <= #[trigger] permeability[j] <= PERMEABILITY_LIMIT + room_for_repairs(n - 1 - j) by {
            lemma_room_for_repairs(n - 1 - j);
        }
    } else {
        lemma_repaired_from(permeability, index + 1);
        lemma_repair_step(repaired_from(permeability, index + 1), permeability, index);
    }
}

/// Where the last two permeabilities do not rise, as it is after they were
/// settled, no permeability is below its successor after the repair.
proof fn lemma_repaired_falls(permeability: Seq<i128>, index: int)
    requires
        0 <= index,
        permeability.len() <= SAMPLE_COUNT_LIMIT + 1,
        all_within(permeability, PERMEABILITY_LIMIT as int),
        permeability.len() >= 2 ==> permeability[permeability.len() - 2]
            >= permeability[permeability.len() - 1],
    ensures
        forall|j: int|
            index <= j < permeability.len() - 1 ==> repaired_from(permeability, index)[j]
                >= #[trigger] repaired_from(permeability, index)[j + 1],
    decreases permeability.len() - index,
{
    let n = permeability.len() as int;
    let after = repaired_from(permeability, index);
    lemma_repaired_from(permeability, index);
    if index + 2 < n {
        let before = repaired_from(permeability, index + 1);
        lemma_repaired_falls(permeability, index + 1);
        lemma_repaired_from(permeability, index + 1);
        lemma_repair_step(before, permeability, index);
        assert(before[index + 1] >= before[(index + 1) + 1]);
        assert forall|j: int| index <= j < n - 1 implies after[j] >= #[trigger] after[j + 1] by {
            if j > index {
                assert(after[j] == before[j]);
                assert(after[j + 1] == before[j + 1]);
            }
        }
    } else {
        assert forall|j: int| index <= j < n - 1 implies after[j] >= #[trigger] after[j + 1] by {
            assert(j == n - 2);
        }
    }
}

/// After the repair no permeability is below its successor. The number of
/// knots and the last permeability are kept, and every permeability stays
/// in the range in which none is cut off.
pub proof fn lemma_repaired(permeability: Seq<i128>)
    requires
        permeability.len() <= SAMPLE_COUNT_LIMIT + 1,
        all_within(permeability, PERMEABILITY_LIMIT as int),
    ensures
        repaired(permeability).len() == permeability.len(),
        permeability.len() >= 1 ==> repaired(permeability).last() == permeability.last(),
        forall|j: int|
            0 <= j < permeability.len() - 1 ==> repaired(permeability)[j]
                >= #[trigger] repaired(permeability)[j + 1],
        repair_kept_in_range(repaired(permeability), settled(permeability), 0),
        all_within(settled(permeability), PERMEABILITY_LIMIT as int),
{
    let n = permeability.len() as int;
    let start = settled(permeability);
    assert forall|i: int| 0 <= i < start.len() implies -PERMEABILITY_LIMIT <= #[trigger] start[i]
        <= PERMEABILITY_LIMIT by {
        if n >= 2 && i == n - 2 {
            assert(-PERMEABILITY_LIMIT <= permeability[n - 1] <= PERMEABILITY_LIMIT);
            assert(-PERMEABILITY_LIMIT <= permeability[n - 2] <= PERMEABILITY_LIMIT);
        } else {
            assert(start[i] == permeability[i]);
        }
    }
    if n >= 2 {
        assert(start[n - 2] >= start[n - 1]);
        assert(start[n - 1] == permeability[n - 1]);
    }
    lemma_repaired_from(start, 0);
    lemma_repaired_falls(start, 0);
    if n >= 1 {
        assert(repaired(permeability)[n - 1] == start[n - 1]);
    }
}

/// Makes the permeabilities fall towards larger fields.
pub(crate) fn repair(permeability: Vec<i128>) -> (fixed: Vec<i128>)
    requires
        permeability.len() <= SAMPLE_COUNT_LIMIT + 1,
        all_within(permeability@, PERMEABILITY_LIMIT as int),
    ensures
        fixed@ == repaired(permeability@),
        fixed.len() == permeability.len(),
        permeability.len() >= 1 ==> fixed@.last() == permeability@.last(),
        forall|j: int| 0 <= j < fixed.len() - 1 ==> fixed@[j] >= #[trigger] fixed@[j + 1],
{
    proof {
        lemma_repaired(permeability@);
    }
    let ghost measured = settled(permeability@);
    let mut fixed = permeability;
    let n: usize = fixed.len();
    if n >= 2 && fixed[n - 2] < fixed[n - 1] {
        let last: i128 = fixed[n - 1];
        fixed.set(n - 2, last);
    }
    assert(fixed@ =~= measured);
    if n <= 2 {
        return fixed;
    }
    let mut idx: usize = n - 2;
    while idx > 0
        invariant
            measured.len() <= SAMPLE_COUNT_LIMIT + 1,
            all_within(measured, PERMEABILITY_LIMIT as int),
            fixed.len() == measured.len(),
            fixed.len() > 2,
            idx <= fixed.len() - 2,
            fixed@ == repaired_from(measured, idx as int),
        decreases idx,
    {
        idx -= 1;
        proof {
            lemma_repaired_from(measured, idx + 1);
            lemma_repair_step(fixed@, measured, idx as int);
        }
        let near: i128 = fixed[idx + 1];
        let far: i128 = fixed[idx + 2];
        if fixed[idx] < near {
            let value: i128 = near + (near - far);
            fixed.set(idx, value);
        }
    }
    fixed
}

} // verus!
