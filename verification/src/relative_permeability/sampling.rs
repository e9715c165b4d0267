//! Sampling of a magnetization curve.
//!
//! The spline through the measured points is probed at every multiple of
//! [`SAMPLE_STEP_WIDTH`] up to the largest measured field strength. Of the
//! probed points those are retained at which the secant permeability has
//! changed by more than a tolerance since the last retained point, so that
//! the points lie close where the permeability changes fast.

use crate::fixed_point::{absolute, lemma_product_bound, magnitude, SCALE};
use crate::relative_permeability::curve::{all_within, FIELD_STRENGTH_LIMIT, FLUX_DENSITY_LIMIT};
use vstd::prelude::*;

verus! {

/// Distance between two field strengths at which a magnetization curve is
/// probed: 10 A/m.
pub const SAMPLE_STEP_WIDTH: i128 = 10_000_000_000;

/// Change of the permeability between two retained samples, as a fraction of
/// the permeability, above which a sample is retained: 2 %.
pub const CHANGE_TOLERANCE: i128 = 20_000_000;

/// Largest number of field strengths at which a curve is probed: the last of
/// them is the limit of the field strength.
pub const SAMPLE_COUNT_LIMIT: usize = 100_000;

/// The largest element of a sequence that is not empty.
pub open spec fn largest(values: Seq<i128>) -> i128
    decreases values.len(),
{
    if values.len() <= 1 {
        values[0]
    } else {
        let before = largest(values.drop_last());
        if before > values.last() {
            before
        } else {
            values.last()
        }
    }
}

/// The largest element is an element, and no element is larger.
pub proof fn lemma_largest(values: Seq<i128>)
    requires
        values.len() > 0,
    ensures
        exists|i: int| 0 <= i < values.len() && values[i] == largest(values),
        forall|i: int| 0 <= i < values.len() ==> values[i] <= largest(values),
    decreases values.len(),
{
    if values.len() > 1 {
        let front = values.drop_last();
        lemma_largest(front);
        let i = choose|i: int| 0 <= i < front.len() && front[i] == largest(front);
        assert(values[i] == front[i]);
        assert(values[values.len() - 1] == values.last());
        assert forall|j: int| 0 <= j < values.len() implies values[j] <= largest(values) by {
            if j < front.len() {
                assert(values[j] == front[j]);
            }
        }
    } else {
        assert(values[0] == largest(values));
    }
}

/// Finds the largest element of `values`.
pub fn largest_of(values: &Vec<i128>) -> (max: i128)
    requires
        values.len() > 0,
    ensures
        max == largest(values@),
{
    let mut max: i128 = values[0];
    let mut i: usize = 1;
    assert(values@.subrange(0, 1).len() == 1);
    assert(values@.subrange(0, 1)[0] == values@[0]);
    while i < values.len()
        invariant
            1 <= i <= values.len(),
            max == largest(values@.subrange(0, i as int)),
        decreases values.len() - i,
    {
        assert(values@.subrange(0, i + 1).drop_last() =~= values@.subrange(0, i as int));
        if !(max > values[i]) {
            max = values[i];
        }
        i += 1;
    }
    assert(values@.subrange(0, values.len() as int) =~= values@);
    max
}

/// The `index`-th field strength at which a curve is probed, counted from
/// zero: the multiples of [`SAMPLE_STEP_WIDTH`], without zero.
pub open spec fn sample_position(index: int) -> int {
    (index + 1) * SAMPLE_STEP_WIDTH
}

/// The number of field strengths at which a curve is probed whose largest
/// measured field strength is `max_field_strength`: the first step is always
/// probed, every later one unless it exceeds the largest field strength.
pub open spec fn sample_count(max_field_strength: int) -> nat {
    if max_field_strength < 2 * SAMPLE_STEP_WIDTH {
        1
    } else {
        (max_field_strength / (SAMPLE_STEP_WIDTH as int)) as nat
    }
}

/// The field strengths at which a curve with the largest measured field
/// strength `max_field_strength` is probed, in ascending order.
pub open spec fn sample_positions(max_field_strength: int) -> Seq<i128> {
    Seq::new(sample_count(max_field_strength), |i: int| sample_position(i) as i128)
}

/// Lists the field strengths at which the curve through the measured
/// `field_strength` values is to be evaluated before it is sampled.
pub fn positions_to_sample(field_strength: &Vec<i128>) -> (positions: Vec<i128>)
    requires
        field_strength.len() > 0,
        all_within(field_strength@, FIELD_STRENGTH_LIMIT as int),
    ensures
        positions@ == sample_positions(largest(field_strength@) as int),
        1 <= positions.len() <= SAMPLE_COUNT_LIMIT,
{
    let max: i128 = largest_of(field_strength);
    proof {
        lemma_largest(field_strength@);
    }
    let mut positions: Vec<i128> = Vec::new();
    positions.push(SAMPLE_STEP_WIDTH);
    let mut current: i128 = 2 * SAMPLE_STEP_WIDTH;
    while current <= max
        invariant
            max <= FIELD_STRENGTH_LIMIT,
            1 <= positions.len() <= SAMPLE_COUNT_LIMIT,
            current == (positions.len() + 1) * SAMPLE_STEP_WIDTH,
            positions.len() > 1 ==> (positions.len() as int) * SAMPLE_STEP_WIDTH <= max,
            forall|i: int| 0 <= i < positions.len() ==> positions@[i] == sample_position(i),
        decreases SAMPLE_COUNT_LIMIT - positions.len(),
    {
        positions.push(current);
        current = current + SAMPLE_STEP_WIDTH;
    }
    assert(positions@ =~= sample_positions(max as int));
    positions
}

/// Whether the secant permeability `B / H` at a probed point differs from
/// that at the last retained point by more than the fraction `tolerance` of
/// the latter. Both field strengths are positive.
///
/// With the previous point `(Hp, Bp)` and the probed point `(H, B)` the
/// test is `|Bp/Hp - B/H| / (Bp/Hp) > tolerance`. It is stated here without
/// rounding, both sides multiplied by `Bp · H`, which turns the comparison
/// round where `Bp` is negative. A previous permeability of zero is left by
/// every permeability but zero.
pub open spec fn exceeds_tolerance(
    previous_field_strength: int,
    previous_flux_density: int,
    field_strength: int,
    flux_density: int,
    tolerance: int,
) -> bool {
    let change = magnitude(
        previous_flux_density * field_strength - flux_density * previous_field_strength,
    );
    let base = previous_flux_density * field_strength;
    if previous_flux_density > 0 {
        change * SCALE > tolerance * base
    } else if previous_flux_density == 0 {
        flux_density != 0
    } else {
        change * SCALE < tolerance * base
    }
}

/// Largest tolerance that [`sample_bh_curve`] accepts: a change by ten times
/// the permeability.
pub const TOLERANCE_LIMIT: i128 = 10_000_000_000;

/// Decides whether a probed point is retained.
pub fn is_tolerance_exceeded(
    previous_field_strength: i128,
    previous_flux_density: i128,
    field_strength: i128,
    flux_density: i128,
    tolerance: i128,
) -> (exceeded: bool)
    requires
        magnitude(previous_field_strength as int) <= FIELD_STRENGTH_LIMIT,
        magnitude(field_strength as int) <= FIELD_STRENGTH_LIMIT,
        magnitude(previous_flux_density as int) <= FLUX_DENSITY_LIMIT,
        magnitude(flux_density as int) <= FLUX_DENSITY_LIMIT,
        0 <= tolerance <= TOLERANCE_LIMIT,
    ensures
        exceeded == exceeds_tolerance(
            previous_field_strength as int,
            previous_flux_density as int,
            field_strength as int,
            flux_density as int,
            tolerance as int,
        ),
{
    if previous_flux_density == 0 {
        return flux_density != 0;
    }
    proof {
        lemma_product_bound(
            previous_flux_density as int,
            field_strength as int,
            FLUX_DENSITY_LIMIT as int,
            FIELD_STRENGTH_LIMIT as int,
        );
        lemma_product_bound(
            flux_density as int,
            previous_field_strength as int,
            FLUX_DENSITY_LIMIT as int,
            FIELD_STRENGTH_LIMIT as int,
        );
    }
    let base: i128 = previous_flux_density * field_strength;
    let difference: i128 = base - flux_density * previous_field_strength;
    let change: i128 = absolute(difference);
    proof {
        lemma_product_bound(
            change as int,
            SCALE as int,
            2 * FLUX_DENSITY_LIMIT * FIELD_STRENGTH_LIMIT,
            SCALE as int,
        );
        lemma_product_bound(
            tolerance as int,
            base as int,
            TOLERANCE_LIMIT as int,
            FLUX_DENSITY_LIMIT * FIELD_STRENGTH_LIMIT,
        );
    }
    if previous_flux_density > 0 {
        change * SCALE > tolerance * base
    } else {
        change * SCALE < tolerance * base
    }
}

/// The points that are retained of a curve probed at the first `count`
/// sample positions, as field strengths and flux densities: the origin, the
/// first probed point, and every later point at which the permeability has
/// left the tolerance around that of the point retained before it.
pub open spec fn sampled(curve: Seq<i128>, tolerance: int, count: nat) -> (Seq<i128>, Seq<i128>)
    decreases count,
{
    if count == 0 {
        (seq![0i128], seq![0i128])
    } else {
        let (field_strength, flux_density) = sampled(curve, tolerance, (count - 1) as nat);
        if count == 1 || exceeds_tolerance(
            field_strength.last() as int,
            flux_density.last() as int,
            sample_position(count - 1),
            curve[count - 1] as int,
            tolerance,
        ) {
            (
                field_strength.push(sample_position(count - 1) as i128),
                flux_density.push(curve[count - 1]),
            )
        } else {
            (field_strength, flux_density)
        }
    }
}

/// What holds of the retained points whatever the curve: there are as many
/// field strengths as flux densities, at least one and at most one more than
/// points were probed; the first point is the origin, the field strengths
/// after it are sample positions in ascending order, and each flux density
/// after the first is one of the probed curve.
pub proof fn lemma_sampled(curve: Seq<i128>, tolerance: int, count: nat)
    requires
        count <= curve.len(),
        count <= SAMPLE_COUNT_LIMIT,
        all_within(curve, FLUX_DENSITY_LIMIT as int),
    ensures
        ({
            let (field_strength, flux_density) = sampled(curve, tolerance, count);
            &&& field_strength.len() == flux_density.len()
            &&& 1 <= field_strength.len() <= count + 1
            &&& count >= 1 ==> field_strength.len() >= 2
            &&& field_strength[0] == 0
            &&& flux_density[0] == 0
            &&& forall|i: int|
                1 <= i < field_strength.len() ==> SAMPLE_STEP_WIDTH <= #[trigger] field_strength[i]
                    <= count * SAMPLE_STEP_WIDTH
            &&& forall|i: int|
                0 <= i < field_strength.len() - 1 ==> field_strength[i]
                    < #[trigger] field_strength[i + 1]
            &&& all_within(flux_density, FLUX_DENSITY_LIMIT as int)
        }),
    decreases count,
{
    if count > 0 {
        lemma_sampled(curve, tolerance, (count - 1) as nat);
        let (field_strength, flux_density) = sampled(curve, tolerance, (count - 1) as nat);
        let (h, b) = sampled(curve, tolerance, count);
        if h.len() != field_strength.len() {
            assert(h == field_strength.push(sample_position(count - 1) as i128));
            assert(b == flux_density.push(curve[count - 1]));
            assert forall|i: int| 0 <= i < h.len() - 1 implies h[i] < #[trigger] h[i + 1] by {
                if i + 1 < field_strength.len() {
                    assert(h[i] == field_strength[i]);
                    assert(h[i + 1] == field_strength[i + 1]);
                } else {
                    if i >= 1 {
                        assert(h[i] == field_strength[i]);
                    }
                }
            }
            assert forall|i: int| 0 <= i < b.len() implies -FLUX_DENSITY_LIMIT <= #[trigger] b[i]
                <= FLUX_DENSITY_LIMIT by {
                if i < flux_density.len() {
                    assert(b[i] == flux_density[i]);
                }
            }
        }
    }
}

/// Thins out a magnetization curve that was evaluated at the sample
/// positions: `curve[i]` is the flux density at the field strength
/// `sample_position(i)`.
///
/// Returns the field strengths and the flux densities of the points that
/// are retained.
pub fn sample_bh_curve(curve: &Vec<i128>, change_tol: i128) -> (points: (Vec<i128>, Vec<i128>))
    requires
        1 <= curve.len() <= SAMPLE_COUNT_LIMIT,
        all_within(curve@, FLUX_DENSITY_LIMIT as int),
        0 <= change_tol <= TOLERANCE_LIMIT,
    ensures
        (points.0@, points.1@) == sampled(curve@, change_tol as int, curve.len() as nat),
{
    let mut h_sampled: Vec<i128> = Vec::new();
    let mut b_sampled: Vec<i128> = Vec::new();
    h_sampled.push(0);
    b_sampled.push(0);
    h_sampled.push(SAMPLE_STEP_WIDTH);
    b_sampled.push(curve[0]);
    let mut previous_field_strength: i128 = SAMPLE_STEP_WIDTH;
    let mut previous_flux_density: i128 = curve[0];
    let mut current_field_strength: i128 = 2 * SAMPLE_STEP_WIDTH;
    let mut i: usize = 1;
    proof {
        let (h0, b0) = sampled(curve@, change_tol as int, 0);
        assert(h0 =~= seq![0i128]);
        assert(b0 =~= seq![0i128]);
        reveal_with_fuel(sampled, 2);
        assert(h_sampled@ =~= sampled(curve@, change_tol as int, 1).0);
        assert(b_sampled@ =~= sampled(curve@, change_tol as int, 1).1);
    }
    while i < curve.len()
        invariant
            1 <= i <= curve.len() <= SAMPLE_COUNT_LIMIT,
            all_within(curve@, FLUX_DENSITY_LIMIT as int),
            0 <= change_tol <= TOLERANCE_LIMIT,
            current_field_strength == sample_position(i as int),
            (h_sampled@, b_sampled@) == sampled(curve@, change_tol as int, i as nat),
            previous_field_strength == h_sampled@.last(),
            previous_flux_density == b_sampled@.last(),
        decreases curve.len() - i,
    {
        proof {
            lemma_sampled(curve@, change_tol as int, i as nat);
        }
        let current_flux_density: i128 = curve[i];
        if is_tolerance_exceeded(
            previous_field_strength,
            previous_flux_density,
            current_field_strength,
            current_flux_density,
            change_tol,
        ) {
            h_sampled.push(current_field_strength);
            b_sampled.push(current_flux_density);
            previous_field_strength = current_field_strength;
            previous_flux_density = current_flux_density;
        }
        current_field_strength = current_field_strength + SAMPLE_STEP_WIDTH;
        i += 1;
    }
    (h_sampled, b_sampled)
}

} // verus!
