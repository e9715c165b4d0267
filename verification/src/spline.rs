//! The data from which an interpolating spline is built.
//!
//! The interpolation itself is left to the caller, who builds the spline from
//! a [`SplineData`] and evaluates it. This module holds the knots and the
//! slopes with which the spline is continued beyond its first and last knot,
//! and the reasons that the caller reports where no spline can be built.

use vstd::prelude::*;

verus! {

/// A slope, given exactly as the ratio of two fixed-point numbers.
#[derive(Clone, Copy, Debug, PartialEq, Eq, Structural)]
pub struct Slope {
    /// Change of the ordinate.
    pub rise: i128,
    /// Change of the abscissa over which the ordinate changes by `rise`.
    pub run: i128,
}

impl Slope {
    /// The slope of a horizontal line.
    pub open spec fn flat() -> Slope {
        Slope { rise: 0, run: 1 }
    }
}

/// The reasons for which no spline can be built from given knots, as the
/// caller reports them who has tried to build one.
#[derive(Clone, Copy, Debug, PartialEq, Eq, Structural)]
pub enum BuildError {
    /// Fewer than five knots were given.
    MinFivePointsNeeded,
    /// There are not as many ordinates as abscissas.
    InequalSliceLength {
        /// Number of abscissas.
        xs_len: usize,
        /// Number of ordinates.
        ys_len: usize,
    },
    /// The abscissas do not increase strictly from each knot to the next.
    XsNotStrictlyMonotonicIncreasing,
}

/// Knots and end slopes of a spline.
#[derive(Debug)]
pub struct SplineData {
    /// Abscissas of the knots.
    pub xs: Vec<i128>,
    /// Ordinates of the knots.
    pub ys: Vec<i128>,
    /// Slope of the straight line that continues the spline to the left of
    /// its first knot.
    pub extrapl: Slope,
    /// Slope of the straight line that continues the spline to the right of
    /// its last knot.
    pub extrapr: Slope,
}

/// The mathematical content of a [`SplineData`].
pub struct SplineDataView {
    /// Abscissas of the knots.
    pub xs: Seq<i128>,
    /// Ordinates of the knots.
    pub ys: Seq<i128>,
    /// Slope to the left of the first knot.
    pub extrapl: Slope,
    /// Slope to the right of the last knot.
    pub extrapr: Slope,
}

impl View for SplineData {
    type V = SplineDataView;

    open spec fn view(&self) -> SplineDataView {
        SplineDataView { xs: self.xs@, ys: self.ys@, extrapl: self.extrapl, extrapr: self.extrapr }
    }
}

impl Clone for SplineData {
    fn clone(&self) -> (copy: Self)
        ensures
            copy@ == self@,
    {
        let xs = self.xs.clone();
        let ys = self.ys.clone();
        assert(xs@ =~= self.xs@);
        assert(ys@ =~= self.ys@);
        SplineData { xs, ys, extrapl: self.extrapl, extrapr: self.extrapr }
    }
}

} // verus!
