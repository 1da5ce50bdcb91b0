use vstd::prelude::*;

use crate::input::LENGTH_LIMIT;

verus! {

/// The run against which a pitch is measured: a pitch of `p` rises `p` units
/// over this many units of run.
pub const PITCH_RUN: u32 = 12;

/// The leg of a right triangle that is known when the triangle is solved at a
/// pitch. Exactly one leg is given, so a solve can never be asked with both or
/// with neither.
#[derive(Clone, Copy, Debug, PartialEq, Eq, Structural)]
pub enum Given {
    /// The leg opposite the pitch angle (the rise).
    Opposite(i64),
    /// The leg adjacent to the pitch angle (the run).
    Adjacent(i64),
}

/// A right triangle solved at a pitch from its given leg: the other leg and
/// the hypotenuse.
#[derive(Clone, Copy, Debug, PartialEq, Eq, Structural)]
pub struct Solved {
    pub side: i64,
    pub hypotenuse: i64,
}

impl Solved {
    /// The solved triangle as (rise, run, length), with `given` as its known leg.
    pub open spec fn triangle(self, given: Given) -> (i64, i64, i64) {
        match given {
            Given::Opposite(a) => (a, self.side, self.hypotenuse),
            Given::Adjacent(b) => (self.side, b, self.hypotenuse),
        }
    }

    /// Both results are lengths the library can add without overflow.
    pub open spec fn fits(self) -> bool {
        0 <= self.side <= LENGTH_LIMIT && 0 <= self.hypotenuse <= LENGTH_LIMIT
    }

    pub fn in_range(&self) -> (r: bool)
        ensures
            r == self.fits(),
    {
        0 <= self.side && self.side <= LENGTH_LIMIT && 0 <= self.hypotenuse && self.hypotenuse
            <= LENGTH_LIMIT
    }
}

/// The triangles that a rafter is composed of, each as the pitch and the leg
/// to solve it from.
#[derive(Clone, Copy, Debug, PartialEq, Eq, Structural)]
pub struct SolvePlan {
    pub pitch: u32,
    /// The main rafter triangle, from its run.
    pub main: Given,
    /// The notch spanning the whole wall plate, from the wall width.
    pub seat: Given,
    /// The notch at the deepest heel allowed, from that heel.
    pub heel: Given,
    /// The tail overhang, from the overhang.
    pub overhang: Given,
    /// The rafter stock width, from that width.
    pub angled: Given,
}

/// rise² + run² agrees with length² to within one part in `parts` of length².
pub open spec fn pythagorean_within(t: (i64, i64, i64), parts: nat) -> bool {
    let gap = t.0 * t.0 + t.1 * t.1 - t.2 * t.2;
    parts * (if gap < 0 { -gap } else { gap }) <= t.2 * t.2
}

/// The rise differs from what the pitch gives over the run, `pitch * run / 12`,
/// by at most one part in `parts` of the run.
pub open spec fn slope_within(pitch: u32, t: (i64, i64, i64), parts: nat) -> bool {
    let gap = PITCH_RUN * t.0 - pitch * t.1;
    parts * (if gap < 0 { -gap } else { gap }) <= PITCH_RUN * t.1
}

} // verus!
