use vstd::prelude::*;

use crate::beam::Beam;
use crate::birds_mouth::BirdsMouth;
use crate::input::RafterInput;
use crate::right_angle_like::RightAngleLike;
use crate::solve::{pythagorean_within, slope_within, Solved};
use crate::tail::Tail;

verus! {

/// The solved triangles of a [`crate::SolvePlan`], field for field.
#[derive(Clone, Copy, Debug, PartialEq, Eq, Structural)]
pub struct RafterSolves {
    pub main: Solved,
    pub seat: Solved,
    pub heel: Solved,
    pub overhang: Solved,
    pub angled: Solved,
}

impl RafterSolves {
    /// The solves whose lengths the rafter adds up are in range. The capped
    /// heel solve is only stored, so it may hold anything (at a flat pitch it
    /// has no finite solution).
    pub open spec fn fits(self) -> bool {
        &&& self.main.fits()
        &&& self.seat.fits()
        &&& self.overhang.fits()
        &&& self.angled.fits()
    }

    pub fn in_range(&self) -> (r: bool)
        ensures
            r == self.fits(),
    {
        self.main.in_range() && self.seat.in_range() && self.overhang.in_range()
            && self.angled.in_range()
    }
}

/// Every measurement needed to cut one rafter.
#[derive(Clone, Copy, Debug, PartialEq, Eq, Structural)]
pub struct Rafter {
    pub width: i64,
    pub rise: i64,
    pub run: i64,
    pub length: i64,
    pub pitch: u32,
    pub beam: Beam,
    pub birds_mouth: BirdsMouth,
    pub tail: Tail,
    /// The rafter stock width, solved at the pitch.
    pub angled_width: i64,
    pub ridge_beam_height: i64,
    pub total_length: i64,
    pub total_height: i64,
}

impl Rafter {
    /// The rafter composed from its parameters and its solved triangles.
    pub open spec fn assemble(input: RafterInput, solves: RafterSolves) -> Rafter {
        let birds_mouth = BirdsMouth::notch(input, solves.seat, solves.heel, solves.overhang);
        let tail = Tail::overhang(input.pitch, input.overhang, solves.overhang);
        let height = solves.main.side + solves.angled.side - birds_mouth.heel;
        Rafter {
            width: input.rafter_width,
            rise: solves.main.side,
            run: input.spec_rafter_run() as i64,
            length: solves.main.hypotenuse,
            pitch: input.pitch,
            beam: Beam { thickness: input.beam_thickness, width: input.beam_width },
            birds_mouth,
            tail,
            angled_width: solves.angled.side,
            ridge_beam_height: height as i64,
            total_length: (tail.length + solves.main.hypotenuse) as i64,
            total_height: height as i64,
        }
    }

    /// Composes the rafter. The run is half the span less half the ridge beam;
    /// the ridge beam stands at the rise plus the angled stock width, less the
    /// heel already notched away at the wall; the total length is the tail's
    /// hypotenuse plus the main one.
    pub fn from_input(input: &RafterInput, solves: &RafterSolves) -> (r: Rafter)
        requires
            input.valid(),
            solves.fits(),
        ensures
            r == Rafter::assemble(*input, *solves),
            r.run == input.spec_rafter_run(),
            r.total_length == r.tail.length + r.length,
            r.ridge_beam_height == r.rise + r.angled_width - r.birds_mouth.heel,
            r.total_height == r.ridge_beam_height,
            r.birds_mouth.heel <= input.spec_max_heel(),
    {
        let run = input.rafter_run();
        let rise = solves.main.side;
        let length = solves.main.hypotenuse;
        let beam = Beam::new(input.beam_thickness, input.beam_width);
        let birds_mouth = BirdsMouth::from_input(input, solves.seat, solves.heel, solves.overhang);
        let tail = Tail::from_pitch_and_run(input.pitch, input.overhang, solves.overhang);
        let angled_width = solves.angled.side;
        let ridge_beam_height = rise + angled_width - birds_mouth.rise();
        let total_length = tail.length() + length;
        let total_height = rise + angled_width - birds_mouth.rise();
        Rafter {
            width: input.rafter_width,
            rise,
            run,
            length,
            pitch: input.pitch,
            beam,
            birds_mouth,
            tail,
            angled_width,
            ridge_beam_height,
            total_length,
            total_height,
        }
    }
}

impl Rafter {
    /// The main rafter triangle as (rise, run, length).
    pub open spec fn triangle(self) -> (i64, i64, i64) {
        (self.rise, self.run, self.length)
    }
}

impl BirdsMouth {
    /// The notch triangle as (heel, seat, length).
    pub open spec fn triangle(self) -> (i64, i64, i64) {
        (self.heel, self.seat, self.length)
    }
}

impl Tail {
    /// The tail triangle as (rise, run, length).
    pub open spec fn triangle(self) -> (i64, i64, i64) {
        (self.rise, self.run, self.length)
    }
}

/// Each solve of the plan, as a triangle at the pitch, meets `ok`.
pub open spec fn solves_meet(
    input: RafterInput,
    solves: RafterSolves,
    ok: spec_fn(u32, (i64, i64, i64)) -> bool,
) -> bool {
    let plan = input.spec_solve_plan();
    &&& ok(input.pitch, solves.main.triangle(plan.main))
    &&& ok(input.pitch, solves.seat.triangle(plan.seat))
    &&& ok(input.pitch, solves.heel.triangle(plan.heel))
    &&& ok(input.pitch, solves.overhang.triangle(plan.overhang))
}

/// Each triangle of the rafter -- the main one, the notch, the tail -- meets `ok`
/// at the pitch that part carries.
pub open spec fn parts_meet(r: Rafter, ok: spec_fn(u32, (i64, i64, i64)) -> bool) -> bool {
    &&& ok(r.pitch, r.triangle())
    &&& ok(r.birds_mouth.pitch, r.birds_mouth.triangle())
    &&& ok(r.tail.pitch, r.tail.triangle())
}

/// The main triangle, the notch and the tail are each one of the solved
/// triangles the rafter was built from, at its pitch and with the leg that was
/// given: whatever holds of every solved triangle holds of every part.
pub proof fn lemma_parts_are_solved_triangles(
    input: RafterInput,
    solves: RafterSolves,
    ok: spec_fn(u32, (i64, i64, i64)) -> bool,
)
    requires
        input.valid(),
        solves.fits(),
        solves_meet(input, solves, ok),
    ensures
        parts_meet(Rafter::assemble(input, solves), ok),
{
}

/// When every solved triangle agrees with Pythagoras to one part in `parts`,
/// so do the main triangle, the notch and the tail of the rafter.
pub proof fn lemma_parts_pythagorean(input: RafterInput, solves: RafterSolves, parts: nat)
    requires
        input.valid(),
        solves.fits(),
        solves_meet(input, solves, |p: u32, t: (i64, i64, i64)| pythagorean_within(t, parts)),
    ensures
        parts_meet(Rafter::assemble(input, solves), |p: u32, t: (i64, i64, i64)| pythagorean_within(t, parts)),
{
    lemma_parts_are_solved_triangles(input, solves, |p: u32, t: (i64, i64, i64)| pythagorean_within(t, parts));
}

/// When every solved triangle rises at its pitch to one part in `parts` of its
/// run, so do the main triangle, the notch and the tail: each part's slope is
/// the angle it carries.
pub proof fn lemma_parts_slope(input: RafterInput, solves: RafterSolves, parts: nat)
    requires
        input.valid(),
        solves.fits(),
        solves_meet(input, solves, |p: u32, t: (i64, i64, i64)| slope_within(p, t, parts)),
    ensures
        parts_meet(Rafter::assemble(input, solves), |p: u32, t: (i64, i64, i64)| slope_within(p, t, parts)),
{
    lemma_parts_are_solved_triangles(input, solves, |p: u32, t: (i64, i64, i64)| slope_within(p, t, parts));
}

/// The total length is the tail's hypotenuse plus the main one, exactly.
pub proof fn lemma_total_length(input: RafterInput, solves: RafterSolves)
    requires
        input.valid(),
        solves.fits(),
    ensures
        ({
            let r = Rafter::assemble(input, solves);
            r.total_length == r.tail.length + r.length
        }),
{
}

impl RightAngleLike for Rafter {
    open spec fn spec_rise(&self) -> i64 {
        self.rise
    }

    open spec fn spec_run(&self) -> i64 {
        self.run
    }

    open spec fn spec_length(&self) -> i64 {
        self.length
    }

    open spec fn spec_pitch(&self) -> u32 {
        self.pitch
    }

    fn rise(&self) -> i64 {
        self.rise
    }

    fn run(&self) -> i64 {
        self.run
    }

    fn length(&self) -> i64 {
        self.length
    }

    fn pitch(&self) -> u32 {
        self.pitch
    }
}

} // verus!
