use vstd::prelude::*;

use crate::right_angle_like::RightAngleLike;
use crate::solve::Solved;

verus! {

/// The overhang of the rafter past the wall.
#[derive(Clone, Copy, Debug, PartialEq, Eq, Structural)]
pub struct Tail {
    pub rise: i64,
    pub run: i64,
    pub length: i64,
    pub pitch: u32,
}

impl Tail {
    /// The tail whose run is the overhang, from the triangle solved at `pitch`
    /// with that run as its adjacent leg.
    pub open spec fn overhang(pitch: u32, run: i64, solved: Solved) -> Tail {
        Tail { rise: solved.side, run, length: solved.hypotenuse, pitch }
    }

    pub fn from_pitch_and_run(pitch: u32, run: i64, solved: Solved) -> (r: Tail)
        ensures
            r == Tail::overhang(pitch, run, solved),
    {
        Tail { rise: solved.side, run, length: solved.hypotenuse, pitch }
    }
}

impl RightAngleLike for Tail {
    open spec fn spec_rise(&self) -> i64 {
        self.rise
    }

    open spec fn spec_run(&self) -> i64 {
        self.run
    }

    open spec fn spec_length(&self) -> i64 {
        self.length
    }

    open spec fn spec_pitch(&self) -> u32 {
        self.pitch
    }

    fn rise(&self) -> i64 {
        self.rise
    }

    fn run(&self) -> i64 {
        self.run
    }

    fn length(&self) -> i64 {
        self.length
    }

    fn pitch(&self) -> u32 {
        self.pitch
    }
}

} // verus!
