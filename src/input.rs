use vstd::prelude::*;

use crate::solve::{Given, SolvePlan};

verus! {

/// The largest length the library accepts, so that sums of lengths never overflow.
pub const LENGTH_LIMIT: i64 = 0x1000_0000_0000_0000;

/// A length that must be positive.
pub open spec fn is_length(x: i64) -> bool {
    0 < x <= LENGTH_LIMIT
}

/// A length that may be zero.
pub open spec fn is_extent(x: i64) -> bool {
    0 <= x <= LENGTH_LIMIT
}

/// The field of a [`RafterInput`] that is out of range.
#[derive(Clone, Copy, Debug, PartialEq, Eq, Structural)]
pub enum InvalidInput {
    Span,
    RafterWidth,
    WallWidth,
    Overhang,
    BeamThickness,
    BeamWidth,
}

/// The construction parameters of one rafter.
#[derive(Clone, Copy, Debug, PartialEq, Eq, Structural)]
pub struct RafterInput {
    /// Rise per twelve units of run.
    pub pitch: u32,
    /// The whole span of the building.
    pub span: i64,
    /// The stock width of the rafter.
    pub rafter_width: i64,
    /// The width of the wall's top plate.
    pub wall_width: i64,
    /// How far the tail reaches past the wall.
    pub overhang: i64,
    pub beam_thickness: i64,
    pub beam_width: i64,
}

impl RafterInput {
    /// Every length is in range: positive, but the overhang, which may be zero.
    pub open spec fn valid(self) -> bool {
        &&& is_length(self.span)
        &&& is_length(self.rafter_width)
        &&& is_length(self.wall_width)
        &&& is_extent(self.overhang)
        &&& is_length(self.beam_thickness)
        &&& is_length(self.beam_width)
    }

    /// The first field, in declaration order, that is out of range.
    pub open spec fn offending_field(self) -> InvalidInput {
        if !is_length(self.span) {
            InvalidInput::Span
        } else if !is_length(self.rafter_width) {
            InvalidInput::RafterWidth
        } else if !is_length(self.wall_width) {
            InvalidInput::WallWidth
        } else if !is_extent(self.overhang) {
            InvalidInput::Overhang
        } else if !is_length(self.beam_thickness) {
            InvalidInput::BeamThickness
        } else {
            InvalidInput::BeamWidth
        }
    }

    /// Half the span less half the ridge beam: the horizontal run of the rafter.
    pub open spec fn spec_rafter_run(self) -> int {
        self.span / 2 - self.beam_thickness / 2
    }

    /// A third of the rafter stock: the deepest heel the notch may cut.
    pub open spec fn spec_max_heel(self) -> int {
        self.rafter_width / 3
    }

    pub open spec fn spec_solve_plan(self) -> SolvePlan {
        SolvePlan {
            pitch: self.pitch,
            main: Given::Adjacent(self.spec_rafter_run() as i64),
            seat: Given::Adjacent(self.wall_width),
            heel: Given::Opposite(self.spec_max_heel() as i64),
            overhang: Given::Adjacent(self.overhang),
            angled: Given::Adjacent(self.rafter_width),
        }
    }

    /// Builds the parameters, refusing the first field that is out of range.
    pub fn new(
        pitch: u32,
        span: i64,
        rafter_width: i64,
        wall_width: i64,
        overhang: i64,
        beam_thickness: i64,
        beam_width: i64,
    ) -> (r: Result<RafterInput, InvalidInput>)
        ensures
            ({
                let c = RafterInput {
                    pitch,
                    span,
                    rafter_width,
                    wall_width,
                    overhang,
                    beam_thickness,
                    beam_width,
                };
                &&& r is Ok <==> c.valid()
                &&& r is Ok ==> r->Ok_0 == c
                &&& r is Err ==> r->Err_0 == c.offending_field()
            }),
    {
        if !(0 < span && span <= LENGTH_LIMIT) {
            Err(InvalidInput::Span)
        } else if !(0 < rafter_width && rafter_width <= LENGTH_LIMIT) {
            Err(InvalidInput::RafterWidth)
        } else if !(0 < wall_width && wall_width <= LENGTH_LIMIT) {
            Err(InvalidInput::WallWidth)
        } else if !(0 <= overhang && overhang <= LENGTH_LIMIT) {
            Err(InvalidInput::Overhang)
        } else if !(0 < beam_thickness && beam_thickness <= LENGTH_LIMIT) {
            Err(InvalidInput::BeamThickness)
        } else if !(0 < beam_width && beam_width <= LENGTH_LIMIT) {
            Err(InvalidInput::BeamWidth)
        } else {
            Ok(RafterInput {
                pitch,
                span,
                rafter_width,
                wall_width,
                overhang,
                beam_thickness,
                beam_width,
            })
        }
    }

    pub fn rafter_run(&self) -> (r: i64)
        requires
            self.valid(),
        ensures
            r == self.spec_rafter_run(),
    {
        self.span / 2 - self.beam_thickness / 2
    }

    pub fn max_heel(&self) -> (r: i64)
        requires
            self.valid(),
        ensures
            r == self.spec_max_heel(),
    {
        self.rafter_width / 3
    }

    /// The triangles to solve at this pitch before a rafter can be assembled.
    pub fn solve_plan(&self) -> (r: SolvePlan)
        requires
            self.valid(),
        ensures
            r == self.spec_solve_plan(),
    {
        SolvePlan {
            pitch: self.pitch,
            main: Given::Adjacent(self.rafter_run()),
            seat: Given::Adjacent(self.wall_width),
            heel: Given::Opposite(self.max_heel()),
            overhang: Given::Adjacent(self.overhang),
            angled: Given::Adjacent(self.rafter_width),
        }
    }
}

} // verus!
