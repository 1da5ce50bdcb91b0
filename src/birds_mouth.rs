use vstd::prelude::*;

use crate::input::RafterInput;
use crate::right_angle_like::RightAngleLike;
use crate::solve::Solved;

verus! {

/// The seat notch cut where the rafter rests on the wall plate.
#[derive(Clone, Copy, Debug, PartialEq, Eq, Structural)]
pub struct BirdsMouth {
    /// The vertical cut: the rise of the notch triangle.
    pub heel: i64,
    /// The horizontal cut: the run of the notch triangle.
    pub seat: i64,
    /// The hypotenuse of the notch triangle.
    pub length: i64,
    pub pitch: u32,
    /// How far along the rafter, from the tail tip, the notch starts.
    pub seat_start: i64,
}

impl BirdsMouth {
    /// The notch spans the whole wall plate when the heel that gives stays
    /// within a third of the rafter stock (`seat` solved from the wall width);
    /// otherwise the heel is held at that third and the seat shortens (`heel`
    /// solved from that third). `start` is solved from the overhang.
    pub open spec fn notch(input: RafterInput, seat: Solved, heel: Solved, start: Solved) -> BirdsMouth {
        if seat.side <= input.spec_max_heel() {
            BirdsMouth {
                heel: seat.side,
                seat: input.wall_width,
                length: seat.hypotenuse,
                pitch: input.pitch,
                seat_start: start.side,
            }
        } else {
            BirdsMouth {
                heel: input.spec_max_heel() as i64,
                seat: heel.side,
                length: heel.hypotenuse,
                pitch: input.pitch,
                seat_start: start.side,
            }
        }
    }

    pub fn from_input(input: &RafterInput, seat: Solved, heel: Solved, start: Solved) -> (r:
        BirdsMouth)
        requires
            input.valid(),
        ensures
            r == BirdsMouth::notch(*input, seat, heel, start),
            r.heel <= input.spec_max_heel(),
    {
        Self::check_code(input, seat, heel, start)
    }

    /// Keeps the heel within a third of the rafter stock, shortening the seat
    /// where the full wall width would cut deeper.
    fn check_code(input: &RafterInput, seat: Solved, heel: Solved, start: Solved) -> (r: BirdsMouth)
        requires
            input.valid(),
        ensures
            r == BirdsMouth::notch(*input, seat, heel, start),
    {
        let max_heel = input.max_heel();
        let max_seat = input.wall_width;
        if seat.side <= max_heel {
            BirdsMouth {
                heel: seat.side,
                seat: max_seat,
                length: seat.hypotenuse,
                pitch: input.pitch,
                seat_start: start.side,
            }
        } else {
            BirdsMouth {
                heel: max_heel,
                seat: heel.side,
                length: heel.hypotenuse,
                pitch: input.pitch,
                seat_start: start.side,
            }
        }
    }

    pub fn seat_start(&self) -> (r: i64)
        ensures
            r == self.seat_start,
    {
        self.seat_start
    }
}

/// Whatever the wall and rafter widths, the notch never cuts a heel deeper
/// than a third of the rafter stock.
pub proof fn lemma_heel_within_code(input: RafterInput, seat: Solved, heel: Solved, start: Solved)
    requires
        input.valid(),
    ensures
        BirdsMouth::notch(input, seat, heel, start).heel <= input.spec_max_heel(),
{
}

/// When the triangle solved from the wall width rises no more than a third of
/// the rafter stock, the seat is the whole wall width and the heel is that
/// rise; otherwise the heel is exactly that third, and the seat is the run
/// solved from it.
pub proof fn lemma_notch_branch(input: RafterInput, seat: Solved, heel: Solved, start: Solved)
    requires
        input.valid(),
    ensures
        ({
            let n = BirdsMouth::notch(input, seat, heel, start);
            &&& seat.side <= input.spec_max_heel() ==> n.seat == input.wall_width && n.heel
                == seat.side
            &&& seat.side > input.spec_max_heel() ==> n.heel == input.spec_max_heel() && n.seat
                == heel.side
            &&& n.seat_start == start.side
        }),
{
}

impl RightAngleLike for BirdsMouth {
    open spec fn spec_rise(&self) -> i64 {
        self.heel
    }

    open spec fn spec_run(&self) -> i64 {
        self.seat
    }

    open spec fn spec_length(&self) -> i64 {
        self.length
    }

    open spec fn spec_pitch(&self) -> u32 {
        self.pitch
    }

    fn rise(&self) -> i64 {
        self.heel
    }

    fn run(&self) -> i64 {
        self.seat
    }

    fn length(&self) -> i64 {
        self.length
    }

    fn pitch(&self) -> u32 {
        self.pitch
    }
}

} // verus!
