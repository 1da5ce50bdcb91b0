use vstd::prelude::*;

verus! {

/// A value that describes a right triangle at a roof pitch.
pub trait RightAngleLike {
    spec fn spec_rise(&self) -> i64;

    spec fn spec_run(&self) -> i64;

    spec fn spec_length(&self) -> i64;

    spec fn spec_pitch(&self) -> u32;

    /// The vertical leg.
    fn rise(&self) -> (r: i64)
        ensures
            r == self.spec_rise(),
    ;

    /// The horizontal leg.
    fn run(&self) -> (r: i64)
        ensures
            r == self.spec_run(),
    ;

    /// The hypotenuse.
    fn length(&self) -> (r: i64)
        ensures
            r == self.spec_length(),
    ;

    /// The slope, as rise per twelve units of run.
    fn pitch(&self) -> (r: u32)
        ensures
            r == self.spec_pitch(),
    ;
}

} // verus!
