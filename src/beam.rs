use vstd::prelude::*;

verus! {

/// The cross-section of the ridge beam.
#[derive(Clone, Copy, Debug, PartialEq, Eq, Structural)]
pub struct Beam {
    pub thickness: i64,
    pub width: i64,
}

impl Beam {
    pub fn new(thickness: i64, width: i64) -> (r: Beam)
        ensures
            r.thickness == thickness,
            r.width == width,
    {
        Beam { thickness, width }
    }
}

} // verus!
