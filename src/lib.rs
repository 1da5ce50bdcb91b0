//! Rafter geometry: the main rafter triangle, the bird's mouth seat notch,
//! the tail overhang and the values derived from them.
//!
//! Lengths are whole numbers of a fine unit that the caller picks (for
//! instance ten-thousandths of an inch); a roof's slope is its pitch, the rise
//! over a run of twelve. Solving a right triangle at a pitch is trigonometry
//! and is done by the caller: the library states which triangles it needs
//! ([`RafterInput::solve_plan`]) and composes the solved ones into a rafter.

pub use beam::Beam;
pub use birds_mouth::BirdsMouth;
pub use input::{InvalidInput, RafterInput, LENGTH_LIMIT};
pub use rafter::{Rafter, RafterSolves};
pub use right_angle_like::RightAngleLike;
pub use solve::{pythagorean_within, slope_within, Given, SolvePlan, Solved, PITCH_RUN};
pub use tail::Tail;

pub mod beam;
pub mod birds_mouth;
pub mod input;
pub mod rafter;
pub mod right_angle_like;
pub mod solve;
pub mod tail;
