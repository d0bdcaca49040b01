//! Scene geometry and pixel packing for the rover control station's 3-D
//! view, the animation clock that phases it, and the telecommand payloads
//! that the station sends.

use vstd::prelude::*;

pub mod body;
pub mod frame_clock;
pub mod grid;
pub mod pixel;
pub mod telecommand;

verus! {

} // verus!
