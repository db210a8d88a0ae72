//! The failures that the world reports to its driver.
use vstd::prelude::*;

verus! {

/// Why a world could not be built or a frame could not be drawn.
#[derive(Clone, Copy, Debug, PartialEq, Eq, Structural)]
pub enum WorldError {
    /// The surface has no pixels: its width or its height is zero.
    ZeroArea,
    /// The frame does not hold four bytes for each pixel of the surface.
    BufferSizeMismatch,
}

} // verus!
