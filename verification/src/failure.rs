//! What can go wrong while a frame is decoded.

use vstd::prelude::*;

verus! {

/// A fault in what the emulated machine handed over for drawing.  Either one
/// makes the frame it occurs in unusable.
#[derive(Clone, Copy, Debug, PartialEq, Eq, Structural)]
pub enum FrameError {
    /// A line pair has the wrong length, or its color line holds something
    /// that is no palette digit.
    MalformedFrameData,
    /// A color was asked for that the palette does not have.
    InvalidColorDigit,
}

} // verus!
