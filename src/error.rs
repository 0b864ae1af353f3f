use vstd::prelude::*;

verus! {

/// Failures that the generator reports to its caller.
#[derive(Clone, Copy, Debug, PartialEq, Eq, Structural)]
pub enum GenError {
    /// The point-format id is outside 0..=10.
    InvalidPointFormat,
    /// The minor version is outside 0..=4.
    InvalidFormatVersion,
    /// The ground fraction is above one million parts per million.
    InvalidGroundFraction,
    /// An axis has zero width where terrain needs a positive one.
    DegenerateExtent,
    /// A record was offered after finalization, or finalization was repeated.
    InvalidEncoderState,
}

} // verus!
