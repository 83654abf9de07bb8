//! Error kinds of the comparison engine.

use vstd::prelude::*;

verus! {

/// Every failure the engine distinguishes.
///
/// Configuration and initialization failures are fatal before any scoring
/// starts; mid-stream decode or metric failures are fatal to the whole
/// comparison; rendering failures are reported by the caller and do not
/// invalidate the numeric result.
#[derive(Clone, Copy, Debug, PartialEq, Eq, Structural)]
pub enum CompareError {
    /// A stream could not be opened or probed.
    DecoderInit,
    /// The stream has a property the engine cannot handle, such as a
    /// variable resolution or format, or a non-integer sample type.
    UnsupportedStream,
    /// A frame could not be decoded mid-stream.
    FrameRead,
    /// Color conversion or the metric computation failed.
    MetricComputation,
    /// A user-supplied colorimetry name or value was not recognized.
    UnrecognizedToken,
    /// The requested combination of inputs and options is invalid.
    Configuration,
}

impl CompareError {
    /// A short human-readable description of the error kind.
    pub fn message(&self) -> (r: &'static str)
        ensures
            *self == CompareError::DecoderInit ==> r@ == "failed to open or probe a stream"@,
            *self == CompareError::UnsupportedStream ==> r@ == "unsupported stream properties"@,
            *self == CompareError::FrameRead ==> r@ == "failed to decode a frame"@,
            *self == CompareError::MetricComputation ==> r@ == "failed to compute the metric"@,
            *self == CompareError::UnrecognizedToken ==> r@ == "unrecognized colorimetry token"@,
            *self == CompareError::Configuration ==> r@ == "invalid configuration"@,
    {
        match self {
            CompareError::DecoderInit => "failed to open or probe a stream",
            CompareError::UnsupportedStream => "unsupported stream properties",
            CompareError::FrameRead => "failed to decode a frame",
            CompareError::MetricComputation => "failed to compute the metric",
            CompareError::UnrecognizedToken => "unrecognized colorimetry token",
            CompareError::Configuration => "invalid configuration",
        }
    }
}

} // verus!
