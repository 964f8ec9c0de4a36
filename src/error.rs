use vstd::prelude::*;

verus! {

/// Malformed input detected before any device call.
#[derive(Debug, Clone, Copy, PartialEq, Eq, Structural)]
pub enum ValidationError {
    /// A shader stage of the wrong kind was given for a slot.
    InvalidShaderStage,
    /// A triangle index count that is not a multiple of three.
    InvalidIndexCount,
    /// An object used before it reached the state the use needs
    /// (an instance that was never finalized, a build event out of order).
    InvalidState,
    /// A requested hit group index outside the pipeline's hit groups.
    InvalidHitGroupIndex,
}

/// Failures of the ray-tracing layer.
#[derive(Debug, Clone, Copy, PartialEq, Eq, Structural)]
pub enum RtError {
    Validation(ValidationError),
    /// The driver or the allocator failed, or returned a result that cannot be used.
    DeviceError,
    /// The aligned shader group stride exceeds the device maximum.
    AlignmentViolation,
}

} // verus!
