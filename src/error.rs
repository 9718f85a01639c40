use vstd::prelude::*;

verus! {

/// Failures reported by the context lifecycle.
#[derive(Debug, Clone, Copy, PartialEq, Eq, Structural)]
pub enum Error {
    /// A native call failed with this (negative) code.
    Native(i32),
    /// No decoder is registered for the context's codec id.
    DecoderNotFound,
    /// No encoder is registered for the context's codec id.
    EncoderNotFound,
    /// The opened codec is not of the kind that was asked for.
    InvalidData,
}

} // verus!
