use vstd::prelude::*;

verus! {

/// The ways a request for audio can go wrong.
#[derive(Clone, Copy, Debug, PartialEq, Eq, Structural)]
pub enum ErrorKind {
    /// The requested speed is NaN.
    InvalidSpeed,
    /// The generator could not produce audio.
    SynthesisFailed,
    /// The processor could not compress generated audio.
    EncodingFailed,
}

} // verus!
