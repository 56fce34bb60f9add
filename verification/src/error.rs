use vstd::prelude::*;

verus! {

/// Error code carried by `Error::Encoder` when a frame conversion is asked
/// for a hardware-only target layout, which host memory cannot hold.
pub const UNSUPPORTED_CONVERSION: i32 = 1;

/// Everything that can go wrong in the pipeline.
///
/// Failures surfaced by the encoder/muxer collaborator travel unchanged as
/// `Encoder` with the collaborator's raw code; the remaining kinds are the
/// pipeline's own decisions.
#[derive(Clone, Copy, Debug, PartialEq, Eq, Structural)]
pub enum Error {
    /// A failure surfaced by the encoder/muxer collaborator (open, encode,
    /// convert, write or flush), identified by its raw error code.
    Encoder(i32),
    /// The codec advertises no pixel layout that host memory can populate.
    MissingFormat,
    /// The requested codec could not be resolved.
    InvalidCodec,
    /// The session's stream identifier is absent from the container's
    /// stream list — an invariant violation under correct operation.
    MissingStream,
}

impl Error {
    /// A short human-readable description of the error kind.
    pub fn message(&self) -> (r: &'static str)
        ensures
            self is Encoder ==> r@ == "Encoder error"@,
            self is MissingFormat ==> r@ == "Codec is missing a pixel format"@,
            self is InvalidCodec ==> r@ == "Can't find that codec"@,
            self is MissingStream ==> r@ == "Can't find the stream"@,
    {
        match self {
            Error::Encoder(_) => "Encoder error",
            Error::MissingFormat => "Codec is missing a pixel format",
            Error::InvalidCodec => "Can't find that codec",
            Error::MissingStream => "Can't find the stream",
        }
    }
}

} // verus!
