use vstd::prelude::*;

verus! {

/// The failure taxonomy of a run. Per-image decode failures are isolated
/// to that image; the others end their stage or the whole run.
#[derive(Clone, Copy, PartialEq, Eq, Structural, Debug)]
pub enum PosterError {
    /// One image file was unreadable or of an unrecognized format; the
    /// image is skipped and the run continues.
    DecodeFailure,
    /// The target directory is missing or unreadable; the run aborts
    /// before any canvas work begins.
    DirectoryFailure,
    /// Palette generation, re-mapping or re-optimization failed; only the
    /// compression stage is lost, the raw raster remains valid.
    QuantizationFailure,
    /// The final write of the raster to storage failed; the run as a
    /// whole fails.
    PersistFailure,
}

/// The description of each failure stage.
pub open spec fn spec_message(e: PosterError) -> Seq<char> {
    match e {
        PosterError::DecodeFailure => "image could not be decoded"@,
        PosterError::DirectoryFailure => "directory could not be read"@,
        PosterError::QuantizationFailure => "palette quantization failed"@,
        PosterError::PersistFailure => "output could not be written"@,
    }
}

impl PosterError {
    /// A human-readable description of the failure stage.
    pub fn message(&self) -> (m: &'static str)
        ensures
            m@ == spec_message(*self),
    {
        match self {
            PosterError::DecodeFailure => "image could not be decoded",
            PosterError::DirectoryFailure => "directory could not be read",
            PosterError::QuantizationFailure => "palette quantization failed",
            PosterError::PersistFailure => "output could not be written",
        }
    }
}

} // verus!
