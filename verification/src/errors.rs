//! The failure taxonomy of the thumbnail pipeline. Each stage that can
//! fail has its own variant, carrying a human-readable cause from the
//! layer that failed, so that a caller can tell a filesystem problem from
//! a content problem.

use vstd::prelude::*;
use vstd::string::StringExecFns;

verus! {

/// A typed failure of one stage of the thumbnail pipeline.
#[derive(Debug)]
pub enum ThumbnailError {
    /// The source file could not be read (missing or unreadable path).
    LoadError(String),
    /// The bytes read are not a recognized or valid image encoding.
    DecodeError(String),
    /// The target geometry is degenerate (for instance a derived height
    /// of zero, or one too large to represent).
    ResizeError(String),
    /// The resampled raster could not be serialized to the output format.
    EncodeError(String),
}

impl ThumbnailError {
    /// The cause string carried by the error, whatever the stage.
    pub fn cause(&self) -> (c: &String)
        ensures
            match self {
                ThumbnailError::LoadError(s) => c == s,
                ThumbnailError::DecodeError(s) => c == s,
                ThumbnailError::ResizeError(s) => c == s,
                ThumbnailError::EncodeError(s) => c == s,
            },
    {
        match self {
            ThumbnailError::LoadError(s) => s,
            ThumbnailError::DecodeError(s) => s,
            ThumbnailError::ResizeError(s) => s,
            ThumbnailError::EncodeError(s) => s,
        }
    }

    /// A message naming the stage that failed, followed by the cause.
    pub fn message(&self) -> (m: String)
        ensures
            match self {
                ThumbnailError::LoadError(s) => m@ == "Failed to open image: "@ + s@,
                ThumbnailError::DecodeError(s) => m@ == "Failed to decode image: "@ + s@,
                ThumbnailError::ResizeError(s) => m@ == "Failed to resize image: "@ + s@,
                ThumbnailError::EncodeError(s) => m@ == "Failed to encode thumbnail: "@ + s@,
            },
    {
        match self {
            ThumbnailError::LoadError(s) => String::from_str("Failed to open image: ").concat(
                s.as_str(),
            ),
            ThumbnailError::DecodeError(s) => String::from_str("Failed to decode image: ").concat(
                s.as_str(),
            ),
            ThumbnailError::ResizeError(s) => String::from_str("Failed to resize image: ").concat(
                s.as_str(),
            ),
            ThumbnailError::EncodeError(s) => String::from_str(
                "Failed to encode thumbnail: ",
            ).concat(s.as_str()),
        }
    }
}

} // verus!
