//! The failure taxonomy of the thumbnail core.

use vstd::prelude::*;

verus! {

/// The import backend could not turn the source into geometry: the model is
/// malformed or its format unsupported. Recoverable at the caller; the
/// session is left with no asset installed.
#[derive(Clone, Copy, Debug, PartialEq, Eq, Structural)]
pub struct ImportError;

/// A screenshot capture failed fatally.
#[derive(Clone, Copy, Debug, PartialEq, Eq, Structural)]
pub enum CaptureError {
    /// The caller's buffer is smaller than `width * height * 4` bytes: a
    /// caller programming error.
    BufferTooSmall,
    /// The rendering backend never signalled readback completion: a broken
    /// backend or driver.
    ReadbackFailed,
}

/// A thumbnail handler was asked for a thumbnail before it was given an
/// input stream or file path.
#[derive(Clone, Copy, Debug, PartialEq, Eq, Structural)]
pub struct NotInitialized;

} // verus!
