use vstd::prelude::*;

verus! {

/// The failure taxonomy of one processing run: each stage fails fast with its
/// own variant, and no stage retries.
#[derive(Clone, Copy, Debug, PartialEq, Eq, Structural)]
pub enum ClipError {
    /// Identifier resolution failed (unreachable in practice: the resolver
    /// always falls back to the raw input).
    Resolve,
    /// Metadata retrieval, parsing, or required-field extraction failed.
    Fetch,
    /// Transport or local-write failure while streaming the video bytes.
    Download,
    /// A reported size or duration of zero reached the loop planner.
    Plan,
    /// The external transcoder could not be spawned or exited non-zero.
    Transcode,
    /// A temporary file could not be removed; callers log this rather than
    /// let it mask the primary result.
    Cleanup,
}

} // verus!
