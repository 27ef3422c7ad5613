//! The failure conditions of extension resolution.

use vstd::prelude::*;

verus! {

/// Why no extension could be resolved.
///
/// Every failure is a deterministic function of the input; nothing is
/// silently swallowed or truncated.
#[derive(Debug, Clone)]
pub enum ExtError {
    /// A URL-derived extension exceeds the `ShortStr` bound. Carries the
    /// offending text.
    ExtensionTooLong(String),
    /// The normalized content type has no table entry. Carries the original,
    /// unnormalized header value.
    UnknownMimeType(String),
    /// The URL holds no `.` and the response carries no `Content-Type` header.
    MissingContentType,
}

} // verus!
