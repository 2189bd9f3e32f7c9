use vstd::prelude::*;

verus! {

/// The failures the layout decoder reports. None is retried and no
/// partial value is returned alongside one.
#[derive(Clone, Copy, Debug, PartialEq, Eq, Structural)]
pub enum CiaError {
    /// The underlying byte source could not be opened or read.
    SourceUnavailable,
    /// The byte source ends before a field or record is fully read.
    TruncatedInput,
    /// The ticket's leading 4-byte tag matches no known signature algorithm.
    UnrecognizedSignatureAlgorithm,
}

} // verus!
