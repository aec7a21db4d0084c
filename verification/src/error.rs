use vstd::prelude::*;

verus! {

/// Why a file could not be read.
#[derive(Clone, Copy, Debug, PartialEq, Eq, Structural)]
pub enum IoFailure {
    /// The path does not exist.
    NotFound,
    /// The path exists but may not be read.
    AccessDenied,
    /// Any other failure of the transport.
    Other,
}

/// Everything that can go wrong while loading or querying a model.
#[derive(Clone, Copy, Debug, PartialEq, Eq, Structural)]
pub enum LoadError {
    /// A file is missing or unreadable.
    Io(IoFailure),
    /// A document does not have the structure its schema asks for.
    Parse,
    /// The manifest's version is not one this library reads.
    UnsupportedVersion,
    /// A group's target is neither a parameter nor a part.
    MalformedGroup,
    /// The counts a motion document declares differ from what it holds.
    CountMismatch,
    /// The segments of a curve do not follow one another in time.
    OutOfOrderSegments,
    /// No expression of that name was declared.
    UnknownExpression,
}

} // verus!
