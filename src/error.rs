use vstd::prelude::*;

verus! {

/// What went wrong while talking to the remote source.
#[derive(Clone, Copy, Debug, PartialEq, Eq, Structural)]
pub enum ApiErrorKind {
    /// A network or I/O failure.
    Transport,
    /// The source has nothing (more) to return; ends a pagination stream.
    NoResult,
    /// The response could not be decoded into entities.
    Malformed,
}

/// What went wrong while talking to the cache.
#[derive(Clone, Copy, Debug, PartialEq, Eq, Structural)]
pub enum CacheErrorKind {
    /// The entry is absent: the normal trigger of a fetch, never surfaced.
    Miss,
    /// The storage layer failed: fatal for the operation in progress.
    Backend,
}

/// The uniform error of the orchestrator, the integrity pass and the stream.
#[derive(Clone, Copy, Debug, PartialEq, Eq, Structural)]
pub enum GdcfError {
    Api(ApiErrorKind),
    Cache(CacheErrorKind),
}

impl ApiErrorKind {
    pub fn is_no_result(&self) -> (r: bool)
        ensures
            r == (*self == ApiErrorKind::NoResult),
    {
        match self {
            ApiErrorKind::NoResult => true,
            _ => false,
        }
    }
}

} // verus!
