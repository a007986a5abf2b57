use vstd::prelude::*;

verus! {

/// Failure classes surfaced by the bridge. Every engine- or protocol-level
/// failure is reported as one of these; none is silently swallowed.
#[derive(Clone, Copy, Debug, PartialEq, Eq, Structural)]
pub enum Error {
    /// A boundary call arrived before the one-time setup.
    NotInitialized,
    /// A handle or name crossing the boundary was malformed.
    InvalidArgument,
    /// The location does not hold a dataset that can be opened.
    OpenError,
    /// The location already holds a dataset, so a fresh one cannot be created.
    CreateError,
    /// An append was attempted from a source whose schema differs from the
    /// open dataset's schema.
    SchemaMismatchError,
    /// The foreign stream failed mid-stream or violated the pull contract.
    StreamProtocolError,
    /// The engine rejected or aborted a write.
    EngineWriteError,
    /// The engine produced data the read path could not interpret.
    EngineReadError,
    /// An operation that needs an open dataset handle found none.
    NotOpenError,
    /// A filesystem-level failure outside the engine's own protocol.
    IoError,
}

/// The integer status reported across the boundary for a failure class.
/// Success is reported as zero; every failure class maps to its own
/// negative code.
pub open spec fn spec_status_code(e: Error) -> int {
    match e {
        Error::NotInitialized => -1,
        Error::InvalidArgument => -2,
        Error::OpenError => -3,
        Error::CreateError => -4,
        Error::SchemaMismatchError => -5,
        Error::StreamProtocolError => -6,
        Error::EngineWriteError => -7,
        Error::EngineReadError => -8,
        Error::NotOpenError => -9,
        Error::IoError => -10,
    }
}

/// The status code for a whole boundary result: zero for success, the
/// failure class's own negative code otherwise.
pub open spec fn spec_status_of(r: Result<(), Error>) -> int {
    match r {
        Ok(()) => 0,
        Err(e) => spec_status_code(e),
    }
}

impl Error {
    /// The negative status code reported across the boundary for this
    /// failure class.
    pub fn status_code(&self) -> (r: i32)
        ensures
            r as int == spec_status_code(*self),
            r < 0,
    {
        match self {
            Error::NotInitialized => -1,
            Error::InvalidArgument => -2,
            Error::OpenError => -3,
            Error::CreateError => -4,
            Error::SchemaMismatchError => -5,
            Error::StreamProtocolError => -6,
            Error::EngineWriteError => -7,
            Error::EngineReadError => -8,
            Error::NotOpenError => -9,
            Error::IoError => -10,
        }
    }
}

/// The status code for a boundary result.
pub fn status_of(r: &Result<(), Error>) -> (code: i32)
    ensures
        code as int == spec_status_of(*r),
{
    match r {
        Ok(()) => 0,
        Err(e) => e.status_code(),
    }
}

/// Distinct failure classes never share a status code, so a foreign caller
/// can recover the class from the code alone.
pub proof fn lemma_status_codes_distinct(a: Error, b: Error)
    ensures
        spec_status_code(a) == spec_status_code(b) ==> a == b,
{
}

} // verus!
