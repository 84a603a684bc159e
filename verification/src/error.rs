//! The kinds of failure that end a run.

use vstd::prelude::*;

verus! {

/// Why a request to a collaborator failed.
#[derive(Clone, Copy, Debug, PartialEq, Eq, Structural)]
pub enum IngestError {
    /// The upstream API could not be reached, or the transport failed.
    UpstreamUnavailable,
    /// The upstream API answered with something of an unexpected shape.
    UpstreamMalformed,
    /// The store rejected a write.
    PersistenceFailure,
}

} // verus!
