//! The ways in which a step of the relay can fail.

use vstd::prelude::*;

verus! {

/// Why a step failed. Every failure is fatal to the task that met it.
#[derive(Clone, Copy, PartialEq, Eq, Debug, Structural)]
pub enum Failure {
    /// The store could not be reached.
    Connection,
    /// The store answered a request with an error.
    Store,
    /// The wait for a message ran out with none there.
    Timeout,
    /// The output sink could not be created or written.
    LocalIo,
}

} // verus!
