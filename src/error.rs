//! Errors reported by driver operations.

use vstd::prelude::*;

verus! {

/// What went wrong while an operation was carried out.
#[derive(Clone, Copy, Debug, PartialEq, Eq, Structural)]
pub enum Error {
    /// The blocking bus transaction failed.
    CommError,
    /// Neither a blocking bus nor a transfer callback is configured.
    NoInterfaceDefined,
    /// Driving the enable line high or low failed.
    EnableLine,
}

} // verus!
