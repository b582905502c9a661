use vstd::prelude::*;

verus! {

/// Errors of this library.
#[derive(Debug, Clone, Copy, PartialEq, Eq, Structural)]
pub enum Error {
    /// An RPC identifier is not of the form `name:implementor` with a valid name and a valid
    /// implementor.
    InvalidRpcIdentifier,
}

} // verus!
