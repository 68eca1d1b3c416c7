//! The ways in which the store can fail a request.

use vstd::prelude::*;

verus! {

/// Why an operation on the store gave no result. Callers tell a missing row
/// from every other failure by the variant, never by a message.
#[derive(Debug, Clone, Copy, PartialEq, Eq, Structural)]
pub enum StoreError {
    /// No row has the identifier that was asked for.
    NotFound,
    /// A row came back that holds no valid todo.
    Decode,
    /// The driver failed: the connection, a constraint, anything else.
    Driver,
}

} // verus!
