//! What the routes answer that need neither caller nor storage.

use vstd::prelude::*;

verus! {

/// An answer that is one message.
#[derive(Debug, Clone, PartialEq, Eq)]
pub struct GenericResponse {
    pub message: String,
}

/// The answer of the health check.
pub fn health() -> (r: GenericResponse)
    ensures
        r.message@ == "Server is up and running"@,
{
    GenericResponse { message: "Server is up and running".to_owned() }
}

} // verus!
