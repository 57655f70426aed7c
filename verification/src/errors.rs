//! The error channel shared by every generator.

use vstd::prelude::*;

verus! {

/// An error surfaced to the fuzzing engine by a generator.
///
/// The native strategies are infallible; the only failures this layer can
/// produce arise while crossing the foreign-runtime boundary, and every such
/// failure is converted into [`Error::Foreign`] so that callers can apply one
/// uniform retry/report policy to native and foreign generators alike.
pub enum Error {
    /// A failure while crossing into the embedded foreign runtime: lock
    /// acquisition, a missing member on the foreign object, or a type
    /// mismatch when extracting the returned bytes.
    Foreign(String),
}

impl Error {
    /// A human-readable description of the error.
    pub fn description(&self) -> (r: &String)
        ensures
            *r == self->Foreign_0,
    {
        match self {
            Error::Foreign(msg) => msg,
        }
    }
}

} // verus!
