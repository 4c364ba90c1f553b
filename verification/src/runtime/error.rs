//! What can go wrong while a program runs.

use vstd::prelude::*;

verus! {

/// `std::io::Error`: carried through as it comes.
#[verifier::external_type_specification]
#[verifier::external_body]
pub struct ExIoError(std::io::Error);

/// Errors returned by the runtime program loop.
#[derive(Debug)]
pub enum ProgramError {
    /// The terminal could not be read or written.
    Io(std::io::Error),
}

impl ProgramError {
    /// The error for a failure of the terminal.
    pub fn from_io(error: std::io::Error) -> (e: Self)
        ensures
            e == ProgramError::Io(error),
    {
        ProgramError::Io(error)
    }
}

} // verus!
