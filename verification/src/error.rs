//! The error of the code tables.

use vstd::prelude::*;

verus! {

/// Why a short code of the dataset could not be decoded.
#[derive(Debug, PartialEq, Eq, Hash)]
pub enum DecodeError {
    /// No variant has this code.
    UnknownCode(String),
}

impl DecodeError {
    /// The code that was asked for.
    pub open spec fn code(self) -> Seq<char> {
        match self {
            DecodeError::UnknownCode(c) => c@,
        }
    }
}

impl Clone for DecodeError {
    fn clone(&self) -> (r: Self)
        ensures
            r == *self,
    {
        match self {
            DecodeError::UnknownCode(c) => DecodeError::UnknownCode(c.clone()),
        }
    }
}

} // verus!
