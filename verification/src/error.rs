//! The one way in which a conversion can fail.

use vstd::prelude::*;

verus! {

/// Why an asset address could not be made.
#[derive(Clone, Copy, Debug, PartialEq, Eq, Structural)]
pub enum Error {
    /// The payload is not a public-key hash or a script hash. The asset
    /// namespace has no encoding for it.
    UnsupportedPayload,
}

impl Error {
    /// The text that describes the error to a person.
    pub fn message(&self) -> (text: &'static str)
        ensures
            text@ == "the asset address of the witness program is not defined"@,
    {
        match self {
            Error::UnsupportedPayload => "the asset address of the witness program is not defined",
        }
    }
}

} // verus!
