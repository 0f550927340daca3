//! The discriminated error value that a whole conversion run returns.
//!
//! Three kinds of failure surface to the caller: input/output failure,
//! rejection of the binary container, and rejection of the textual
//! interchange representation.  Each variant carries the underlying
//! diagnostic as text.

use vstd::prelude::*;

use crate::util::clone_string;

verus! {

#[derive(Clone, Debug, PartialEq)]
pub enum FcmConversionError {
    /// The source could not be read or the target could not be written.
    IoError(String),
    /// The domain-model library rejected the binary container.
    FcmError(String),
    /// The textual representation did not parse into the expected shape.
    SerdeError(String),
}

impl FcmConversionError {
    /// The diagnostic carried by the error, whichever kind it is.
    pub fn message(&self) -> (r: String)
        ensures
            r@ == self.spec_message(),
    {
        match self {
            FcmConversionError::IoError(msg) => clone_string(msg),
            FcmConversionError::FcmError(msg) => clone_string(msg),
            FcmConversionError::SerdeError(msg) => clone_string(msg),
        }
    }

    pub open spec fn spec_message(&self) -> Seq<char> {
        match self {
            FcmConversionError::IoError(msg) => msg@,
            FcmConversionError::FcmError(msg) => msg@,
            FcmConversionError::SerdeError(msg) => msg@,
        }
    }
}

} // verus!
