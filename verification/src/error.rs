//! Why an upload can be refused.

use vstd::prelude::*;

verus! {

/// The one way in which an upload fails: nothing else about it is validated.
#[derive(Clone, Copy, Debug, PartialEq, Eq)]
pub enum UploadError {
    /// The image that came with the upload has no bytes.
    EmptyImage,
}

impl UploadError {
    /// The message that goes with the error.
    pub fn message(&self) -> (text: String)
        ensures
            text@ == "Image data is empty."@,
    {
        match self {
            UploadError::EmptyImage => String::from_str("Image data is empty."),
        }
    }
}

} // verus!
