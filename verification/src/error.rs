//! The ways an invocation can fail, and what each reports.

use vstd::prelude::*;
use vstd::string::*;

verus! {

/// Every failure ends the invocation; none is retried.
#[derive(Debug, PartialEq, Eq)]
pub enum StegoError {
    /// The path given for an image names no regular file.
    NotAFile { path: String },
    /// The file could not be read as an image.
    DecodeError { reason: String },
    /// Secret and decoy differ in width or height.
    CompatibilityError,
    /// A sequence of pixels or bytes does not fill its width and height.
    BufferAssemblyError,
    /// The wrong number of arguments: fewer than one path if `too_few`, else
    /// a count other than one or three.
    UsageError { too_few: bool },
}

impl StegoError {
    /// The text that `message` returns.
    pub open spec fn message_spec(&self) -> Seq<char> {
        match self {
            StegoError::NotAFile { path } => "Error: "@ + path@ + " is not a file."@,
            StegoError::DecodeError { reason } => reason@,
            StegoError::CompatibilityError =>
                "Error: Images must be the same size for LSB steganography."@,
            StegoError::BufferAssemblyError => "Failed to create image from raw data."@,
            StegoError::UsageError { too_few } => if *too_few {
                "Too few arguments. Please provide either one encoded image (to be decoded), or three arguments for encoding (the secret image, the decoy image, and finally the output file path including the desired file type)."@
            } else {
                "Too many arguments. Please provide either one encoded image (to be decoded), or three arguments for encoding (the secret image, the decoy image, and finally the output file path including the desired file type)."@
            },
        }
    }

    /// The human-readable report of this failure.
    pub fn message(&self) -> (text: String)
        ensures
            text@ == self.message_spec(),
    {
        match self {
            StegoError::NotAFile { path } => {
                String::from_str("Error: ").concat(path.as_str()).concat(" is not a file.")
            },
            StegoError::DecodeError { reason } => reason.clone(),
            StegoError::CompatibilityError => String::from_str(
                "Error: Images must be the same size for LSB steganography.",
            ),
            StegoError::BufferAssemblyError => String::from_str(
                "Failed to create image from raw data.",
            ),
            StegoError::UsageError { too_few } => if *too_few {
                String::from_str(
                    "Too few arguments. Please provide either one encoded image (to be decoded), or three arguments for encoding (the secret image, the decoy image, and finally the output file path including the desired file type).",
                )
            } else {
                String::from_str(
                    "Too many arguments. Please provide either one encoded image (to be decoded), or three arguments for encoding (the secret image, the decoy image, and finally the output file path including the desired file type).",
                )
            },
        }
    }
}

} // verus!
