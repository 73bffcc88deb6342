//! Errors of the lossless-encoder boundary.

use vstd::prelude::*;

verus! {

/// What can go wrong while setting up or driving the stream encoder that
/// writes the lossless output file.
pub enum Error {
    /// The output path could not be converted into a C-style string; the
    /// offending path is carried along.
    PathEncoding(String),
    /// The encoder refused to initialize; carries the status code the
    /// encoder reported.
    EncoderInitError(u32),
    /// The encoder failed while consuming samples or finishing the
    /// stream.
    EncoderError,
}

impl Error {
    /// The initialization status code, where one was reported.
    pub fn init_code(&self) -> (r: Option<u32>)
        ensures
            r == (match self {
                Error::EncoderInitError(code) => Some(*code),
                _ => None::<u32>,
            }),
    {
        match self {
            Error::EncoderInitError(code) => Some(*code),
            _ => None,
        }
    }
}

} // verus!
