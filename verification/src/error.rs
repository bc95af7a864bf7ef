//! The two ways in which a call can fail.

use vstd::prelude::*;

verus! {

/// The request could not be completed, or what came back could not be read as
/// text. It carries what the transport said of the failure.
#[derive(Debug, Clone, PartialEq, Eq)]
pub struct FetchError {
    pub message: String,
}

/// The text came back, but is not what the endpoint was asked for.
#[derive(Debug, Clone, Copy, PartialEq, Eq)]
pub enum DecodeError {
    /// The text is not JSON.
    MalformedJson,
    /// The text is JSON of another shape: a value of another type, or a
    /// record without one of its required fields.
    UnexpectedShape,
    /// The text is not an unsigned decimal number of 32 bits.
    NotANumber,
}

/// Why a call of the client failed.
#[derive(Debug, Clone, PartialEq, Eq)]
pub enum FetcherError {
    /// The transport failed; its error is handed on as it came.
    Fetch(FetchError),
    /// The transport answered, and the answer could not be decoded.
    Decode(DecodeError),
}

impl DecodeError {
    /// What went wrong, in words.
    pub open spec fn text(self) -> Seq<char> {
        match self {
            DecodeError::MalformedJson => "the answer is not JSON"@,
            DecodeError::UnexpectedShape => "the answer is JSON of another shape"@,
            DecodeError::NotANumber => "the answer is not an unsigned number of 32 bits"@,
        }
    }

    /// What went wrong, in words.
    pub fn message(&self) -> (r: String)
        ensures
            r@ == self.text(),
    {
        match self {
            DecodeError::MalformedJson => "the answer is not JSON".to_owned(),
            DecodeError::UnexpectedShape => "the answer is JSON of another shape".to_owned(),
            DecodeError::NotANumber => "the answer is not an unsigned number of 32 bits".to_owned(),
        }
    }
}

impl FetcherError {
    /// What went wrong, in words: which of the two steps failed, and what it
    /// said.
    pub open spec fn text(self) -> Seq<char> {
        match self {
            FetcherError::Fetch(e) => "the request failed: "@ + e.message@,
            FetcherError::Decode(e) => "the answer was not understood: "@ + e.text(),
        }
    }

    /// What went wrong, in words.
    pub fn message(&self) -> (r: String)
        ensures
            r@ == self.text(),
    {
        match self {
            FetcherError::Fetch(e) => "the request failed: ".to_owned().concat(e.message.as_str()),
            FetcherError::Decode(e) => "the answer was not understood: ".to_owned().concat(
                e.message().as_str(),
            ),
        }
    }
}

} // verus!
