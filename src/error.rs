use vstd::prelude::*;
use crate::json::Json;

verus! {

/// The three kinds of failure that a client operation reports.
#[derive(Debug, Clone, Copy, PartialEq, Eq, Structural)]
pub enum ErrorKind {
    /// The local file could not be read, or its path names no file.
    Io,
    /// The request failed on the network, or its response was no JSON.
    Transport,
    /// The response was JSON but lacked what the operation reads from it.
    Protocol,
}

/// A failure of a client operation.
#[derive(Debug, PartialEq)]
pub enum UploadError {
    /// The local file could not be read; the text says why.
    Io(String),
    /// The request or the decoding of its response failed; the text says why.
    Transport(String),
    /// An upload response without a string `id`; it holds the whole response body.
    MissingFileId(Json),
    /// A chat response without a string at `choices[0].message.content`.
    NoValidResponse,
    /// An embeddings response without an array of numbers at `data[0].embedding`.
    MalformedEmbedding,
}

/// The kind of an error.
pub open spec fn kind_of(e: UploadError) -> ErrorKind {
    match e {
        UploadError::Io(_) => ErrorKind::Io,
        UploadError::Transport(_) => ErrorKind::Transport,
        _ => ErrorKind::Protocol,
    }
}

impl UploadError {
    /// The kind of this error, for callers that branch on it.
    pub fn kind(&self) -> (k: ErrorKind)
        ensures
            k == kind_of(*self),
    {
        match self {
            UploadError::Io(_) => ErrorKind::Io,
            UploadError::Transport(_) => ErrorKind::Transport,
            _ => ErrorKind::Protocol,
        }
    }
}

} // verus!
