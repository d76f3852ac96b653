//! A client library for a large-language-model HTTP API: it describes the
//! requests for uploading a document, fetching embeddings and asking a
//! chat-completion question, and interprets the decoded responses.
//!
//! The transport itself (HTTP, JSON text, files) is left to the caller, which
//! hands this library plain values and receives plain values back.

mod error;
mod json;
mod request;
mod response;

pub use error::{ErrorKind, UploadError};
pub use json::Json;
pub use request::{
    chat_prompt, chat_request_body, embedding_request_body, prepare_upload, UploadForm, CHAT_MODEL,
    CHAT_URL, EMBEDDINGS_URL, EMBEDDING_MODEL, FILES_URL, INVALID_PATH, MAX_TOKENS,
    SYSTEM_INSTRUCTION, TEMPERATURE, UPLOAD_MIME, UPLOAD_PURPOSE,
};
pub use response::{answer_from_response, embedding_from_response, file_id_from_response};
