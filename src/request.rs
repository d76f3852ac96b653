use vstd::prelude::*;
use crate::error::UploadError;
use crate::json::{is_number, is_text, Json};

verus! {

/// Where documents are uploaded.
pub const FILES_URL: &'static str = "https://api.openai.com/v1/files";

/// Where embeddings are requested.
pub const EMBEDDINGS_URL: &'static str = "https://api.openai.com/v1/embeddings";

/// Where chat completions are requested.
pub const CHAT_URL: &'static str = "https://api.openai.com/v1/chat/completions";

/// The model that computes embeddings.
pub const EMBEDDING_MODEL: &'static str = "text-embedding-ada-002";

/// The model that answers chat queries.
pub const CHAT_MODEL: &'static str = "gpt-3.5-turbo";

/// The system turn that opens every chat query.
pub const SYSTEM_INSTRUCTION: &'static str =
    "You are an assistant that uses provided content to answer queries.";

/// The cap on the tokens of a chat answer, as a JSON number.
pub const MAX_TOKENS: &'static str = "200";

/// The sampling temperature of a chat query, as a JSON number.
pub const TEMPERATURE: &'static str = "0.7";

/// The `purpose` field of every upload.
pub const UPLOAD_PURPOSE: &'static str = "assistants";

/// The content type under which an uploaded file is sent.
pub const UPLOAD_MIME: &'static str = "application/octet-stream";

/// The message of the I/O error for a path that names no file.
pub const INVALID_PATH: &'static str = "Invalid file path";

/// The user turn of a chat query: the content verbatim, then the query.
pub open spec fn prompt_text(query: Seq<char>, content: Seq<char>) -> Seq<char> {
    "Based on the following content:\n\n"@ + content + "\n\nQuery: "@ + query
        + "\nAssistant Response:"@
}

/// Whether `j` is the message object `{"role": role, "content": content}`.
pub open spec fn is_message(j: Json, role: Seq<char>, content: Seq<char>) -> bool {
    match j {
        Json::Object(es) => es@.len() == 2 && es@[0].0@ == "role"@ && is_text(es@[0].1, role)
            && es@[1].0@ == "content"@ && is_text(es@[1].1, content),
        _ => false,
    }
}

/// Whether `j` is the body of the chat request for `query` grounded in `content`:
/// the model, a system turn and one user turn, the token cap and the temperature.
pub open spec fn is_chat_body(j: Json, query: Seq<char>, content: Seq<char>) -> bool {
    match j {
        Json::Object(es) => es@.len() == 4
            && es@[0].0@ == "model"@ && is_text(es@[0].1, CHAT_MODEL@)
            && es@[1].0@ == "messages"@ && match es@[1].1 {
                Json::Array(ms) => ms@.len() == 2
                    && is_message(ms@[0], "system"@, SYSTEM_INSTRUCTION@)
                    && is_message(ms@[1], "user"@, prompt_text(query, content)),
                _ => false,
            }
            && es@[2].0@ == "max_tokens"@ && is_number(es@[2].1, MAX_TOKENS@)
            && es@[3].0@ == "temperature"@ && is_number(es@[3].1, TEMPERATURE@),
        _ => false,
    }
}

/// Whether `j` is the body of the embeddings request for `input`.
pub open spec fn is_embedding_body(j: Json, input: Seq<char>) -> bool {
    match j {
        Json::Object(es) => es@.len() == 2
            && es@[0].0@ == "model"@ && is_text(es@[0].1, EMBEDDING_MODEL@)
            && es@[1].0@ == "input"@ && is_text(es@[1].1, input),
        _ => false,
    }
}

/// The multipart form of an upload: a `purpose` text field and the file itself,
/// sent under its name and a content type.
#[derive(Debug, PartialEq)]
pub struct UploadForm {
    pub purpose: String,
    pub file_name: String,
    pub mime: String,
    pub bytes: Vec<u8>,
}

/// The user turn of a chat query for `query`, grounded in `content`.
pub fn chat_prompt(query: &str, content: &str) -> (r: String)
    ensures
        r@ == prompt_text(query@, content@),
{
    let mut p = String::from_str("Based on the following content:\n\n");
    p.append(content);
    p.append("\n\nQuery: ");
    p.append(query);
    p.append("\nAssistant Response:");
    p
}

fn text_entry(key: &str, value: &str) -> (r: (String, Json))
    ensures
        r.0@ == key@,
        is_text(r.1, value@),
{
    (String::from_str(key), Json::Str(String::from_str(value)))
}

fn message(role: &str, content: String) -> (r: Json)
    ensures
        is_message(r, role@, content@),
{
    let mut es: Vec<(String, Json)> = Vec::new();
    es.push(text_entry("role", role));
    es.push((String::from_str("content"), Json::Str(content)));
    Json::Object(es)
}

/// The JSON body of the chat request for `query`, grounded in `content`.
pub fn chat_request_body(query: &str, content: &str) -> (r: Json)
    ensures
        is_chat_body(r, query@, content@),
{
    let mut messages: Vec<Json> = Vec::new();
    messages.push(message("system", String::from_str(SYSTEM_INSTRUCTION)));
    messages.push(message("user", chat_prompt(query, content)));
    let mut es: Vec<(String, Json)> = Vec::new();
    es.push(text_entry("model", CHAT_MODEL));
    es.push((String::from_str("messages"), Json::Array(messages)));
    es.push((String::from_str("max_tokens"), Json::Number(String::from_str(MAX_TOKENS))));
    es.push((String::from_str("temperature"), Json::Number(String::from_str(TEMPERATURE))));
    Json::Object(es)
}

/// The JSON body of the embeddings request for `text`.
pub fn embedding_request_body(text: &str) -> (r: Json)
    ensures
        is_embedding_body(r, text@),
{
    let mut es: Vec<(String, Json)> = Vec::new();
    es.push(text_entry("model", EMBEDDING_MODEL));
    es.push(text_entry("input", text));
    Json::Object(es)
}

/// The form that uploads a file, from the file's name (none where its path
/// names no file) and the outcome of reading its bytes.
///
/// Any error is an I/O error, and no form comes with it: nothing is to be sent.
pub fn prepare_upload(file_name: Option<String>, contents: Result<Vec<u8>, String>) -> (r: Result<
    UploadForm,
    UploadError,
>)
    ensures
        file_name is None ==> (r is Err && (r->Err_0 matches UploadError::Io(m) && m@
            == INVALID_PATH@)),
        file_name is Some && contents is Err ==> r == Err::<UploadForm, UploadError>(
            UploadError::Io(contents->Err_0),
        ),
        file_name is Some && contents is Ok ==> r is Ok && r->Ok_0.purpose@ == UPLOAD_PURPOSE@
            && r->Ok_0.file_name == file_name->Some_0 && r->Ok_0.mime@ == UPLOAD_MIME@
            && r->Ok_0.bytes == contents->Ok_0,
{
    match file_name {
        None => Err(UploadError::Io(String::from_str(INVALID_PATH))),
        Some(name) => match contents {
            Err(e) => Err(UploadError::Io(e)),
            Ok(bytes) => Ok(
                UploadForm {
                    purpose: String::from_str(UPLOAD_PURPOSE),
                    file_name: name,
                    mime: String::from_str(UPLOAD_MIME),
                    bytes,
                },
            ),
        },
    }
}

} // verus!
