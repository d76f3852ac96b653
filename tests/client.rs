use openai_client::{
    answer_from_response, chat_prompt, chat_request_body, embedding_from_response,
    embedding_request_body, file_id_from_response, prepare_upload, ErrorKind, Json, UploadError,
    CHAT_MODEL, EMBEDDING_MODEL, INVALID_PATH, SYSTEM_INSTRUCTION, UPLOAD_MIME, UPLOAD_PURPOSE,
};

fn s(text: &str) -> Json {
    Json::Str(text.to_string())
}

fn n(text: &str) -> Json {
    Json::Number(text.to_string())
}

fn obj(entries: Vec<(&str, Json)>) -> Json {
    Json::Object(entries.into_iter().map(|(k, v)| (k.to_string(), v)).collect())
}

fn entries(j: &Json) -> &Vec<(String, Json)> {
    match j {
        Json::Object(es) => es,
        other => panic!("not an object: {:?}", other),
    }
}

#[test]
fn upload_returns_echoed_id() {
    for x in ["file-abc123", "", "id with spaces", "ünïcode"] {
        let r = file_id_from_response(Ok(obj(vec![("id", s(x))])));
        assert_eq!(r, Ok(x.to_string()));
    }
}

#[test]
fn upload_id_among_other_fields() {
    let body = obj(vec![("object", s("file")), ("id", s("file-9")), ("bytes", n("12"))]);
    assert_eq!(file_id_from_response(Ok(body)), Ok("file-9".to_string()));
}

#[test]
fn upload_without_id_carries_body() {
    let body = obj(vec![("error", obj(vec![("message", s("bad key"))]))]);
    let r = file_id_from_response(Ok(obj(vec![("error", obj(vec![("message", s("bad key"))]))])));
    assert_eq!(r, Err(UploadError::MissingFileId(body)));
    assert_eq!(r.unwrap_err().kind(), ErrorKind::Protocol);
}

#[test]
fn upload_with_numeric_id_is_protocol_error() {
    let body = obj(vec![("id", n("42"))]);
    let r = file_id_from_response(Ok(obj(vec![("id", n("42"))])));
    assert_eq!(r, Err(UploadError::MissingFileId(body)));
}

#[test]
fn upload_with_non_object_body_is_protocol_error() {
    let r = file_id_from_response(Ok(Json::Array(vec![s("id")])));
    assert_eq!(r, Err(UploadError::MissingFileId(Json::Array(vec![s("id")]))));
}

#[test]
fn upload_transport_failure() {
    let r = file_id_from_response(Err("connection refused".to_string()));
    assert_eq!(r, Err(UploadError::Transport("connection refused".to_string())));
    assert_eq!(r.unwrap_err().kind(), ErrorKind::Transport);
}

#[test]
fn unreadable_file_gives_io_error_and_no_form() {
    let r = prepare_upload(Some("missing.json".to_string()), Err("No such file".to_string()));
    assert_eq!(r, Err(UploadError::Io("No such file".to_string())));
    assert_eq!(r.unwrap_err().kind(), ErrorKind::Io);
}

#[test]
fn path_without_file_name_gives_io_error() {
    let r = prepare_upload(None, Ok(vec![1, 2, 3]));
    assert_eq!(r, Err(UploadError::Io(INVALID_PATH.to_string())));
    assert_eq!(INVALID_PATH, "Invalid file path");
}

#[test]
fn upload_form_fields() {
    let form = prepare_upload(Some("bank_policies.json".to_string()), Ok(vec![7, 0, 255]))
        .unwrap();
    assert_eq!(form.purpose, "assistants");
    assert_eq!(form.purpose, UPLOAD_PURPOSE);
    assert_eq!(form.file_name, "bank_policies.json");
    assert_eq!(form.mime, "application/octet-stream");
    assert_eq!(form.mime, UPLOAD_MIME);
    assert_eq!(form.bytes, vec![7, 0, 255]);
}

#[test]
fn embeddings_three_values() {
    let body = obj(vec![(
        "data",
        Json::Array(vec![obj(vec![("embedding", Json::Array(vec![n("0.1"), n("0.2"), n("0.3")]))])]),
    )]);
    let texts = embedding_from_response(Ok(body)).unwrap();
    assert_eq!(texts, vec!["0.1".to_string(), "0.2".to_string(), "0.3".to_string()]);
    let values: Vec<f32> = texts.iter().map(|t| t.parse::<f32>().unwrap()).collect();
    let expected = [0.1f32, 0.2, 0.3];
    assert_eq!(values.len(), expected.len());
    for (v, e) in values.iter().zip(expected.iter()) {
        assert!((v - e).abs() <= f32::EPSILON);
    }
}

#[test]
fn embeddings_empty_vector() {
    let body = obj(vec![("data", Json::Array(vec![obj(vec![("embedding", Json::Array(vec![]))])]))]);
    assert_eq!(embedding_from_response(Ok(body)), Ok(vec![]));
}

#[test]
fn embeddings_missing_path_is_error() {
    let r = embedding_from_response(Ok(obj(vec![("data", Json::Array(vec![]))])));
    assert_eq!(r, Err(UploadError::MalformedEmbedding));
    let r = embedding_from_response(Ok(obj(vec![("object", s("list"))])));
    assert_eq!(r, Err(UploadError::MalformedEmbedding));
}

#[test]
fn embeddings_non_number_is_error() {
    let body = obj(vec![(
        "data",
        Json::Array(vec![obj(vec![("embedding", Json::Array(vec![n("0.1"), s("x")]))])]),
    )]);
    let r = embedding_from_response(Ok(body));
    assert_eq!(r, Err(UploadError::MalformedEmbedding));
    assert_eq!(r.unwrap_err().kind(), ErrorKind::Protocol);
}

#[test]
fn embeddings_transport_failure() {
    let r = embedding_from_response(Err("timeout".to_string()));
    assert_eq!(r, Err(UploadError::Transport("timeout".to_string())));
}

#[test]
fn chat_answer_is_returned() {
    let body = obj(vec![(
        "choices",
        Json::Array(vec![obj(vec![("message", obj(vec![("content", s("ANSWER"))]))])]),
    )]);
    assert_eq!(answer_from_response(Ok(body)), Ok("ANSWER".to_string()));
}

#[test]
fn chat_empty_choices_is_no_valid_response() {
    let r = answer_from_response(Ok(obj(vec![("choices", Json::Array(vec![]))])));
    assert_eq!(r, Err(UploadError::NoValidResponse));
    assert_eq!(r.unwrap_err().kind(), ErrorKind::Protocol);
}

#[test]
fn chat_non_string_content_is_no_valid_response() {
    let body = obj(vec![(
        "choices",
        Json::Array(vec![obj(vec![("message", obj(vec![("content", Json::Null)]))])]),
    )]);
    assert_eq!(answer_from_response(Ok(body)), Err(UploadError::NoValidResponse));
}

#[test]
fn chat_transport_failure() {
    let r = answer_from_response(Err("dns".to_string()));
    assert_eq!(r, Err(UploadError::Transport("dns".to_string())));
}

#[test]
fn chat_prompt_template() {
    assert_eq!(
        chat_prompt("Q", "C"),
        "Based on the following content:\n\nC\n\nQuery: Q\nAssistant Response:"
    );
    assert_eq!(
        chat_prompt("", ""),
        "Based on the following content:\n\n\n\nQuery: \nAssistant Response:"
    );
}

#[test]
fn chat_body_user_message() {
    let body = chat_request_body("Q", "C");
    let es = entries(&body);
    let messages = match &es[1] {
        (k, Json::Array(ms)) if k == "messages" => ms,
        other => panic!("unexpected entry: {:?}", other),
    };
    assert_eq!(messages.len(), 2);
    assert_eq!(
        messages[1],
        obj(vec![
            ("role", s("user")),
            ("content", s("Based on the following content:\n\nC\n\nQuery: Q\nAssistant Response:")),
        ])
    );
    assert_eq!(messages[0], obj(vec![("role", s("system")), ("content", s(SYSTEM_INSTRUCTION))]));
}

#[test]
fn chat_body_fields() {
    let body = chat_request_body("What is the policy for credit cards?", "{}");
    let es = entries(&body);
    assert_eq!(es.len(), 4);
    assert_eq!(es[0], ("model".to_string(), s("gpt-3.5-turbo")));
    assert_eq!(CHAT_MODEL, "gpt-3.5-turbo");
    assert_eq!(es[2], ("max_tokens".to_string(), n("200")));
    assert_eq!(es[3], ("temperature".to_string(), n("0.7")));
}

#[test]
fn embedding_body_fields() {
    let body = embedding_request_body("hello");
    assert_eq!(
        body,
        obj(vec![("model", s("text-embedding-ada-002")), ("input", s("hello"))])
    );
    assert_eq!(EMBEDDING_MODEL, "text-embedding-ada-002");
}

#[test]
fn field_lookup_takes_first_entry() {
    let body = obj(vec![("id", s("first")), ("id", s("second"))]);
    assert_eq!(body.get_field("id"), Some(&s("first")));
    assert_eq!(body.get_field("other"), None);
    assert_eq!(s("x").get_field("id"), None);
}

#[test]
fn item_and_text_lookup() {
    let arr = Json::Array(vec![s("a"), n("1")]);
    assert_eq!(arr.get_item(1), Some(&n("1")));
    assert_eq!(arr.get_item(2), None);
    assert_eq!(s("a").as_text(), Some(&"a".to_string()));
    assert_eq!(n("1").as_text(), None);
}
