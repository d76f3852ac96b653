use vstd::prelude::*;
use crate::error::UploadError;
use crate::json::{field, field_opt, found, item_opt, is_text, text_opt, Json};

verus! {

/// The identifier that an upload response names: the string at `id`.
pub open spec fn file_id_of(body: Json) -> Option<Seq<char>> {
    text_opt(field(body, "id"@))
}

/// The answer that a chat response holds: the string at
/// `choices[0].message.content`.
pub open spec fn answer_of(body: Json) -> Option<Seq<char>> {
    text_opt(field_opt(field_opt(item_opt(field(body, "choices"@), 0), "message"@), "content"@))
}

/// The elements of the array at `data[0].embedding` of an embeddings response.
pub open spec fn embedding_items(body: Json) -> Option<Seq<Json>> {
    match field_opt(item_opt(field(body, "data"@), 0), "embedding"@) {
        Some(Json::Array(items)) => Some(items@),
        _ => None,
    }
}

/// The literal text of a number; nothing for any other value.
pub open spec fn number_text(j: Json) -> Option<Seq<char>> {
    match j {
        Json::Number(t) => Some(t@),
        _ => None,
    }
}

/// Whether every element of `items` is a number.
pub open spec fn all_numbers(items: Seq<Json>) -> bool {
    forall|i: int| 0 <= i < items.len() ==> #[trigger] number_text(items[i]) is Some
}

/// Whether `body` is the object `{"id": x}`.
pub open spec fn echoes_id(body: Json, x: Seq<char>) -> bool {
    match body {
        Json::Object(es) => es@.len() == 1 && es@[0].0@ == "id"@ && is_text(es@[0].1, x),
        _ => false,
    }
}

/// An upload response that is the object `{"id": x}` names exactly `x`, so
/// that the upload returns `x`.
pub proof fn echoed_id_is_returned(body: Json, x: Seq<char>)
    requires
        echoes_id(body, x),
    ensures
        file_id_of(body) == Some(x),
{
    let es = body->Object_0@;
    assert(es.drop_first().len() == 0);
}

fn owned_text(j: Option<&Json>) -> (r: Option<String>)
    ensures
        r matches Some(s) ==> text_opt(found(j)) == Some(s@),
        r is None ==> text_opt(found(j)) is None,
{
    match j {
        Some(v) => match v.as_text() {
            Some(s) => Some(s.clone()),
            None => None,
        },
        None => None,
    }
}

fn lookup_field<'a>(j: Option<&'a Json>, key: &str) -> (r: Option<&'a Json>)
    ensures
        found(r) == field_opt(found(j), key@),
{
    match j {
        Some(v) => v.get_field(key),
        None => None,
    }
}

fn lookup_first(j: Option<&Json>) -> (r: Option<&Json>)
    ensures
        found(r) == item_opt(found(j), 0),
{
    match j {
        Some(v) => v.get_item(0),
        None => None,
    }
}

/// The identifier of an uploaded file, from the outcome of the upload request:
/// its decoded response body, or the text of its transport failure.
pub fn file_id_from_response(response: Result<Json, String>) -> (r: Result<String, UploadError>)
    ensures
        response matches Err(e) ==> r == Err::<String, UploadError>(UploadError::Transport(e)),
        response matches Ok(body) ==> match file_id_of(body) {
            Some(id) => r is Ok && r->Ok_0@ == id,
            None => r == Err::<String, UploadError>(UploadError::MissingFileId(body)),
        },
        response is Ok && field(response->Ok_0, "id"@) is None ==> r == Err::<
            String,
            UploadError,
        >(UploadError::MissingFileId(response->Ok_0)),
{
    match response {
        Err(e) => Err(UploadError::Transport(e)),
        Ok(body) => {
            let id = owned_text(body.get_field("id"));
            match id {
                Some(s) => Ok(s),
                None => Err(UploadError::MissingFileId(body)),
            }
        },
    }
}

/// The answer of a chat completion, from the outcome of its request: its
/// decoded response body, or the text of its transport failure.
pub fn answer_from_response(response: Result<Json, String>) -> (r: Result<String, UploadError>)
    ensures
        response matches Err(e) ==> r == Err::<String, UploadError>(UploadError::Transport(e)),
        response matches Ok(body) ==> match answer_of(body) {
            Some(a) => r is Ok && r->Ok_0@ == a,
            None => r == Err::<String, UploadError>(UploadError::NoValidResponse),
        },
{
    match response {
        Err(e) => Err(UploadError::Transport(e)),
        Ok(body) => {
            let choice = lookup_first(body.get_field("choices"));
            let content = lookup_field(lookup_field(choice, "message"), "content");
            match owned_text(content) {
                Some(a) => Ok(a),
                None => Err(UploadError::NoValidResponse),
            }
        },
    }
}

/// The embedding vector of an embeddings response, as the literal text of
/// each number, from the outcome of its request: its decoded response body,
/// or the text of its transport failure.
///
/// A body without an array of numbers at `data[0].embedding` is reported as
/// an error of its own, not as an abort.
pub fn embedding_from_response(response: Result<Json, String>) -> (r: Result<
    Vec<String>,
    UploadError,
>)
    ensures
        response matches Err(e) ==> r == Err::<Vec<String>, UploadError>(
            UploadError::Transport(e),
        ),
        response matches Ok(body) ==> match embedding_items(body) {
            Some(items) => if all_numbers(items) {
                r is Ok && r->Ok_0@.len() == items.len() && forall|i: int|
                    0 <= i < items.len() ==> number_text(items[i]) == Some(
                        #[trigger] r->Ok_0@[i]@,
                    )
            } else {
                r == Err::<Vec<String>, UploadError>(UploadError::MalformedEmbedding)
            },
            None => r == Err::<Vec<String>, UploadError>(UploadError::MalformedEmbedding),
        },
{
    match response {
        Err(e) => Err(UploadError::Transport(e)),
        Ok(body) => {
            let first = lookup_first(body.get_field("data"));
            let embedding = lookup_field(first, "embedding");
            match embedding {
                Some(Json::Array(items)) => {
                    let mut out: Vec<String> = Vec::new();
                    let mut i: usize = 0;
                    while i < items.len()
                        invariant
                            response == Ok::<Json, String>(body),
                            embedding_items(body) == Some(items@),
                            i <= items@.len(),
                            out@.len() == i,
                            forall|k: int|
                                0 <= k < i ==> number_text(items@[k]) == Some(
                                    #[trigger] out@[k]@,
                                ),
                        decreases items@.len() - i,
                    {
                        match &items[i] {
                            Json::Number(t) => out.push(t.clone()),
                            _ => {
                                assert(number_text(items@[i as int]) is None);
                                return Err(UploadError::MalformedEmbedding);
                            },
                        }
                        i = i + 1;
                    }
                    assert forall|k: int| 0 <= k < items@.len() implies #[trigger] number_text(
                        items@[k],
                    ) is Some by {
                        assert(number_text(items@[k]) == Some(out@[k]@));
                    }
                    Ok(out)
                },
                _ => Err(UploadError::MalformedEmbedding),
            }
        },
    }
}

} // verus!
