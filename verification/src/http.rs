//! The answers of the HTTP endpoints: status and body, from the outcome of
//! the work each endpoint does.
use vstd::prelude::*;
use vstd::string::*;
use crate::ids::{hyphenated_text, id_text, parse_id, parsed_id};

verus! {

/// Status of an answer: 200, 201 or 400.
#[derive(Clone, Copy, Debug, PartialEq, Eq)]
pub enum Status {
    Success,
    Created,
    BadRequest,
}

/// Body of an answer: none, a JSON text written here, or a value that is
/// sent as JSON.
#[derive(Debug, PartialEq, Eq)]
pub enum Body<T> {
    Empty,
    Text(String),
    Json(T),
}

/// An answer.
#[derive(Debug, PartialEq, Eq)]
pub struct Reply<T> {
    pub status: Status,
    pub body: Body<T>,
}

/// JSON text of an error: `{"error":"<message>"}` (the message is not escaped).
pub open spec fn error_json(msg: Seq<char>) -> Seq<char> {
    "{\"error\":\""@ + msg + "\"}"@
}

/// JSON text naming one id under `key`: `{"<key>":"<hyphenated id>"}`.
pub open spec fn id_json(key: Seq<char>, id: u128) -> Seq<char> {
    "{\""@ + key + "\":\""@ + hyphenated_text(id) + "\"}"@
}

/// `reply` has `status` and the JSON text `text`.
pub open spec fn is_text_reply<T>(reply: Reply<T>, status: Status, text: Seq<char>) -> bool {
    reply.status == status && reply.body is Text && reply.body->Text_0@ == text
}

/// The answer to a failure: bad request, with the message as JSON.
pub fn error_reply<T>(msg: &str) -> (r: Reply<T>)
    ensures
        is_text_reply(r, Status::BadRequest, error_json(msg@)),
{
    let mut text = String::from_str("{\"error\":\"");
    text.append(msg);
    text.append("\"}");
    Reply { status: Status::BadRequest, body: Body::Text(text) }
}

/// JSON text naming one id under `key`.
fn id_body(key: &str, id: u128) -> (text: String)
    ensures
        text@ == id_json(key@, id),
{
    let mut text = String::from_str("{\"");
    text.append(key);
    text.append("\":\"");
    let shown = id_text(id);
    text.append(shown.as_str());
    text.append("\"}");
    text
}

/// The answer of an endpoint that creates something and answers nothing
/// more: created with an empty body, or the error.
pub fn created_reply(res: &Result<(), String>) -> (r: Reply<()>)
    ensures
        res is Ok ==> r.status == Status::Created && r.body is Empty,
        res matches Err(e) ==> is_text_reply(r, Status::BadRequest, error_json(e@)),
{
    match res {
        Ok(()) => Reply { status: Status::Created, body: Body::Empty },
        Err(e) => error_reply(e.as_str()),
    }
}

/// The answer to a request for a new activation code: created, with the
/// code as JSON, or the error.
pub fn activation_code_reply(res: &Result<u128, String>) -> (r: Reply<()>)
    ensures
        res matches Ok(code) ==> is_text_reply(r, Status::Created, id_json("activation_code"@, *code)),
        res matches Err(e) ==> is_text_reply(r, Status::BadRequest, error_json(e@)),
{
    match res {
        Ok(code) => Reply { status: Status::Created, body: Body::Text(id_body("activation_code", *code)) },
        Err(e) => error_reply(e.as_str()),
    }
}

/// The answer to a registration: OK, with the id that registration answers
/// (the activation code) under the key `userid`, or the error.
pub fn user_created_reply(res: &Result<u128, String>) -> (r: Reply<()>)
    ensures
        res matches Ok(id) ==> is_text_reply(r, Status::Success, id_json("userid"@, *id)),
        res matches Err(e) ==> is_text_reply(r, Status::BadRequest, error_json(e@)),
{
    match res {
        Ok(id) => Reply { status: Status::Success, body: Body::Text(id_body("userid", *id)) },
        Err(e) => error_reply(e.as_str()),
    }
}

/// The answer of an endpoint that returns a value: OK with the value as
/// JSON, or the error.
pub fn json_reply<T>(res: Result<T, String>) -> (r: Reply<T>)
    ensures
        res matches Ok(v) ==> r.status == Status::Success && r.body == Body::<T>::Json(v),
        res matches Err(e) ==> is_text_reply(r, Status::BadRequest, error_json(e@)),
{
    match res {
        Ok(v) => Reply { status: Status::Success, body: Body::Json(v) },
        Err(e) => error_reply(e.as_str()),
    }
}

/// The user id named in a request path, or the answer to a path that does
/// not hold one: bad request, with the parse error as JSON. An id in the
/// hyphenated form that the service's answers show is accepted.
pub fn id_from_path<T>(path: &str) -> (r: Result<u128, Reply<T>>)
    ensures
        parsed_id(path@) matches Ok(id) ==> r is Ok && r->Ok_0 == id,
        parsed_id(path@) matches Err(e) ==> r is Err && is_text_reply(r->Err_0, Status::BadRequest, error_json(e)),
        forall|id: u128| #[trigger] hyphenated_text(id) == path@ ==> r is Ok && r->Ok_0 == id,
{
    match parse_id(path) {
        Ok(id) => Ok(id),
        Err(e) => Err(error_reply(e.as_str())),
    }
}

} // verus!
