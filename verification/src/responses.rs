//! Decoding of the REST collaborators' responses.
//!
//! All three calls this system makes — open-connection, resolve-permalink,
//! post-message — answer with `{ok: bool, <field>?: string, ...}`.  A
//! response succeeds when `ok` is `true` and the call's one required field is
//! present; anything else is a refusal, terminal for the caller.

use vstd::prelude::*;
use crate::json::{Json, spec_obj_get, obj_get};

verus! {

/// Why a collaborator's response yields no value.
#[derive(Debug, PartialEq, Eq)]
pub enum ResponseError {
    /// The response is not a JSON object.
    NotAnObject,
    /// The `ok` field is absent or not a boolean.
    MissingOk,
    /// The collaborator answered `ok: false`.
    Refused,
    /// `ok` is `true` but the required field is absent or not a string.
    MissingField,
}

/// The required string field of a response, if the response grants it.
pub open spec fn spec_response_field(j: Json, key: Seq<char>) -> Result<String, ResponseError> {
    match j {
        Json::Obj(fields) => match spec_obj_get(fields@, "ok"@) {
            Some(Json::Bool(ok)) => if ok {
                match spec_obj_get(fields@, key) {
                    Some(Json::Str(v)) => Ok(v),
                    _ => Err(ResponseError::MissingField),
                }
            } else {
                Err(ResponseError::Refused)
            },
            Some(_) => Err(ResponseError::MissingOk),
            None => Err(ResponseError::MissingOk),
        },
        _ => Err(ResponseError::NotAnObject),
    }
}

/// Read the required string field out of a collaborator's response.
pub fn response_field(j: &Json, key: &str) -> (r: Result<String, ResponseError>)
    ensures
        r == spec_response_field(*j, key@),
{
    let fields: &Vec<(String, Json)> = match j {
        Json::Obj(fields) => fields,
        _ => {
            return Err(ResponseError::NotAnObject);
        },
    };
    let ok: bool = match obj_get(fields, "ok") {
        Some(Json::Bool(b)) => *b,
        Some(_) => {
            return Err(ResponseError::MissingOk);
        },
        None => {
            return Err(ResponseError::MissingOk);
        },
    };
    if !ok {
        return Err(ResponseError::Refused);
    }
    match obj_get(fields, key) {
        Some(Json::Str(v)) => Ok(v.clone()),
        _ => Err(ResponseError::MissingField),
    }
}

/// The stream URL granted by the open-connection call.
pub fn url_of_open_response(j: &Json) -> (r: Result<String, ResponseError>)
    ensures
        r == spec_response_field(*j, "url"@),
{
    response_field(j, "url")
}

/// The permalink granted by the resolve-permalink call.
pub fn permalink_of_response(j: &Json) -> (r: Result<String, ResponseError>)
    ensures
        r == spec_response_field(*j, "permalink"@),
{
    response_field(j, "permalink")
}

/// The timestamp granted by the post-message call.
pub fn ts_of_post_response(j: &Json) -> (r: Result<String, ResponseError>)
    ensures
        r == spec_response_field(*j, "ts"@),
{
    response_field(j, "ts")
}

} // verus!
