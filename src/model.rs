use vstd::prelude::*;
use vstd::string::StringExecFns;

use crate::json::{json_quote, json_string_of};

verus! {

/// Answer of the server to a login request.
pub struct LoginResponse {
    pub token: String,
}

/// One round of polling for a token: still waiting, a token was issued, or
/// the server rejected the attempt.
#[derive(Clone, Debug, PartialEq, Eq)]
pub enum TokenPollResponse {
    Pending,
    Success(String),
    Failure(String),
}

/// Answer of the server to a created note.
pub struct CreateNoteResponse {
    pub id: i64,
    pub content: String,
}

/// Body of the device registration call.
pub struct DeviceCodeRequest {
    pub device_code: String,
}

/// The persisted credential: one bearer token.
pub struct Token {
    pub access_token: String,
}

/// The compact JSON body `{"device_code":<code>}`.
pub open spec fn device_code_request_json(code: Seq<char>) -> Seq<char> {
    "{\"device_code\":"@ + json_string_of(code) + "}"@
}

/// The credential record as it is written to disk: a pretty-printed JSON
/// object with the single field `access_token`.
pub open spec fn token_record(token: Seq<char>) -> Seq<char> {
    "{\n  \"access_token\": "@ + json_string_of(token) + "\n}"@
}

impl DeviceCodeRequest {
    pub fn new(device_code: &str) -> (r: DeviceCodeRequest)
        ensures
            r.device_code@ == device_code@,
    {
        DeviceCodeRequest { device_code: String::from_str(device_code) }
    }

    /// The JSON body sent to register the device code.
    pub fn to_json(&self) -> (r: String)
        ensures
            r@ == device_code_request_json(self.device_code@),
    {
        let quoted = json_quote(self.device_code.as_str());
        let mut r = String::from_str("{\"device_code\":");
        r.append(quoted.as_str());
        r.append("}");
        r
    }
}

impl Token {
    pub fn new(access_token: &str) -> (r: Token)
        ensures
            r.access_token@ == access_token@,
    {
        Token { access_token: String::from_str(access_token) }
    }

    /// The record that the credential store writes for this token.
    pub fn to_record(&self) -> (r: String)
        ensures
            r@ == token_record(self.access_token@),
    {
        let quoted = json_quote(self.access_token.as_str());
        let mut r = String::from_str("{\n  \"access_token\": ");
        r.append(quoted.as_str());
        r.append("\n}");
        r
    }
}

} // verus!
