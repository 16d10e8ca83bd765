//! The pieces of the service gateway that are plain computation: where its
//! endpoints are and how their status codes read.
use vstd::prelude::*;
use vstd::string::StringExecFns;

use crate::model::TokenPollResponse;

verus! {

/// Endpoint that registers a device code: `<server>/auth/device`.
pub open spec fn device_endpoint(server_url: Seq<char>) -> Seq<char> {
    server_url + "/auth/device"@
}

/// Endpoint that reports on a device code: `<server>/auth/status/<code>`.
pub open spec fn status_endpoint(server_url: Seq<char>, code: Seq<char>) -> Seq<char> {
    server_url + "/auth/status/"@ + code
}

pub fn device_url(server_url: &str) -> (r: String)
    ensures
        r@ == device_endpoint(server_url@),
{
    let mut r = String::from_str(server_url);
    r.append("/auth/device");
    r
}

pub fn status_url(server_url: &str, code: &str) -> (r: String)
    ensures
        r@ == status_endpoint(server_url@, code@),
{
    let mut r = String::from_str(server_url);
    r.append("/auth/status/");
    r.append(code);
    r
}

/// Whether an HTTP status code reports success (2xx).
pub open spec fn is_success_status(status: u16) -> bool {
    200 <= status <= 299
}

/// Whether a call succeeded: a registration or a health check is accepted
/// exactly when it answers with a 2xx status.
pub fn status_is_success(status: u16) -> (r: bool)
    ensures
        r == is_success_status(status),
{
    200 <= status && status <= 299
}

/// How the status endpoint answered.
#[derive(Debug, Clone, Copy, PartialEq, Eq, Structural)]
pub enum PollStatus {
    /// 200: the body carries the token.
    TokenIssued,
    /// 202: no result yet.
    Pending,
    /// Anything else: the poll failed.
    Unexpected,
}

pub open spec fn poll_status_of(status: u16) -> PollStatus {
    if status == 200 {
        PollStatus::TokenIssued
    } else if status == 202 {
        PollStatus::Pending
    } else {
        PollStatus::Unexpected
    }
}

pub fn classify_poll_status(status: u16) -> (r: PollStatus)
    ensures
        r == poll_status_of(status),
{
    if status == 200 {
        PollStatus::TokenIssued
    } else if status == 202 {
        PollStatus::Pending
    } else {
        PollStatus::Unexpected
    }
}

/// The poll outcome for a status and, where the status issued one, the
/// token read from the body; `None` for a failed poll.
pub fn poll_outcome(status: PollStatus, token: Option<String>) -> (r: Option<TokenPollResponse>)
    ensures
        r == (match status {
            PollStatus::TokenIssued => match token {
                Some(t) => Some(TokenPollResponse::Success(t)),
                None => None,
            },
            PollStatus::Pending => Some(TokenPollResponse::Pending),
            PollStatus::Unexpected => None,
        }),
{
    match status {
        PollStatus::TokenIssued => match token {
            Some(t) => Some(TokenPollResponse::Success(t)),
            None => None,
        },
        PollStatus::Pending => Some(TokenPollResponse::Pending),
        PollStatus::Unexpected => None,
    }
}

} // verus!
