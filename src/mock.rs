//! A gateway that answers without a server, for trying the client out.
use vstd::prelude::*;
use vstd::string::StringExecFns;

use crate::model::TokenPollResponse;

verus! {

/// Server URL that the mock reports.
pub const MOCK_URL: &'static str = "mocked_instance";

/// Token that the mock would issue.
pub const MOCK_TOKEN: &'static str = "mocked_token";

/// A gateway that accepts every device code, answers the first poll with
/// `Pending` and issues `MOCK_TOKEN` from then on.
#[derive(Debug, Clone, Copy)]
pub struct MockClient {
    pub response_counter: u16,
}

impl MockClient {
    pub fn new() -> (r: MockClient)
        ensures
            r.response_counter == 0,
    {
        MockClient { response_counter: 0 }
    }

    pub fn send_device_code(&self, device_code: &str) -> (r: Result<(), String>)
        ensures
            r is Ok,
    {
        Ok(())
    }

    /// The first poll answers `Pending` and counts itself; every later poll
    /// issues `MOCK_TOKEN`.
    pub fn poll_for_token(&mut self, device_code: &str) -> (r: Result<TokenPollResponse, String>)
        ensures
            old(self).response_counter == 0 ==> r == Ok::<TokenPollResponse, String>(
                TokenPollResponse::Pending,
            ) && final(self).response_counter == 1,
            old(self).response_counter >= 1 ==> (r matches Ok(TokenPollResponse::Success(t))
                && t@ == MOCK_TOKEN@) && final(self).response_counter == old(self).response_counter,
    {
        if self.response_counter >= 1 {
            return Ok(TokenPollResponse::Success(String::from_str(MOCK_TOKEN)));
        }
        self.response_counter = 1;
        Ok(TokenPollResponse::Pending)
    }

    pub fn ping(&self) -> (r: Result<(), String>)
        ensures
            r is Ok,
    {
        Ok(())
    }

    pub fn get_server_url(&self) -> (r: String)
        ensures
            r@ == MOCK_URL@,
    {
        String::from_str(MOCK_URL)
    }
}

} // verus!
