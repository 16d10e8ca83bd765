use vstd::prelude::*;
use vstd::string::StringExecFns;

use crate::device_code::{generate_device_code, is_device_code, is_drawn_code};
use crate::model::TokenPollResponse;

verus! {

/// Pause between two polls, in milliseconds.
pub const POLLING_INTERVAL_MS: u64 = 3000;

/// Ceiling on the time spent polling, in milliseconds.
pub const MAX_POLLING_DURATION_MS: u64 = 180000;

/// Timing of the polling phase, in milliseconds.
#[derive(Clone, Copy, Debug, PartialEq, Eq, Structural)]
pub struct PollConfig {
    pub interval_ms: u64,
    pub ceiling_ms: u64,
}

impl PollConfig {
    /// A usable configuration: a zero interval would poll without pause.
    pub open spec fn wf(self) -> bool {
        self.interval_ms > 0
    }

    /// Three seconds between polls, three minutes in all.
    pub fn standard() -> (c: PollConfig)
        ensures
            c.interval_ms == POLLING_INTERVAL_MS,
            c.ceiling_ms == MAX_POLLING_DURATION_MS,
            c.wf(),
    {
        PollConfig { interval_ms: POLLING_INTERVAL_MS, ceiling_ms: MAX_POLLING_DURATION_MS }
    }

    /// A configuration with the given interval and ceiling; `None` for a zero
    /// interval, which is a configuration error.
    pub fn new(interval_ms: u64, ceiling_ms: u64) -> (r: Option<PollConfig>)
        ensures
            r is None <==> interval_ms == 0,
            r matches Some(c) ==> c.interval_ms == interval_ms && c.ceiling_ms == ceiling_ms
                && c.wf(),
    {
        if interval_ms == 0 {
            None
        } else {
            Some(PollConfig { interval_ms, ceiling_ms })
        }
    }
}

/// Why a login attempt, or the storing of its credential, failed.
#[derive(Clone, Debug, PartialEq, Eq)]
pub enum AuthError {
    /// The gateway did not accept the device code.
    RegistrationFailed(String),
    /// A poll call failed in transport.
    PollTransportFailed(String),
    /// The server rejected the attempt, with its reason.
    AuthenticationFailed(String),
    /// The ceiling passed while the server still answered pending.
    AuthenticationTimedOut,
    /// Writing the credential record failed.
    CredentialPersistenceFailed(String),
}

/// The text shown for an error.
pub open spec fn error_message(e: AuthError) -> Seq<char> {
    match e {
        AuthError::RegistrationFailed(m) => "Failed to register device: "@ + m@,
        AuthError::PollTransportFailed(m) => "Authentication polling failed: "@ + m@,
        AuthError::AuthenticationFailed(m) => "Authentication failed: "@ + m@,
        AuthError::AuthenticationTimedOut => "Authentication timed out"@,
        AuthError::CredentialPersistenceFailed(m) => "Failed to store credential: "@ + m@,
    }
}

impl AuthError {
    pub fn message(&self) -> (r: String)
        ensures
            r@ == error_message(*self),
    {
        let (prefix, detail) = match self {
            AuthError::RegistrationFailed(m) => ("Failed to register device: ", m.as_str()),
            AuthError::PollTransportFailed(m) => ("Authentication polling failed: ", m.as_str()),
            AuthError::AuthenticationFailed(m) => ("Authentication failed: ", m.as_str()),
            AuthError::AuthenticationTimedOut => ("Authentication timed out", ""),
            AuthError::CredentialPersistenceFailed(m) => ("Failed to store credential: ", m.as_str()),
        };
        proof {
            reveal_strlit("");
        }
        let mut r = String::from_str(prefix);
        r.append(detail);
        assert(r@ =~= error_message(*self));
        r
    }
}

/// Where a login attempt stands.
#[derive(Clone, Copy, Debug, PartialEq, Eq, Structural)]
pub enum LoginPhase {
    /// The device code has been handed to the gateway; its answer is due.
    Registering,
    /// A clock reading is due before the next poll.
    AwaitingClock,
    /// A poll has been sent; its outcome is due.
    AwaitingPoll,
    /// The attempt is over.
    Done,
}

/// What the outside world reports back to a login session.
#[derive(Debug, PartialEq, Eq)]
pub enum LoginEvent {
    /// Outcome of the registration call, with the transport's message on failure.
    Registered(Result<(), String>),
    /// Time elapsed since polling began, read just before a poll would be sent.
    Clock(u64),
    /// Outcome of a poll call, with the transport's message on failure.
    Polled(Result<TokenPollResponse, String>),
}

/// What a login session asks of the outside world next.
#[derive(Debug, PartialEq, Eq)]
pub enum LoginAction {
    /// Register the session's device code with the gateway.
    Register,
    /// Show the authentication URL, start the clock, and report a reading.
    Present,
    /// Poll the gateway once with the session's device code.
    Poll,
    /// Suspend for this many milliseconds, then report a clock reading.
    Wait(u64),
    /// The attempt is over, with this result.
    Finish(Result<String, AuthError>),
    /// The event did not fit the phase and was not taken.
    Ignore,
}

/// The transition of a login attempt: the next phase and the action it asks for.
pub open spec fn next(phase: LoginPhase, config: PollConfig, event: LoginEvent) -> (LoginPhase, LoginAction) {
    match phase {
        LoginPhase::Registering => match event {
            LoginEvent::Registered(Ok(())) => (LoginPhase::AwaitingClock, LoginAction::Present),
            LoginEvent::Registered(Err(m)) => (
                LoginPhase::Done,
                LoginAction::Finish(Err(AuthError::RegistrationFailed(m))),
            ),
            _ => (phase, LoginAction::Ignore),
        },
        LoginPhase::AwaitingClock => match event {
            LoginEvent::Clock(elapsed) => if elapsed < config.ceiling_ms {
                (LoginPhase::AwaitingPoll, LoginAction::Poll)
            } else {
                (LoginPhase::Done, LoginAction::Finish(Err(AuthError::AuthenticationTimedOut)))
            },
            _ => (phase, LoginAction::Ignore),
        },
        LoginPhase::AwaitingPoll => match event {
            LoginEvent::Polled(Ok(TokenPollResponse::Pending)) => (
                LoginPhase::AwaitingClock,
                LoginAction::Wait(config.interval_ms),
            ),
            LoginEvent::Polled(Ok(TokenPollResponse::Success(token))) => (
                LoginPhase::Done,
                LoginAction::Finish(Ok(token)),
            ),
            LoginEvent::Polled(Ok(TokenPollResponse::Failure(reason))) => (
                LoginPhase::Done,
                LoginAction::Finish(Err(AuthError::AuthenticationFailed(reason))),
            ),
            LoginEvent::Polled(Err(m)) => (
                LoginPhase::Done,
                LoginAction::Finish(Err(AuthError::PollTransportFailed(m))),
            ),
            _ => (phase, LoginAction::Ignore),
        },
        LoginPhase::Done => (phase, LoginAction::Ignore),
    }
}

/// The device code is registered once per attempt: no transition asks for
/// registration again.
pub proof fn lemma_registers_once(phase: LoginPhase, config: PollConfig, event: LoginEvent)
    ensures
        next(phase, config, event).1 != LoginAction::Register,
{
}

/// An attempt that is over stays over: no event leads out of `Done` or asks
/// for another poll.
pub proof fn lemma_done_is_final(config: PollConfig, event: LoginEvent)
    ensures
        next(LoginPhase::Done, config, event) == (LoginPhase::Done, LoginAction::Ignore),
{
}

/// Every transition into `Done` hands out the attempt's result, and every
/// other transition keeps the attempt going.
pub proof fn lemma_finish_exactly_when_done(phase: LoginPhase, config: PollConfig, event: LoginEvent)
    requires
        phase != LoginPhase::Done,
    ensures
        (next(phase, config, event).0 == LoginPhase::Done) == (next(phase, config, event).1 is Finish),
{
}

/// One login attempt: its device code, its timing and its phase.
pub struct LoginSession {
    pub code: String,
    pub config: PollConfig,
    pub phase: LoginPhase,
}

impl LoginSession {
    /// A session about to register `code`.
    pub fn new(code: String, config: PollConfig) -> (s: LoginSession)
        requires
            config.wf(),
        ensures
            s.code == code,
            s.config == config,
            s.phase == LoginPhase::Registering,
    {
        LoginSession { code, config, phase: LoginPhase::Registering }
    }

    /// Takes one event and returns the action it calls for.
    pub fn step(&mut self, event: LoginEvent) -> (action: LoginAction)
        ensures
            (final(self).phase, action) == next(old(self).phase, old(self).config, event),
            final(self).code == old(self).code,
            final(self).config == old(self).config,
    {
        match self.phase {
            LoginPhase::Registering => match event {
                LoginEvent::Registered(Ok(())) => {
                    self.phase = LoginPhase::AwaitingClock;
                    LoginAction::Present
                },
                LoginEvent::Registered(Err(m)) => {
                    self.phase = LoginPhase::Done;
                    LoginAction::Finish(Err(AuthError::RegistrationFailed(m)))
                },
                _ => LoginAction::Ignore,
            },
            LoginPhase::AwaitingClock => match event {
                LoginEvent::Clock(elapsed) => {
                    if elapsed < self.config.ceiling_ms {
                        self.phase = LoginPhase::AwaitingPoll;
                        LoginAction::Poll
                    } else {
                        self.phase = LoginPhase::Done;
                        LoginAction::Finish(Err(AuthError::AuthenticationTimedOut))
                    }
                },
                _ => LoginAction::Ignore,
            },
            LoginPhase::AwaitingPoll => match event {
                LoginEvent::Polled(Ok(TokenPollResponse::Pending)) => {
                    self.phase = LoginPhase::AwaitingClock;
                    LoginAction::Wait(self.config.interval_ms)
                },
                LoginEvent::Polled(Ok(TokenPollResponse::Success(token))) => {
                    self.phase = LoginPhase::Done;
                    LoginAction::Finish(Ok(token))
                },
                LoginEvent::Polled(Ok(TokenPollResponse::Failure(reason))) => {
                    self.phase = LoginPhase::Done;
                    LoginAction::Finish(Err(AuthError::AuthenticationFailed(reason)))
                },
                LoginEvent::Polled(Err(m)) => {
                    self.phase = LoginPhase::Done;
                    LoginAction::Finish(Err(AuthError::PollTransportFailed(m)))
                },
                _ => LoginAction::Ignore,
            },
            LoginPhase::Done => LoginAction::Ignore,
        }
    }

    /// Whether the attempt is over.
    pub fn is_done(&self) -> (r: bool)
        ensures
            r == (self.phase == LoginPhase::Done),
    {
        self.phase == LoginPhase::Done
    }
}

/// The page where the user confirms a device code: `<server>/auth/page/<code>`.
pub open spec fn auth_page_url(server_url: Seq<char>, code: Seq<char>) -> Seq<char> {
    server_url + "/auth/page/"@ + code
}

/// Runs device-code logins: it draws the code and opens the session that
/// drives registration and polling.
pub struct AuthFlow {}

impl AuthFlow {
    pub fn new() -> (r: AuthFlow) {
        AuthFlow {}
    }

    /// A fresh device code for one attempt.
    pub fn generate_device_code(&self) -> (code: String)
        ensures
            is_device_code(code@),
            is_drawn_code(code@),
    {
        generate_device_code()
    }

    /// Opens a login attempt with a fresh device code; the first action is
    /// always to register that code.
    pub fn start(&self, config: PollConfig) -> (r: (LoginSession, LoginAction))
        requires
            config.wf(),
        ensures
            is_device_code(r.0.code@),
            is_drawn_code(r.0.code@),
            r.0.config == config,
            r.0.phase == LoginPhase::Registering,
            r.1 == LoginAction::Register,
    {
        let code = self.generate_device_code();
        (LoginSession::new(code, config), LoginAction::Register)
    }

    /// The URL the user opens to confirm the session's device code.
    pub fn auth_url(&self, server_url: &str, session: &LoginSession) -> (r: String)
        ensures
            r@ == auth_page_url(server_url@, session.code@),
    {
        let mut r = String::from_str(server_url);
        r.append("/auth/page/");
        r.append(session.code.as_str());
        r
    }
}

} // verus!
