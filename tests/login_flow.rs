use jot_cli::auth::{
    AuthError, AuthFlow, LoginAction, LoginEvent, LoginPhase, LoginSession, PollConfig,
    MAX_POLLING_DURATION_MS, POLLING_INTERVAL_MS,
};
use jot_cli::mock::{MockClient, MOCK_TOKEN};
use jot_cli::model::TokenPollResponse;

/// A gateway double: a fixed registration answer and a script of poll
/// answers (pending past its end), with a simulated clock.
struct Double {
    registration: Result<(), String>,
    script: Vec<Result<TokenPollResponse, String>>,
    latency: u64,
    registrations: usize,
    polls: usize,
}

impl Double {
    fn new(registration: Result<(), String>, script: Vec<Result<TokenPollResponse, String>>) -> Self {
        Double { registration, script, latency: 0, registrations: 0, polls: 0 }
    }
}

struct Outcome {
    result: Result<String, AuthError>,
    polls: usize,
    registrations: usize,
    elapsed: u64,
    url: Option<String>,
}

fn login(config: PollConfig, mut double: Double) -> Outcome {
    let flow = AuthFlow::new();
    let (mut session, mut action) = flow.start(config);
    let mut now: u64 = 0;
    let mut url = None;
    loop {
        let event = match action {
            LoginAction::Register => {
                double.registrations += 1;
                LoginEvent::Registered(double.registration.clone())
            }
            LoginAction::Present => {
                url = Some(flow.auth_url("http://server", &session));
                LoginEvent::Clock(now)
            }
            LoginAction::Poll => {
                let answer = double
                    .script
                    .get(double.polls)
                    .cloned()
                    .unwrap_or(Ok(TokenPollResponse::Pending));
                double.polls += 1;
                now += double.latency;
                LoginEvent::Polled(answer)
            }
            LoginAction::Wait(ms) => {
                now += ms;
                LoginEvent::Clock(now)
            }
            LoginAction::Finish(result) => {
                assert_eq!(session.phase, LoginPhase::Done);
                return Outcome {
                    result,
                    polls: double.polls,
                    registrations: double.registrations,
                    elapsed: now,
                    url,
                };
            }
            LoginAction::Ignore => panic!("the session ignored an event"),
        };
        action = session.step(event);
    }
}

fn pending_then_success(n: usize, token: &str) -> Vec<Result<TokenPollResponse, String>> {
    let mut script = vec![Ok(TokenPollResponse::Pending); n];
    script.push(Ok(TokenPollResponse::Success(token.to_string())));
    script
}

#[test]
fn success_on_first_poll() {
    let out = login(PollConfig::standard(), Double::new(Ok(()), pending_then_success(0, "T")));
    assert_eq!(out.result, Ok("T".to_string()));
    assert_eq!(out.polls, 1);
    assert_eq!(out.registrations, 1);
}

#[test]
fn pending_n_times_then_success_polls_n_plus_one_times() {
    for n in [1usize, 2, 5, 59] {
        let out = login(PollConfig::standard(), Double::new(Ok(()), pending_then_success(n, "T")));
        assert_eq!(out.result, Ok("T".to_string()));
        assert_eq!(out.polls, n + 1);
        assert_eq!(out.elapsed, n as u64 * POLLING_INTERVAL_MS);
    }
}

#[test]
fn always_pending_times_out_within_one_interval() {
    let config = PollConfig::new(3, 10).unwrap();
    let out = login(config, Double::new(Ok(()), vec![]));
    assert_eq!(out.result, Err(AuthError::AuthenticationTimedOut));
    assert_eq!(out.polls, 4);
    assert_eq!(out.elapsed, 12);
    assert!(out.elapsed >= 10 && out.elapsed < 10 + 3);
}

#[test]
fn always_pending_times_out_with_standard_timing() {
    let out = login(PollConfig::standard(), Double::new(Ok(()), vec![]));
    assert_eq!(out.result, Err(AuthError::AuthenticationTimedOut));
    assert_eq!(out.polls, 60);
    assert_eq!(out.elapsed, MAX_POLLING_DURATION_MS);
}

#[test]
fn registration_failure_never_polls() {
    let out = login(
        PollConfig::standard(),
        Double::new(Err("connection refused".to_string()), pending_then_success(0, "T")),
    );
    assert_eq!(out.result, Err(AuthError::RegistrationFailed("connection refused".to_string())));
    assert_eq!(out.polls, 0);
    assert_eq!(out.url, None);
}

#[test]
fn failure_on_first_poll_is_reported_with_reason() {
    let script = vec![Ok(TokenPollResponse::Failure("bad state".to_string()))];
    let out = login(PollConfig::standard(), Double::new(Ok(()), script));
    assert_eq!(out.result, Err(AuthError::AuthenticationFailed("bad state".to_string())));
    assert_eq!(out.polls, 1);
}

#[test]
fn ceiling_reached_exactly_stops_before_fourth_poll() {
    let config = PollConfig::new(3, 9).unwrap();
    let script = vec![
        Ok(TokenPollResponse::Pending),
        Ok(TokenPollResponse::Pending),
        Ok(TokenPollResponse::Pending),
        Ok(TokenPollResponse::Success("X".to_string())),
    ];
    let out = login(config, Double::new(Ok(()), script));
    assert_eq!(out.result, Err(AuthError::AuthenticationTimedOut));
    assert_eq!(out.polls, 3);
    assert_eq!(out.elapsed, 9);
}

#[test]
fn transport_error_on_poll_is_not_retried() {
    let script = vec![Ok(TokenPollResponse::Pending), Err("reset by peer".to_string())];
    let out = login(PollConfig::standard(), Double::new(Ok(()), script));
    assert_eq!(out.result, Err(AuthError::PollTransportFailed("reset by peer".to_string())));
    assert_eq!(out.polls, 2);
}

#[test]
fn zero_ceiling_times_out_before_any_poll() {
    let config = PollConfig::new(3, 0).unwrap();
    let out = login(config, Double::new(Ok(()), pending_then_success(0, "T")));
    assert_eq!(out.result, Err(AuthError::AuthenticationTimedOut));
    assert_eq!(out.polls, 0);
}

#[test]
fn zero_interval_is_a_configuration_error() {
    assert_eq!(PollConfig::new(0, 10), None);
    let c = PollConfig::new(5, 10).unwrap();
    assert_eq!((c.interval_ms, c.ceiling_ms), (5, 10));
    let s = PollConfig::standard();
    assert_eq!((s.interval_ms, s.ceiling_ms), (3000, 180000));
}

#[test]
fn auth_url_joins_server_and_code() {
    let flow = AuthFlow::new();
    let session = LoginSession::new("abc123".to_string(), PollConfig::standard());
    assert_eq!(flow.auth_url("https://notes.example", &session), "https://notes.example/auth/page/abc123");
    let out = login(PollConfig::standard(), Double::new(Ok(()), pending_then_success(0, "T")));
    let url = out.url.unwrap();
    assert!(url.starts_with("http://server/auth/page/"));
    assert_eq!(url.len(), "http://server/auth/page/".len() + 32);
}

#[test]
fn events_out_of_turn_are_ignored() {
    let mut session = LoginSession::new("c".to_string(), PollConfig::standard());
    assert_eq!(session.step(LoginEvent::Clock(0)), LoginAction::Ignore);
    assert_eq!(session.phase, LoginPhase::Registering);
    assert_eq!(session.step(LoginEvent::Registered(Ok(()))), LoginAction::Present);
    assert_eq!(session.step(LoginEvent::Polled(Ok(TokenPollResponse::Pending))), LoginAction::Ignore);
    assert_eq!(session.step(LoginEvent::Clock(5)), LoginAction::Poll);
    assert_eq!(
        session.step(LoginEvent::Polled(Ok(TokenPollResponse::Success("tok".to_string())))),
        LoginAction::Finish(Ok("tok".to_string()))
    );
    assert!(session.is_done());
    assert_eq!(session.step(LoginEvent::Clock(0)), LoginAction::Ignore);
    assert!(session.is_done());
}

#[test]
fn error_messages() {
    assert_eq!(AuthError::AuthenticationTimedOut.message(), "Authentication timed out");
    assert_eq!(
        AuthError::AuthenticationFailed("bad state".to_string()).message(),
        "Authentication failed: bad state"
    );
    assert_eq!(
        AuthError::RegistrationFailed("503".to_string()).message(),
        "Failed to register device: 503"
    );
    assert_eq!(
        AuthError::PollTransportFailed("eof".to_string()).message(),
        "Authentication polling failed: eof"
    );
    assert_eq!(
        AuthError::CredentialPersistenceFailed("denied".to_string()).message(),
        "Failed to store credential: denied"
    );
}

#[test]
fn slow_polls_overshoot_by_less_than_interval_plus_latency() {
    let config = PollConfig::new(3, 10).unwrap();
    let mut double = Double::new(Ok(()), vec![]);
    double.latency = 1;
    let out = login(config, double);
    assert_eq!(out.result, Err(AuthError::AuthenticationTimedOut));
    assert_eq!(out.polls, 3);
    assert_eq!(out.elapsed, 12);
    assert!(out.elapsed >= 10 && out.elapsed < 10 + 3 + 1);
}

#[test]
fn mock_gateway_login_yields_mock_token() {
    let flow = AuthFlow::new();
    let mut mock = MockClient::new();
    let (mut session, mut action) = flow.start(PollConfig::standard());
    let mut polls = 0;
    let mut now = 0;
    let result = loop {
        let event = match action {
            LoginAction::Register => LoginEvent::Registered(mock.send_device_code(&session.code)),
            LoginAction::Present => LoginEvent::Clock(now),
            LoginAction::Poll => {
                polls += 1;
                LoginEvent::Polled(mock.poll_for_token(&session.code))
            }
            LoginAction::Wait(ms) => {
                now += ms;
                LoginEvent::Clock(now)
            }
            LoginAction::Finish(result) => break result,
            LoginAction::Ignore => panic!("the session ignored an event"),
        };
        action = session.step(event);
    };
    assert_eq!(result, Ok(MOCK_TOKEN.to_string()));
    assert_eq!(polls, 2);
}
