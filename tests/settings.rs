use jot_cli::config::{AppConfig, ConfigArgs, OutputFormat, Profile};
use jot_cli::editor::Editor;
use jot_cli::gateway::{
    classify_poll_status, device_url, poll_outcome, status_is_success, status_url, PollStatus,
};
use jot_cli::mock::{MockClient, MOCK_TOKEN, MOCK_URL};
use jot_cli::model::TokenPollResponse;

fn args(server_url: Option<&str>) -> ConfigArgs {
    ConfigArgs {
        mock: true,
        mock_param: Some("p".to_string()),
        profile_path: None,
        server_url: server_url.map(|s| s.to_string()),
    }
}

#[test]
fn app_config_defaults() {
    let c = AppConfig::default();
    assert_eq!(c.server_url, "http://localhost:9000");
    assert_eq!(c.profile_path, "./");
    assert_eq!(c.api_key_path, "./api_key");
    assert!(!c.profile_exists);
    assert!(!c.is_mock());
    assert_eq!(c.token, None);
    let p = Profile::default();
    assert_eq!(p.server_url.as_deref(), Some("http://localhost:9000"));
    assert_eq!(p.api_key_path.as_deref(), Some("./api_key"));
    assert_eq!(OutputFormat::default(), OutputFormat::Pretty);
}

#[test]
fn server_url_prefers_arguments_then_profile() {
    let profile = Profile { server_url: Some("http://profile".to_string()), api_key_path: None };
    let from_args = AppConfig::from_args(
        args(Some("http://arg")),
        Some("/cfg/default.toml".to_string()),
        Some("/cfg/api_key".to_string()),
        Some(&profile),
        Some("tok".to_string()),
    );
    assert_eq!(from_args.server_url, "http://arg");
    assert!(from_args.is_mock());
    assert!(from_args.profile_exists);
    assert_eq!(from_args.profile_path, "/cfg/default.toml");
    assert_eq!(from_args.token.as_deref(), Some("tok"));
    assert_eq!(from_args.mock_param.as_deref(), Some("p"));
    assert_eq!(from_args.api_key_path, "/cfg/api_key");

    let from_profile = AppConfig::from_args(args(None), None, None, Some(&profile), None);
    assert_eq!(from_profile.server_url, "http://profile");
    assert_eq!(from_profile.profile_path, "./");
    assert_eq!(from_profile.api_key_path, "./api_key");

    let from_defaults = AppConfig::from_args(args(None), None, Some("/d/api_key".to_string()), None, None);
    assert_eq!(from_defaults.server_url, "http://localhost:9000");
    assert!(!from_defaults.profile_exists);
    assert_eq!(from_defaults.api_key_path, "/d/api_key");

    let keyed = Profile { server_url: None, api_key_path: Some("/keys/k".to_string()) };
    let from_keyed = AppConfig::from_args(args(None), None, Some("/d/api_key".to_string()), Some(&keyed), None);
    assert_eq!(from_keyed.api_key_path, "/keys/k");
}

#[test]
fn api_key_path_resolution() {
    let with_key = Profile { server_url: None, api_key_path: Some("/keys/k".to_string()) };
    let without_key = Profile { server_url: None, api_key_path: None };
    assert_eq!(AppConfig::resolve_api_key_path(Some(&with_key), Some("/cfg/api_key".to_string())), "/keys/k");
    assert_eq!(AppConfig::resolve_api_key_path(Some(&without_key), Some("/cfg/api_key".to_string())), "/cfg/api_key");
    assert_eq!(AppConfig::resolve_api_key_path(None, None), "./api_key");
}

#[test]
fn editor_keeps_its_template() {
    assert_eq!(Editor::new("+++\ntags = []\n+++\n").template, "+++\ntags = []\n+++\n");
}

#[test]
fn mock_client_issues_token_on_second_poll() {
    let mut mock = MockClient::new();
    assert_eq!(mock.response_counter, 0);
    assert!(mock.send_device_code("code").is_ok());
    assert!(mock.ping().is_ok());
    assert_eq!(mock.poll_for_token("code"), Ok(TokenPollResponse::Pending));
    assert_eq!(mock.response_counter, 1);
    assert_eq!(mock.poll_for_token("code"), Ok(TokenPollResponse::Success(MOCK_TOKEN.to_string())));
    assert_eq!(mock.poll_for_token("code"), Ok(TokenPollResponse::Success("mocked_token".to_string())));
    assert_eq!(mock.response_counter, 1);
    assert_eq!(mock.get_server_url(), MOCK_URL);
    assert_eq!(mock.get_server_url(), "mocked_instance");
}

#[test]
fn gateway_endpoints() {
    assert_eq!(device_url("http://s"), "http://s/auth/device");
    assert_eq!(status_url("http://s", "abc"), "http://s/auth/status/abc");
}

#[test]
fn gateway_status_codes() {
    assert!(status_is_success(200));
    assert!(status_is_success(204));
    assert!(!status_is_success(400));
    assert!(!status_is_success(302));
    assert_eq!(classify_poll_status(200), PollStatus::TokenIssued);
    assert_eq!(classify_poll_status(202), PollStatus::Pending);
    assert_eq!(classify_poll_status(404), PollStatus::Unexpected);
    assert_eq!(
        poll_outcome(PollStatus::TokenIssued, Some("t".to_string())),
        Some(TokenPollResponse::Success("t".to_string()))
    );
    assert_eq!(poll_outcome(PollStatus::TokenIssued, None), None);
    assert_eq!(poll_outcome(PollStatus::Pending, None), Some(TokenPollResponse::Pending));
    assert_eq!(poll_outcome(PollStatus::Unexpected, Some("t".to_string())), None);
}
