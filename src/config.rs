//! Settings of the client: command-line options, the stored profile, and the
//! configuration merged from both.
use vstd::prelude::*;
use vstd::string::StringExecFns;

verus! {

/// Name of the credential file placed beside the profile.
pub const DEFAULT_API_KEY_FILENAME: &'static str = "api_key";

/// Options given on the command line.
#[derive(Debug, Clone, PartialEq, Eq)]
pub struct ConfigArgs {
    pub mock: bool,
    pub mock_param: Option<String>,
    pub profile_path: Option<String>,
    pub server_url: Option<String>,
}

/// How notes are printed.
#[derive(Debug, Clone, Copy, PartialEq, Eq, Structural)]
pub enum OutputFormat {
    Pretty,
    Plain,
    Json,
}

impl Default for OutputFormat {
    fn default() -> (r: OutputFormat)
        ensures
            r == OutputFormat::Pretty,
    {
        OutputFormat::Pretty
    }
}

/// Options of the command that shows the latest note.
#[derive(Debug, Clone, PartialEq, Eq)]
pub struct NoteLatestArgs {
    pub term: Option<String>,
    pub tag: Vec<String>,
    pub output: OutputFormat,
}

/// The profile file: where the server is and where the credential is kept.
#[derive(Debug, Clone, PartialEq, Eq)]
pub struct Profile {
    pub server_url: Option<String>,
    pub api_key_path: Option<String>,
}

/// The configuration a command runs with.
#[derive(Debug, Clone, PartialEq, Eq)]
pub struct AppConfig {
    pub mock_server: bool,
    pub mock_param: Option<String>,
    pub server_url: String,
    pub profile_path: String,
    pub api_key_path: String,
    pub profile_exists: bool,
    pub token: Option<String>,
}

pub open spec fn default_server_url() -> Seq<char> {
    "http://localhost:9000"@
}

pub open spec fn default_profile_path() -> Seq<char> {
    "./"@
}

pub open spec fn default_api_key_path() -> Seq<char> {
    "./"@ + DEFAULT_API_KEY_FILENAME@
}

/// The view of an optional string.
pub open spec fn opt_view(o: Option<String>) -> Option<Seq<char>> {
    match o {
        Some(s) => Some(s@),
        None => None,
    }
}

/// The first of two optional values that is present, else the fallback.
pub open spec fn first_present(a: Option<Seq<char>>, b: Option<Seq<char>>, fallback: Seq<char>) -> Seq<char> {
    match a {
        Some(x) => x,
        None => match b {
            Some(y) => y,
            None => fallback,
        },
    }
}

fn clone_opt(o: &Option<String>) -> (r: Option<String>)
    ensures
        r == *o,
{
    match o {
        Some(s) => Some(s.clone()),
        None => None,
    }
}

/// A field of an optional profile.
fn profile_field(profile: Option<&Profile>, server: bool) -> (r: Option<String>)
    ensures
        r == (match profile {
            Some(p) => if server { p.server_url } else { p.api_key_path },
            None => None,
        }),
{
    match profile {
        Some(p) => if server { clone_opt(&p.server_url) } else { clone_opt(&p.api_key_path) },
        None => None,
    }
}

fn first_present_exec(a: Option<String>, b: Option<String>, fallback: String) -> (r: String)
    ensures
        r@ == first_present(opt_view(a), opt_view(b), fallback@),
{
    match a {
        Some(x) => x,
        None => match b {
            Some(y) => y,
            None => fallback,
        },
    }
}

impl Default for AppConfig {
    fn default() -> (r: AppConfig)
        ensures
            !r.mock_server,
            r.mock_param is None,
            r.server_url@ == default_server_url(),
            r.profile_path@ == default_profile_path(),
            r.api_key_path@ == default_api_key_path(),
            !r.profile_exists,
            r.token is None,
    {
        let mut api_key_path = String::from_str("./");
        api_key_path.append(DEFAULT_API_KEY_FILENAME);
        AppConfig {
            mock_server: false,
            mock_param: None,
            server_url: String::from_str("http://localhost:9000"),
            profile_path: String::from_str("./"),
            api_key_path,
            profile_exists: false,
            token: None,
        }
    }
}

impl AppConfig {
    /// Where the credential is kept: the profile's setting, else the path
    /// derived from the profile's location, else the default.
    pub fn resolve_api_key_path(profile: Option<&Profile>, derived: Option<String>) -> (r: String)
        ensures
            r@ == first_present(
                match profile {
                    Some(p) => opt_view(p.api_key_path),
                    None => None,
                },
                opt_view(derived),
                default_api_key_path(),
            ),
    {
        let defaults = AppConfig::default();
        first_present_exec(profile_field(profile, false), derived, defaults.api_key_path)
    }

    /// Merges the command line, the profile and the defaults. The server URL
    /// comes from the command line, else the profile, else the default; the
    /// credential path is resolved as `resolve_api_key_path` does; the
    /// profile path is the given one when it is readable text. `token` is
    /// what the caller read from that credential path.
    pub fn from_args(
        args: ConfigArgs,
        profile_path: Option<String>,
        derived_key_path: Option<String>,
        profile: Option<&Profile>,
        token: Option<String>,
    ) -> (r: AppConfig)
        ensures
            r.mock_server == args.mock,
            r.mock_param == args.mock_param,
            r.profile_exists == (profile is Some),
            r.profile_path@ == first_present(opt_view(profile_path), None, default_profile_path()),
            r.server_url@ == first_present(
                opt_view(args.server_url),
                match profile {
                    Some(p) => opt_view(p.server_url),
                    None => None,
                },
                default_server_url(),
            ),
            r.api_key_path@ == first_present(
                match profile {
                    Some(p) => opt_view(p.api_key_path),
                    None => None,
                },
                opt_view(derived_key_path),
                default_api_key_path(),
            ),
            r.token == token,
    {
        let defaults = AppConfig::default();
        let profile_server_url = profile_field(profile, true);
        let api_key_path = AppConfig::resolve_api_key_path(profile, derived_key_path);
        AppConfig {
            mock_server: args.mock,
            mock_param: args.mock_param,
            profile_exists: profile.is_some(),
            profile_path: first_present_exec(profile_path, None, defaults.profile_path),
            server_url: first_present_exec(args.server_url, profile_server_url, defaults.server_url),
            api_key_path,
            token,
        }
    }

    pub fn is_mock(&self) -> (r: bool)
        ensures
            r == self.mock_server,
    {
        self.mock_server
    }
}

impl Default for Profile {
    fn default() -> (r: Profile)
        ensures
            opt_view(r.server_url) == Some(default_server_url()),
            opt_view(r.api_key_path) == Some(default_api_key_path()),
    {
        let c = AppConfig::default();
        Profile { server_url: Some(c.server_url), api_key_path: Some(c.api_key_path) }
    }
}

} // verus!
