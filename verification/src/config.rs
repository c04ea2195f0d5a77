//! The commands of the CLI, and the credentials each one needs.

use vstd::prelude::*;

verus! {

/// A command of the CLI.
#[derive(Clone, Debug, PartialEq)]
pub enum Command {
    /// Log in with the OAuth PKCE flow.
    Auth,
    /// Tell whether a token is stored.
    AuthStatus,
    /// Show what is playing.
    Now,
    /// Search the catalogue.
    Search { query: String, search_type: String, limit: u32 },
    /// Play a URI, or resume.
    Play { uri: Option<String> },
    /// Pause playback.
    Pause,
    /// Skip to the next track.
    Skip,
    /// Add tracks to the queue.
    QueueAdd { uris: Vec<String> },
}

impl Command {
    /// Whether the command calls the Web API; `auth` and `auth-status` do not.
    pub fn needs_api(&self) -> (r: bool)
        ensures
            r == !(*self is Auth || *self is AuthStatus),
    {
        match self {
            Command::Auth | Command::AuthStatus => false,
            _ => true,
        }
    }
}

/// Whether an environment variable is set to something non-empty; `None`
/// stands for a variable that is unset or not valid Unicode.
pub open spec fn is_set(v: Option<Seq<char>>) -> bool {
    v matches Some(s) && s.len() > 0
}

pub open spec fn opt_text(v: Option<&str>) -> Option<Seq<char>> {
    match v {
        Some(s) => Some(s@),
        None => None,
    }
}

/// Whether the credentials suffice: a command that calls the Web API needs
/// both `SPOTIFY_CLIENT_ID` and `SPOTIFY_CLIENT_SECRET`; `auth` and
/// `auth-status` need the client id only.
pub open spec fn credentials_suffice(
    needs_api: bool,
    client_id: Option<Seq<char>>,
    client_secret: Option<Seq<char>>,
) -> bool {
    if needs_api {
        is_set(client_id) && is_set(client_secret)
    } else {
        is_set(client_id)
    }
}

/// The value of a credential: the one in the environment at run time where
/// that is set and non-empty, else the one built into the program (if any).
pub open spec fn effective_credential(runtime: Option<Seq<char>>, built_in: Option<Seq<char>>) -> Option<Seq<char>> {
    if is_set(runtime) {
        runtime
    } else {
        built_in
    }
}

pub open spec fn opt_string(v: Option<String>) -> Option<Seq<char>> {
    match v {
        Some(s) => Some(s@),
        None => None,
    }
}

/// Chooses the value of a credential: the run-time environment overrides the
/// value built into the program, unless it is unset or empty.
pub fn credential(runtime: Option<&str>, built_in: Option<&str>) -> (r: Option<String>)
    ensures
        opt_string(r) == effective_credential(opt_text(runtime), opt_text(built_in)),
{
    if is_set_exec(runtime) {
        match runtime {
            Some(v) => Some(String::from_str(v)),
            None => None,
        }
    } else {
        match built_in {
            Some(v) => Some(String::from_str(v)),
            None => None,
        }
    }
}

/// The credentials are missing.
#[derive(Clone, Copy, Debug, PartialEq, Eq)]
pub enum ConfigError {
    MissingCredentials,
}

impl ConfigError {
    pub fn message(&self) -> (r: String)
        ensures
            r@ == "SPOTIFY_CLIENT_ID and SPOTIFY_CLIENT_SECRET must be set."@,
    {
        String::from_str("SPOTIFY_CLIENT_ID and SPOTIFY_CLIENT_SECRET must be set.")
    }
}

fn is_set_exec(v: Option<&str>) -> (r: bool)
    ensures
        r == is_set(opt_text(v)),
{
    match v {
        Some(s) => s.unicode_len() > 0,
        None => false,
    }
}

/// Checks the values of `SPOTIFY_CLIENT_ID` and `SPOTIFY_CLIENT_SECRET`
/// before a command runs.
pub fn check_env_vars(needs_api: bool, client_id: Option<&str>, client_secret: Option<&str>) -> (r:
    Result<(), ConfigError>)
    ensures
        r is Ok <==> credentials_suffice(needs_api, opt_text(client_id), opt_text(client_secret)),
{
    let has_id = is_set_exec(client_id);
    if needs_api {
        let has_secret = is_set_exec(client_secret);
        if !has_id || !has_secret {
            return Err(ConfigError::MissingCredentials);
        }
    } else if !has_id {
        return Err(ConfigError::MissingCredentials);
    }
    Ok(())
}

/// A command that calls the Web API runs only with both `SPOTIFY_CLIENT_ID`
/// and `SPOTIFY_CLIENT_SECRET` present and non-empty; `auth` and
/// `auth-status` run with a present, non-empty client id, whatever the
/// secret.
pub proof fn api_commands_need_both_credentials(
    client_id: Option<Seq<char>>,
    client_secret: Option<Seq<char>>,
)
    ensures
        credentials_suffice(true, client_id, client_secret) <==> (client_id is Some
            && client_id->0.len() > 0 && client_secret is Some && client_secret->0.len() > 0),
        credentials_suffice(false, client_id, client_secret) <==> (client_id is Some
            && client_id->0.len() > 0),
        credentials_suffice(true, client_id, Some(Seq::<char>::empty())) == false,
{
}

} // verus!
