//! Logging in and staying logged in: the OAuth settings, the login flow, the
//! stored token's status, and getting a client with a fresh token.

use vstd::prelude::*;
use crate::callback::{CallbackErrorView, callback_error_message, callback_outcome, lossy_utf8, parse_callback_bytes};
use crate::session::joined;
use crate::config::opt_text;
use crate::token::{
    SavedToken, TokenFields, pretty_text, read_token_text, scopes_are_words,
    token_in_text, writes_token,
};

verus! {

/// The settings of the OAuth authorization-code flow.
#[derive(Clone, Debug, PartialEq)]
pub struct OAuthSettings {
    pub redirect_uri: String,
    pub scopes: Vec<String>,
}

/// The address that Spotify redirects the browser to after login.
pub open spec fn redirect_uri() -> Seq<char> {
    "http://127.0.0.1:8888/callback"@
}

/// The permissions asked for: reading and changing the playback state, and
/// reading what is playing.
pub open spec fn oauth_scopes() -> Seq<Seq<char>> {
    seq![
        "user-read-playback-state"@,
        "user-modify-playback-state"@,
        "user-read-currently-playing"@,
    ]
}

/// The OAuth settings of the login.
pub fn build_oauth() -> (r: OAuthSettings)
    ensures
        r.redirect_uri@ == redirect_uri(),
        r.scopes@.map_values(|s: String| s@) == oauth_scopes(),
{
    let mut scopes: Vec<String> = Vec::new();
    scopes.push(String::from_str("user-read-playback-state"));
    scopes.push(String::from_str("user-modify-playback-state"));
    scopes.push(String::from_str("user-read-currently-playing"));
    let r = OAuthSettings {
        redirect_uri: String::from_str("http://127.0.0.1:8888/callback"),
        scopes,
    };
    assert(r.scopes@.map_values(|s: String| s@) =~= oauth_scopes());
    r
}

/// What `auth-status` reads of a stored token: when it expires, in RFC 3339,
/// where it says.
#[derive(Clone, Debug, PartialEq)]
pub struct StoredToken {
    pub expires_at: Option<String>,
}

/// What `auth-status` prints.
#[derive(Clone, Debug, PartialEq)]
pub enum AuthStatusReport {
    /// `{"authenticated": false}`.
    NotAuthenticated,
    /// `{"authenticated": true, "expires_at": expires_at}`.
    Authenticated { expires_at: String },
}

/// Reports whether a token is stored, and when it expires (`unknown` where
/// the token does not say).
pub fn auth_status(stored: Option<&StoredToken>) -> (r: AuthStatusReport)
    ensures
        match stored {
            None => r is NotAuthenticated,
            Some(t) => r matches AuthStatusReport::Authenticated { expires_at } && expires_at@ == (
            match t.expires_at {
                Some(e) => e@,
                None => "unknown"@,
            }),
        },
{
    match stored {
        None => AuthStatusReport::NotAuthenticated,
        Some(t) => AuthStatusReport::Authenticated {
            expires_at: match &t.expires_at {
                Some(e) => e.clone(),
                None => String::from_str("unknown"),
            },
        },
    }
}

pub open spec fn opt_string_view(v: Option<String>) -> Option<Seq<char>> {
    match v {
        Some(s) => Some(s@),
        None => None,
    }
}

/// What the credentials file holds, given its contents (`None` where it
/// could not be read).
pub open spec fn stored_token_of(contents: Option<Seq<char>>) -> Option<TokenFields> {
    match contents {
        Some(text) => token_in_text(text),
        None => None,
    }
}

/// Reads the stored token back out of the credentials file's contents:
/// `None` where the file could not be read or holds no token.
pub fn load_token(contents: Option<&str>) -> (r: Option<SavedToken>)
    ensures
        match r {
            None => stored_token_of(opt_text(contents)) is None,
            Some(t) => stored_token_of(opt_text(contents)) == Some(t@),
        },
{
    match contents {
        None => None,
        Some(text) => read_token_text(text),
    }
}

/// What `auth-status` reports, given the credentials file's contents: logged
/// in exactly when the file holds a token, with that token's expiry
/// (`unknown` where it has none).
pub fn stored_status(contents: Option<&str>) -> (r: AuthStatusReport)
    ensures
        match stored_token_of(opt_text(contents)) {
            None => r is NotAuthenticated,
            Some(t) => r matches AuthStatusReport::Authenticated { expires_at }
                && expires_at@ == (match t.expires_at {
                Some(e) => e,
                None => "unknown"@,
            }),
        },
{
    match load_token(contents) {
        None => auth_status(None),
        Some(t) => auth_status(Some(&StoredToken { expires_at: t.expires_at() })),
    }
}

/// The text written to the credentials file for `token`: it is always made,
/// and reads back as the same token (`writes_token`).
pub fn token_file_text(token: &SavedToken) -> (r: Result<String, SaveError>)
    ensures
        r matches Ok(text) && writes_token(text@, token@),
{
    match pretty_text(token) {
        Some(text) => Ok(text),
        None => Err(SaveError::Serialize),
    }
}

/// A token that the client holds, or why there is none.
#[derive(Debug)]
pub enum HeldToken {
    /// The token's lock could not be taken.
    LockFailed,
    /// The client holds no token.
    Missing,
    /// The client's token.
    Present(SavedToken),
}

pub enum HeldTokenView {
    LockFailed,
    Missing,
    Present(TokenFields),
}

impl View for HeldToken {
    type V = HeldTokenView;

    open spec fn view(&self) -> HeldTokenView {
        match self {
            HeldToken::LockFailed => HeldTokenView::LockFailed,
            HeldToken::Missing => HeldTokenView::Missing,
            HeldToken::Present(t) => HeldTokenView::Present(t@),
        }
    }
}

/// Why a token could not be stored.
#[derive(Clone, Copy, Debug, PartialEq, Eq)]
pub enum SaveError {
    /// The user's configuration directory is unknown.
    NoConfigDir,
    /// The directory `spotify-dj` could not be made in it.
    CreateDir,
    /// The token could not be written as JSON.
    Serialize,
    /// The file `credentials.json` could not be written.
    Write,
}

pub open spec fn save_error_message(e: SaveError) -> Seq<char> {
    match e {
        SaveError::NoConfigDir => "Could not determine config directory"@,
        SaveError::CreateDir => "Failed to create config directory"@,
        SaveError::Serialize => "Failed to serialize token"@,
        SaveError::Write => "Failed to write credentials file"@,
    }
}

impl SaveError {
    pub fn message(&self) -> (r: String)
        ensures
            r@ == save_error_message(*self),
    {
        match self {
            SaveError::NoConfigDir => String::from_str("Could not determine config directory"),
            SaveError::CreateDir => String::from_str("Failed to create config directory"),
            SaveError::Serialize => String::from_str("Failed to serialize token"),
            SaveError::Write => String::from_str("Failed to write credentials file"),
        }
    }
}

/// The directory, under the user's configuration directory, and the file
/// that hold the stored token.
pub fn credentials_location() -> (r: (&'static str, &'static str))
    ensures
        r.0@ == "spotify-dj"@,
        r.1@ == "credentials.json"@,
{
    ("spotify-dj", "credentials.json")
}

/// What happened since the login last decided.
#[derive(Debug)]
pub enum AuthEvent {
    /// The login starts.
    Begin,
    /// The authorization URL was made.
    UrlReady(String),
    /// No authorization URL could be made.
    UrlFailed,
    /// The browser was opened on the authorization URL.
    BrowserOpened,
    /// The browser could not be opened on `url`; `detail` says why.
    BrowserFailed { url: String, detail: String },
    /// The callback address could not be bound.
    BindFailed,
    /// No connection could be accepted on the callback address.
    AcceptFailed,
    /// Nothing could be read from the connection.
    ReadFailed,
    /// The browser sent these bytes (and has been answered with the page of
    /// `callback_reply`).
    RequestReceived(Vec<u8>),
    /// Spotify refused to exchange the code for a token.
    ExchangeFailed,
    /// The code was exchanged for a token.
    Exchanged,
    /// The client's token was read.
    Token(HeldToken),
    /// The token could not be stored.
    SaveFailed(SaveError),
    /// The token was stored.
    Saved,
}

pub enum AuthEventView {
    Begin,
    UrlReady(Seq<char>),
    UrlFailed,
    BrowserOpened,
    BrowserFailed { url: Seq<char>, detail: Seq<char> },
    BindFailed,
    AcceptFailed,
    ReadFailed,
    RequestReceived(Seq<u8>),
    ExchangeFailed,
    Exchanged,
    Token(HeldTokenView),
    SaveFailed(SaveError),
    Saved,
}

impl View for AuthEvent {
    type V = AuthEventView;

    open spec fn view(&self) -> AuthEventView {
        match self {
            AuthEvent::Begin => AuthEventView::Begin,
            AuthEvent::UrlReady(u) => AuthEventView::UrlReady(u@),
            AuthEvent::UrlFailed => AuthEventView::UrlFailed,
            AuthEvent::BrowserOpened => AuthEventView::BrowserOpened,
            AuthEvent::BrowserFailed { url, detail } => AuthEventView::BrowserFailed {
                url: url@,
                detail: detail@,
            },
            AuthEvent::BindFailed => AuthEventView::BindFailed,
            AuthEvent::AcceptFailed => AuthEventView::AcceptFailed,
            AuthEvent::ReadFailed => AuthEventView::ReadFailed,
            AuthEvent::RequestReceived(b) => AuthEventView::RequestReceived(b@),
            AuthEvent::ExchangeFailed => AuthEventView::ExchangeFailed,
            AuthEvent::Exchanged => AuthEventView::Exchanged,
            AuthEvent::Token(t) => AuthEventView::Token(t@),
            AuthEvent::SaveFailed(e) => AuthEventView::SaveFailed(*e),
            AuthEvent::Saved => AuthEventView::Saved,
        }
    }
}

/// What the login does next.
#[derive(Clone, Debug, PartialEq)]
pub enum AuthAction {
    /// Make the authorization URL.
    AuthorizeUrl,
    /// Print the notes to stderr, then open the browser on `url`.
    OpenBrowser { url: String, notes: Vec<String> },
    /// Print the notes to stderr, then wait for one request on `address`,
    /// read it and answer it with the page of `callback_reply`.
    Listen { address: String, notes: Vec<String> },
    /// Exchange the authorization code for a token.
    ExchangeCode(String),
    /// Read the client's token.
    ReadToken,
    /// Write this text to the credentials file.
    SaveToken(String),
    /// Print `{"authenticated": true}` and succeed.
    Report,
    /// Fail with this message.
    Fail(String),
}

pub enum AuthActionView {
    AuthorizeUrl,
    OpenBrowser { url: Seq<char>, notes: Seq<Seq<char>> },
    Listen { address: Seq<char>, notes: Seq<Seq<char>> },
    ExchangeCode(Seq<char>),
    ReadToken,
    SaveToken(Seq<char>),
    Report,
    Fail(Seq<char>),
}

impl View for AuthAction {
    type V = AuthActionView;

    open spec fn view(&self) -> AuthActionView {
        match self {
            AuthAction::AuthorizeUrl => AuthActionView::AuthorizeUrl,
            AuthAction::OpenBrowser { url, notes } => AuthActionView::OpenBrowser {
                url: url@,
                notes: notes@.map_values(|n: String| n@),
            },
            AuthAction::Listen { address, notes } => AuthActionView::Listen {
                address: address@,
                notes: notes@.map_values(|n: String| n@),
            },
            AuthAction::ExchangeCode(c) => AuthActionView::ExchangeCode(c@),
            AuthAction::ReadToken => AuthActionView::ReadToken,
            AuthAction::SaveToken(text) => AuthActionView::SaveToken(text@),
            AuthAction::Report => AuthActionView::Report,
            AuthAction::Fail(m) => AuthActionView::Fail(m@),
        }
    }
}

/// The address that the callback server listens on.
pub open spec fn callback_address() -> Seq<char> {
    "127.0.0.1:8888"@
}

/// The note printed while waiting for the callback.
pub open spec fn waiting_note() -> Seq<char> {
    "Waiting for authentication on http://127.0.0.1:8888/callback ..."@
}

/// What the login does after each event: make the authorization URL, open the
/// browser on it (or ask for it to be opened by hand), wait for the callback,
/// exchange its code for a token, write that token to the credentials file,
/// and report.
pub open spec fn auth_follows(event: AuthEventView, action: AuthActionView) -> bool {
    match event {
        AuthEventView::Token(HeldTokenView::Present(t)) => action matches AuthActionView::SaveToken(
            text,
        ) && writes_token(text, t),
        _ => action == auth_transition(event),
    }
}

/// What the login does after an event other than receiving its token.
pub open spec fn auth_transition(event: AuthEventView) -> AuthActionView
    recommends
        !(event matches AuthEventView::Token(HeldTokenView::Present(_))),
{
    match event {
        AuthEventView::Begin => AuthActionView::AuthorizeUrl,
        AuthEventView::UrlReady(url) => AuthActionView::OpenBrowser {
            url,
            notes: seq!["Opening Spotify login page in your browser..."@],
        },
        AuthEventView::UrlFailed => AuthActionView::Fail("Failed to generate authorization URL"@),
        AuthEventView::BrowserOpened => AuthActionView::Listen {
            address: callback_address(),
            notes: seq![waiting_note()],
        },
        AuthEventView::BrowserFailed { url, detail } => AuthActionView::Listen {
            address: callback_address(),
            notes: seq![
                "Could not open browser automatically: "@ + detail,
                "Please open this URL manually:"@,
                url,
                waiting_note(),
            ],
        },
        AuthEventView::BindFailed => AuthActionView::Fail(
            "Failed to bind to port 8888 — is something else already using it?"@,
        ),
        AuthEventView::AcceptFailed => AuthActionView::Fail(
            "Failed to accept connection on port 8888"@,
        ),
        AuthEventView::ReadFailed => AuthActionView::Fail(
            "Failed to read HTTP request from socket"@,
        ),
        AuthEventView::RequestReceived(bytes) => match callback_outcome(lossy_utf8(bytes)) {
            Ok(code) => AuthActionView::ExchangeCode(code),
            Err(e) => AuthActionView::Fail(callback_error_message(e)),
        },
        AuthEventView::ExchangeFailed => AuthActionView::Fail(
            "Failed to exchange authorization code for token"@,
        ),
        AuthEventView::Exchanged => AuthActionView::ReadToken,
        AuthEventView::Token(t) => match t {
            HeldTokenView::Missing => AuthActionView::Fail(
                "No token received after authentication"@,
            ),
            _ => AuthActionView::Fail("Failed to acquire token lock"@),
        },
        AuthEventView::SaveFailed(_) => AuthActionView::Fail("Failed to save credentials"@),
        AuthEventView::Saved => AuthActionView::Report,
    }
}

fn notes1(a: &str) -> (r: Vec<String>)
    ensures
        r@.map_values(|n: String| n@) == seq![a@],
{
    let mut v: Vec<String> = Vec::new();
    v.push(String::from_str(a));
    assert(v@.map_values(|n: String| n@) =~= seq![a@]);
    v
}

/// Decides what the login does after `event`.
pub fn auth_step(event: &AuthEvent) -> (r: AuthAction)
    ensures
        auth_follows(event@, r@),
{
    match event {
        AuthEvent::Begin => AuthAction::AuthorizeUrl,
        AuthEvent::UrlReady(url) => AuthAction::OpenBrowser {
            url: url.clone(),
            notes: notes1("Opening Spotify login page in your browser..."),
        },
        AuthEvent::UrlFailed => AuthAction::Fail(
            String::from_str("Failed to generate authorization URL"),
        ),
        AuthEvent::BrowserOpened => AuthAction::Listen {
            address: String::from_str("127.0.0.1:8888"),
            notes: notes1("Waiting for authentication on http://127.0.0.1:8888/callback ..."),
        },
        AuthEvent::BrowserFailed { url, detail } => {
            let mut notes: Vec<String> = Vec::new();
            notes.push(joined("Could not open browser automatically: ", detail.as_str()));
            notes.push(String::from_str("Please open this URL manually:"));
            notes.push(url.clone());
            notes.push(
                String::from_str("Waiting for authentication on http://127.0.0.1:8888/callback ..."),
            );
            assert(notes@.map_values(|n: String| n@) =~= seq![
                "Could not open browser automatically: "@ + detail@,
                "Please open this URL manually:"@,
                url@,
                waiting_note(),
            ]);
            AuthAction::Listen { address: String::from_str("127.0.0.1:8888"), notes }
        },
        AuthEvent::BindFailed => AuthAction::Fail(
            String::from_str("Failed to bind to port 8888 — is something else already using it?"),
        ),
        AuthEvent::AcceptFailed => AuthAction::Fail(
            String::from_str("Failed to accept connection on port 8888"),
        ),
        AuthEvent::ReadFailed => AuthAction::Fail(
            String::from_str("Failed to read HTTP request from socket"),
        ),
        AuthEvent::RequestReceived(bytes) => match parse_callback_bytes(bytes.as_slice()) {
            Ok(code) => AuthAction::ExchangeCode(code),
            Err(e) => AuthAction::Fail(e.message()),
        },
        AuthEvent::ExchangeFailed => AuthAction::Fail(
            String::from_str("Failed to exchange authorization code for token"),
        ),
        AuthEvent::Exchanged => AuthAction::ReadToken,
        AuthEvent::Token(t) => match t {
            HeldToken::LockFailed => AuthAction::Fail(String::from_str("Failed to acquire token lock")),
            HeldToken::Missing => AuthAction::Fail(
                String::from_str("No token received after authentication"),
            ),
            HeldToken::Present(token) => match token_file_text(token) {
                Ok(text) => AuthAction::SaveToken(text),
                Err(_) => AuthAction::Fail(String::from_str("Failed to save credentials")),
            },
        },
        AuthEvent::SaveFailed(_) => AuthAction::Fail(String::from_str("Failed to save credentials")),
        AuthEvent::Saved => AuthAction::Report,
    }
}

/// The login reports success only once the token is stored.
pub proof fn login_succeeds_only_after_saving(event: AuthEventView, action: AuthActionView)
    requires
        auth_follows(event, action),
    ensures
        action is Report <==> event is Saved,
{
}

/// The only code that the login exchanges for a token is the one read out of
/// the browser's redirect.
pub proof fn login_exchanges_only_the_redirected_code(
    event: AuthEventView,
    action: AuthActionView,
    code: Seq<char>,
)
    requires
        auth_follows(event, action),
    ensures
        action == AuthActionView::ExchangeCode(code) ==> (event matches AuthEventView::RequestReceived(bytes)
            && callback_outcome(lossy_utf8(bytes)) == Ok::<Seq<char>, CallbackErrorView>(code)),
{
}

/// The login writes the credentials file exactly when it holds the token
/// that the code was exchanged for, and what it writes reads back as that
/// token.
pub proof fn login_stores_the_token_it_received(event: AuthEventView, action: AuthActionView)
    requires
        auth_follows(event, action),
    ensures
        action is SaveToken <==> event matches AuthEventView::Token(HeldTokenView::Present(_)),
        action matches AuthActionView::SaveToken(text) ==> (event matches AuthEventView::Token(
            HeldTokenView::Present(t),
        ) && writes_token(text, t)),
{
}

/// What checking the token's expiry found.
#[derive(Clone, Copy, Debug, PartialEq, Eq)]
pub enum Expiry {
    /// The token's lock could not be taken.
    LockFailed,
    /// The client holds no token.
    NoToken,
    /// The token is still good.
    Fresh,
    /// The token has expired.
    Expired,
}

/// What happened since the client setup last decided.
#[derive(Debug)]
pub enum SetupEvent {
    /// The setup starts.
    Begin,
    /// `SPOTIFY_CLIENT_ID` was read.
    ClientId,
    /// `SPOTIFY_CLIENT_ID` could not be read; the text says why.
    ClientIdUnavailable(String),
    /// The contents of the credentials file (`None` where it could not be
    /// read).
    FileRead(Option<String>),
    /// Whether the stored token could be handed to the client (its lock taken).
    Installed(bool),
    /// The expiry check.
    Checked(Expiry),
    /// The token could not be refreshed; the text says why.
    RefreshFailed(String),
    /// The token was refreshed.
    Refreshed,
    /// The refreshed token was read.
    RefreshedToken(HeldToken),
    /// The refreshed token could not be stored.
    SaveFailed(SaveError),
    /// The refreshed token was stored.
    Saved,
}

pub enum SetupEventView {
    Begin,
    ClientId,
    ClientIdUnavailable(Seq<char>),
    FileRead(Option<Seq<char>>),
    Installed(bool),
    Checked(Expiry),
    RefreshFailed(Seq<char>),
    Refreshed,
    RefreshedToken(HeldTokenView),
    SaveFailed(SaveError),
    Saved,
}

impl View for SetupEvent {
    type V = SetupEventView;

    open spec fn view(&self) -> SetupEventView {
        match self {
            SetupEvent::Begin => SetupEventView::Begin,
            SetupEvent::ClientId => SetupEventView::ClientId,
            SetupEvent::ClientIdUnavailable(d) => SetupEventView::ClientIdUnavailable(d@),
            SetupEvent::FileRead(c) => SetupEventView::FileRead(opt_string_view(*c)),
            SetupEvent::Installed(b) => SetupEventView::Installed(*b),
            SetupEvent::Checked(e) => SetupEventView::Checked(*e),
            SetupEvent::RefreshFailed(d) => SetupEventView::RefreshFailed(d@),
            SetupEvent::Refreshed => SetupEventView::Refreshed,
            SetupEvent::RefreshedToken(t) => SetupEventView::RefreshedToken(t@),
            SetupEvent::SaveFailed(e) => SetupEventView::SaveFailed(*e),
            SetupEvent::Saved => SetupEventView::Saved,
        }
    }
}

/// What the client setup does next.
#[derive(Debug)]
pub enum SetupAction {
    /// Read `SPOTIFY_CLIENT_ID`.
    ReadClientId,
    /// Load the stored token.
    LoadToken,
    /// Make a client and hand it this stored token.
    InstallToken(SavedToken),
    /// Check whether the client's token has expired.
    CheckExpiry,
    /// Refresh the client's token.
    Refresh,
    /// Read the refreshed token.
    ReadRefreshedToken,
    /// Write this text, the refreshed token, to the credentials file.
    SaveToken(String),
    /// The client is ready.
    Ready,
    /// Fail with this message.
    Fail(String),
}

pub enum SetupActionView {
    ReadClientId,
    LoadToken,
    InstallToken(TokenFields),
    CheckExpiry,
    Refresh,
    ReadRefreshedToken,
    SaveToken(Seq<char>),
    Ready,
    Fail(Seq<char>),
}

impl View for SetupAction {
    type V = SetupActionView;

    open spec fn view(&self) -> SetupActionView {
        match self {
            SetupAction::ReadClientId => SetupActionView::ReadClientId,
            SetupAction::LoadToken => SetupActionView::LoadToken,
            SetupAction::InstallToken(t) => SetupActionView::InstallToken(t@),
            SetupAction::CheckExpiry => SetupActionView::CheckExpiry,
            SetupAction::Refresh => SetupActionView::Refresh,
            SetupAction::ReadRefreshedToken => SetupActionView::ReadRefreshedToken,
            SetupAction::SaveToken(text) => SetupActionView::SaveToken(text@),
            SetupAction::Ready => SetupActionView::Ready,
            SetupAction::Fail(m) => SetupActionView::Fail(m@),
        }
    }
}

/// What the client setup does after each event: load the stored token (or
/// fail, not logged in), hand it to a client, refresh it if it has expired,
/// write a refreshed token to the credentials file, and hand the client out.
pub open spec fn setup_follows(event: SetupEventView, action: SetupActionView) -> bool {
    match event {
        SetupEventView::RefreshedToken(HeldTokenView::Present(t)) => action matches SetupActionView::SaveToken(
            text,
        ) && writes_token(text, t),
        _ => action == setup_transition(event),
    }
}

/// What the client setup does after an event other than reading a refreshed
/// token.
pub open spec fn setup_transition(event: SetupEventView) -> SetupActionView
    recommends
        !(event matches SetupEventView::RefreshedToken(HeldTokenView::Present(_))),
{
    match event {
        SetupEventView::Begin => SetupActionView::ReadClientId,
        SetupEventView::ClientId => SetupActionView::LoadToken,
        SetupEventView::ClientIdUnavailable(d) => SetupActionView::Fail(d),
        SetupEventView::FileRead(contents) => match stored_token_of(contents) {
            Some(t) => SetupActionView::InstallToken(t),
            None => SetupActionView::Fail("Not authenticated. Run `spotify-dj auth` to log in."@),
        },
        SetupEventView::Installed(ok) => if ok {
            SetupActionView::CheckExpiry
        } else {
            SetupActionView::Fail("Failed to acquire token lock"@)
        },
        SetupEventView::Checked(e) => match e {
            Expiry::LockFailed => SetupActionView::Fail("Failed to acquire token lock"@),
            Expiry::Expired => SetupActionView::Refresh,
            _ => SetupActionView::Ready,
        },
        SetupEventView::RefreshFailed(d) => SetupActionView::Fail(
            "Failed to refresh access token: "@ + d,
        ),
        SetupEventView::Refreshed => SetupActionView::ReadRefreshedToken,
        SetupEventView::RefreshedToken(t) => match t {
            HeldTokenView::Missing => SetupActionView::Ready,
            _ => SetupActionView::Fail("Failed to acquire token lock after refresh"@),
        },
        SetupEventView::SaveFailed(e) => SetupActionView::Fail(save_error_message(e)),
        SetupEventView::Saved => SetupActionView::Ready,
    }
}

/// Decides what the client setup does after `event`.
pub fn setup_step(event: &SetupEvent) -> (r: SetupAction)
    ensures
        setup_follows(event@, r@),
{
    match event {
        SetupEvent::Begin => SetupAction::ReadClientId,
        SetupEvent::ClientId => SetupAction::LoadToken,
        SetupEvent::ClientIdUnavailable(d) => SetupAction::Fail(d.clone()),
        SetupEvent::FileRead(contents) => {
            let text = match contents {
                Some(c) => Some(c.as_str()),
                None => None,
            };
            match load_token(text) {
                Some(stored) => SetupAction::InstallToken(stored),
                None => SetupAction::Fail(
                    String::from_str("Not authenticated. Run `spotify-dj auth` to log in."),
                ),
            }
        },
        SetupEvent::Installed(ok) => if *ok {
            SetupAction::CheckExpiry
        } else {
            SetupAction::Fail(String::from_str("Failed to acquire token lock"))
        },
        SetupEvent::Checked(e) => match e {
            Expiry::LockFailed => SetupAction::Fail(String::from_str("Failed to acquire token lock")),
            Expiry::Expired => SetupAction::Refresh,
            _ => SetupAction::Ready,
        },
        SetupEvent::RefreshFailed(d) => SetupAction::Fail(
            joined("Failed to refresh access token: ", d.as_str()),
        ),
        SetupEvent::Refreshed => SetupAction::ReadRefreshedToken,
        SetupEvent::RefreshedToken(t) => match t {
            HeldToken::LockFailed => SetupAction::Fail(
                String::from_str("Failed to acquire token lock after refresh"),
            ),
            HeldToken::Missing => SetupAction::Ready,
            HeldToken::Present(token) => match token_file_text(token) {
                Ok(text) => SetupAction::SaveToken(text),
                Err(e) => SetupAction::Fail(e.message()),
            },
        },
        SetupEvent::SaveFailed(e) => SetupAction::Fail(e.message()),
        SetupEvent::Saved => SetupAction::Ready,
    }
}

/// The client setup hands a client exactly the token that the credentials
/// file holds, and only when it holds one; it refreshes the token exactly
/// when the check found it expired; and it writes the refreshed token to the
/// credentials file, so that it reads back as that token, before the client
/// is handed out.
pub proof fn setup_refreshes_exactly_expired_tokens(event: SetupEventView, action: SetupActionView)
    requires
        setup_follows(event, action),
    ensures
        forall|t: TokenFields| action == SetupActionView::InstallToken(t) <==> (event matches SetupEventView::FileRead(
            contents,
        ) && stored_token_of(contents) == Some(t)),
        action is Refresh <==> event == SetupEventView::Checked(Expiry::Expired),
        action is SaveToken <==> event matches SetupEventView::RefreshedToken(HeldTokenView::Present(_)),
        action matches SetupActionView::SaveToken(text) ==> (event matches SetupEventView::RefreshedToken(
            HeldTokenView::Present(t),
        ) && writes_token(text, t)),
{
}

/// A token written to the credentials file by the login or the client setup
/// is read back, by the next command, as a token with the same access token,
/// lifetime, expiry and refresh token, and the same scopes where they are
/// words; a token read from the file has word scopes, so it reads back
/// whole.
pub proof fn saved_token_reads_back(t: TokenFields, text: Seq<char>)
    requires
        writes_token(text, t),
    ensures
        stored_token_of(Some(text)) matches Some(u) && u.access_token == t.access_token
            && u.expires_in == t.expires_in && u.expires_at == t.expires_at && u.refresh_token
            == t.refresh_token && (scopes_are_words(t.scopes) ==> u == t),
{
}

} // verus!
