use spotify_dj::auth::{
    auth_status, auth_step, build_oauth, credentials_location, load_token, setup_step,
    stored_status, token_file_text, AuthAction, AuthEvent, AuthStatusReport, Expiry, HeldToken,
    SaveError, SetupAction, SetupEvent, StoredToken,
};
use spotify_dj::token::SavedToken;
use spotify_dj::config::{check_env_vars, credential, Command, ConfigError};
use spotify_dj::session::Control;

#[test]
fn oauth_settings() {
    let o = build_oauth();
    assert_eq!(o.redirect_uri, "http://127.0.0.1:8888/callback");
    assert_eq!(
        o.scopes,
        vec![
            "user-read-playback-state".to_string(),
            "user-modify-playback-state".to_string(),
            "user-read-currently-playing".to_string()
        ]
    );
}

#[test]
fn status_of_stored_tokens() {
    assert_eq!(auth_status(None), AuthStatusReport::NotAuthenticated);
    let t = StoredToken { expires_at: Some("2025-03-01T21:00:00+00:00".to_string()) };
    assert_eq!(
        auth_status(Some(&t)),
        AuthStatusReport::Authenticated { expires_at: "2025-03-01T21:00:00+00:00".to_string() }
    );
    let t = StoredToken { expires_at: None };
    assert_eq!(
        auth_status(Some(&t)),
        AuthStatusReport::Authenticated { expires_at: "unknown".to_string() }
    );
}

#[test]
fn env_checks() {
    assert_eq!(check_env_vars(true, Some("id"), Some("secret")), Ok(()));
    assert_eq!(check_env_vars(true, Some("id"), None), Err(ConfigError::MissingCredentials));
    assert_eq!(check_env_vars(true, Some(""), Some("s")), Err(ConfigError::MissingCredentials));
    assert_eq!(check_env_vars(false, Some("id"), None), Ok(()));
    assert_eq!(check_env_vars(false, Some(""), Some("s")), Err(ConfigError::MissingCredentials));
    assert_eq!(check_env_vars(false, None, None), Err(ConfigError::MissingCredentials));
    assert_eq!(
        ConfigError::MissingCredentials.message(),
        "SPOTIFY_CLIENT_ID and SPOTIFY_CLIENT_SECRET must be set."
    );
}

#[test]
fn only_auth_commands_skip_the_api() {
    assert!(!Command::Auth.needs_api());
    assert!(!Command::AuthStatus.needs_api());
    assert!(Command::Now.needs_api());
    assert!(Command::Pause.needs_api());
    assert!(Command::Play { uri: None }.needs_api());
    assert!(Command::QueueAdd { uris: Vec::new() }.needs_api());
}

#[test]
fn login_flow() {
    assert_eq!(auth_step(&AuthEvent::Begin), AuthAction::AuthorizeUrl);
    assert_eq!(
        auth_step(&AuthEvent::UrlReady("https://accounts.example/authorize".to_string())),
        AuthAction::OpenBrowser {
            url: "https://accounts.example/authorize".to_string(),
            notes: vec!["Opening Spotify login page in your browser...".to_string()],
        }
    );
    assert_eq!(
        auth_step(&AuthEvent::BrowserOpened),
        AuthAction::Listen {
            address: "127.0.0.1:8888".to_string(),
            notes: vec!["Waiting for authentication on http://127.0.0.1:8888/callback ...".to_string()],
        }
    );
    assert_eq!(
        auth_step(&AuthEvent::BrowserFailed { url: "U".to_string(), detail: "no display".to_string() }),
        AuthAction::Listen {
            address: "127.0.0.1:8888".to_string(),
            notes: vec![
                "Could not open browser automatically: no display".to_string(),
                "Please open this URL manually:".to_string(),
                "U".to_string(),
                "Waiting for authentication on http://127.0.0.1:8888/callback ...".to_string(),
            ],
        }
    );
    let bytes = b"GET /callback?code=C0DE&state=s HTTP/1.1\r\n\r\n".to_vec();
    assert_eq!(auth_step(&AuthEvent::RequestReceived(bytes)), AuthAction::ExchangeCode("C0DE".to_string()));
    let bytes = b"GET /callback?error=access_denied HTTP/1.1\r\n\r\n".to_vec();
    assert_eq!(
        auth_step(&AuthEvent::RequestReceived(bytes)),
        AuthAction::Fail("Spotify OAuth error: access_denied".to_string())
    );
    assert_eq!(auth_step(&AuthEvent::Exchanged), AuthAction::ReadToken);
    let received = stored(TOKEN_TEXT);
    match auth_step(&AuthEvent::Token(HeldToken::Present(received))) {
        AuthAction::SaveToken(text) => {
            let written = stored(&text).into_token();
            assert_eq!(written, stored(TOKEN_TEXT).into_token());
        }
        other => panic!("expected the token to be saved, got {:?}", other),
    }
    assert_eq!(
        auth_step(&AuthEvent::Token(HeldToken::Missing)),
        AuthAction::Fail("No token received after authentication".to_string())
    );
    assert_eq!(auth_step(&AuthEvent::Saved), AuthAction::Report);
}

#[test]
fn login_failures() {
    assert_eq!(
        auth_step(&AuthEvent::UrlFailed),
        AuthAction::Fail("Failed to generate authorization URL".to_string())
    );
    assert_eq!(
        auth_step(&AuthEvent::BindFailed),
        AuthAction::Fail("Failed to bind to port 8888 — is something else already using it?".to_string())
    );
    assert_eq!(
        auth_step(&AuthEvent::AcceptFailed),
        AuthAction::Fail("Failed to accept connection on port 8888".to_string())
    );
    assert_eq!(
        auth_step(&AuthEvent::ReadFailed),
        AuthAction::Fail("Failed to read HTTP request from socket".to_string())
    );
    assert_eq!(
        auth_step(&AuthEvent::ExchangeFailed),
        AuthAction::Fail("Failed to exchange authorization code for token".to_string())
    );
    assert_eq!(
        auth_step(&AuthEvent::Token(HeldToken::LockFailed)),
        AuthAction::Fail("Failed to acquire token lock".to_string())
    );
    assert_eq!(
        auth_step(&AuthEvent::SaveFailed(SaveError::Write)),
        AuthAction::Fail("Failed to save credentials".to_string())
    );
}

const TOKEN_TEXT: &str = r#"{
  "access_token": "BQD-access",
  "expires_in": 3600,
  "expires_at": "2025-03-01T21:00:00Z",
  "refresh_token": "AQB-refresh",
  "scope": "user-read-playback-state user-modify-playback-state"
}"#;

const TOKEN_WITHOUT_EXPIRY: &str =
    r#"{"access_token": "a", "expires_in": 60, "refresh_token": null, "scope": ""}"#;

fn stored(text: &str) -> SavedToken {
    load_token(Some(text)).expect("a stored token")
}

fn fails_with(action: SetupAction, message: &str) -> bool {
    matches!(action, SetupAction::Fail(m) if m == message)
}

#[test]
fn client_setup_refreshes_expired_tokens() {
    assert!(matches!(setup_step(&SetupEvent::Begin), SetupAction::ReadClientId));
    assert!(matches!(setup_step(&SetupEvent::ClientId), SetupAction::LoadToken));
    match setup_step(&SetupEvent::FileRead(Some(TOKEN_TEXT.to_string()))) {
        SetupAction::InstallToken(stored) => {
            let token = stored.into_token();
            assert_eq!(token.access_token, "BQD-access");
            assert_eq!(token.refresh_token.as_deref(), Some("AQB-refresh"));
        }
        other => panic!("expected the stored token to be installed, got {:?}", other),
    }
    assert!(matches!(setup_step(&SetupEvent::Installed(true)), SetupAction::CheckExpiry));
    assert!(matches!(setup_step(&SetupEvent::Checked(Expiry::Fresh)), SetupAction::Ready));
    assert!(matches!(setup_step(&SetupEvent::Checked(Expiry::NoToken)), SetupAction::Ready));
    assert!(matches!(setup_step(&SetupEvent::Checked(Expiry::Expired)), SetupAction::Refresh));
    assert!(matches!(setup_step(&SetupEvent::Refreshed), SetupAction::ReadRefreshedToken));
    let mut refreshed = stored(TOKEN_TEXT).into_token();
    refreshed.access_token = "BQD-refreshed".to_string();
    match setup_step(&SetupEvent::RefreshedToken(HeldToken::Present(SavedToken::from_client(refreshed.clone())))) {
        SetupAction::SaveToken(text) => assert_eq!(stored(&text).into_token(), refreshed),
        other => panic!("expected the refreshed token to be saved, got {:?}", other),
    }
    assert!(matches!(setup_step(&SetupEvent::RefreshedToken(HeldToken::Missing)), SetupAction::Ready));
    assert!(matches!(setup_step(&SetupEvent::Saved), SetupAction::Ready));
}

#[test]
fn client_setup_failures() {
    assert!(fails_with(
        setup_step(&SetupEvent::ClientIdUnavailable("environment variable not found".to_string())),
        "environment variable not found"
    ));
    let not_logged_in = "Not authenticated. Run `spotify-dj auth` to log in.";
    assert!(fails_with(setup_step(&SetupEvent::FileRead(None)), not_logged_in));
    assert!(fails_with(setup_step(&SetupEvent::FileRead(Some("not json".to_string()))), not_logged_in));
    assert!(fails_with(setup_step(&SetupEvent::FileRead(Some("{}".to_string()))), not_logged_in));
    assert!(fails_with(setup_step(&SetupEvent::Installed(false)), "Failed to acquire token lock"));
    assert!(fails_with(
        setup_step(&SetupEvent::Checked(Expiry::LockFailed)),
        "Failed to acquire token lock"
    ));
    assert!(fails_with(
        setup_step(&SetupEvent::RefreshFailed("invalid_grant".to_string())),
        "Failed to refresh access token: invalid_grant"
    ));
    assert!(fails_with(
        setup_step(&SetupEvent::RefreshedToken(HeldToken::LockFailed)),
        "Failed to acquire token lock after refresh"
    ));
    assert!(fails_with(
        setup_step(&SetupEvent::SaveFailed(SaveError::NoConfigDir)),
        "Could not determine config directory"
    ));
}

#[test]
fn stored_tokens_are_read_back() {
    let loaded = stored(TOKEN_TEXT);
    assert_eq!(loaded.expires_at(), Some("2025-03-01T21:00:00+00:00".to_string()));
    let token = loaded.into_token();
    assert_eq!(token.access_token, "BQD-access");
    assert_eq!(token.expires_in.num_seconds(), 3600);
    assert_eq!(token.scopes.len(), 2);
    assert!(token.scopes.contains("user-modify-playback-state"));
    assert_eq!(stored(TOKEN_WITHOUT_EXPIRY).expires_at(), None);
    assert!(load_token(None).is_none());
    assert!(load_token(Some("")).is_none());
    assert!(load_token(Some("{\"access_token\": 3}")).is_none());
}

#[test]
fn auth_status_reads_the_credentials_file() {
    assert_eq!(
        stored_status(Some(TOKEN_TEXT)),
        AuthStatusReport::Authenticated { expires_at: "2025-03-01T21:00:00+00:00".to_string() }
    );
    assert_eq!(
        stored_status(Some(TOKEN_WITHOUT_EXPIRY)),
        AuthStatusReport::Authenticated { expires_at: "unknown".to_string() }
    );
    assert_eq!(stored_status(None), AuthStatusReport::NotAuthenticated);
    assert_eq!(stored_status(Some("garbage")), AuthStatusReport::NotAuthenticated);
}

#[test]
fn saved_tokens_load_again() {
    let token = stored(TOKEN_TEXT);
    let text = token_file_text(&token).expect("a token writes as JSON");
    assert!(text.contains('\n'));
    assert_eq!(stored(&text).into_token(), token.into_token());
    assert_eq!(stored_status(Some(text.as_str())), stored_status(Some(TOKEN_TEXT)));
}

#[test]
fn save_error_messages() {
    assert_eq!(SaveError::NoConfigDir.message(), "Could not determine config directory");
    assert_eq!(SaveError::CreateDir.message(), "Failed to create config directory");
    assert_eq!(SaveError::Serialize.message(), "Failed to serialize token");
    assert_eq!(SaveError::Write.message(), "Failed to write credentials file");
    assert_eq!(credentials_location(), ("spotify-dj", "credentials.json"));
}

#[test]
fn control_messages() {
    assert_eq!(Control::Pause.failure_message("e"), "Failed to pause playback: e");
    assert_eq!(Control::Skip.failure_message("e"), "Failed to skip track: e");
}

#[test]
fn run_time_credentials_override_built_in_ones() {
    assert_eq!(credential(Some("run"), Some("built")), Some("run".to_string()));
    assert_eq!(credential(Some(""), Some("built")), Some("built".to_string()));
    assert_eq!(credential(None, Some("built")), Some("built".to_string()));
    assert_eq!(credential(Some("run"), None), Some("run".to_string()));
    assert_eq!(credential(None, None), None);
    assert_eq!(credential(Some(""), None), None);
}
