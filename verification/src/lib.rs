//! Decision logic of a command-line client for the Spotify Web API: reading
//! the JSON that Spotify answers with, classifying `spotify:` URIs, parsing the
//! OAuth callback and deciding what each command does next.

pub mod json;
pub mod text;
pub mod uri;
pub mod queue;
pub mod callback;
pub mod playback;
pub mod search;
pub mod session;
pub mod config;
pub mod token;
pub mod auth;
pub mod report;
