use spotify_dj::auth::AuthStatusReport;
use spotify_dj::json::{JsonNumber, JsonValue};
use spotify_dj::playback::{DeviceInfo, NowPlaying, NowReport, TrackInfo};
use spotify_dj::report::{
    auth_status_document, authenticated_document, error_document, now_document, ok_document,
    queued_document, search_document,
};
use spotify_dj::search::{AlbumResult, SearchResults};

fn text(s: &str) -> JsonValue {
    JsonValue::Text(s.to_string())
}

fn num(n: u64) -> JsonValue {
    JsonValue::Number(JsonNumber::PosInt(n))
}

fn object(members: Vec<(&str, JsonValue)>) -> JsonValue {
    JsonValue::Object(members.into_iter().map(|(k, v)| (k.to_string(), v)).collect())
}

#[test]
fn idle_now_document() {
    assert_eq!(now_document(&NowReport::Idle), object(vec![("playing", JsonValue::Bool(false))]));
}

#[test]
fn active_now_document() {
    let report = NowReport::Active(NowPlaying {
        playing: true,
        track: Some(TrackInfo {
            name: "Song".to_string(),
            artist: "A, B".to_string(),
            album: "Record".to_string(),
            uri: "spotify:track:1".to_string(),
            duration_ms: 200000,
            progress_ms: 1500,
        }),
        device: DeviceInfo { name: "Desk".to_string(), device_type: "Computer".to_string(), volume: 70 },
        shuffle: false,
        repeat: "off".to_string(),
    });
    let expected = object(vec![
        ("playing", JsonValue::Bool(true)),
        (
            "track",
            object(vec![
                ("name", text("Song")),
                ("artist", text("A, B")),
                ("album", text("Record")),
                ("uri", text("spotify:track:1")),
                ("duration_ms", num(200000)),
                ("progress_ms", num(1500)),
            ]),
        ),
        ("device", object(vec![("name", text("Desk")), ("type", text("Computer")), ("volume", num(70))])),
        ("shuffle", JsonValue::Bool(false)),
        ("repeat", text("off")),
    ]);
    assert_eq!(now_document(&report), expected);
}

#[test]
fn now_document_without_a_track() {
    let report = NowReport::Active(NowPlaying {
        playing: false,
        track: None,
        device: DeviceInfo { name: "Unknown".to_string(), device_type: "Unknown".to_string(), volume: 0 },
        shuffle: true,
        repeat: "track".to_string(),
    });
    assert_eq!(now_document(&report).get("track"), &JsonValue::Null);
}

#[test]
fn album_search_document() {
    let results = SearchResults::Albums(vec![AlbumResult {
        name: "Kind of Blue".to_string(),
        artist: "Miles Davis".to_string(),
        uri: "spotify:album:1".to_string(),
    }]);
    let expected = object(vec![(
        "albums",
        JsonValue::List(vec![object(vec![
            ("name", text("Kind of Blue")),
            ("artist", text("Miles Davis")),
            ("uri", text("spotify:album:1")),
        ])]),
    )]);
    assert_eq!(search_document(&results), expected);
    assert_eq!(search_document(&SearchResults::Albums(Vec::new())), object(vec![("albums", JsonValue::List(Vec::new()))]));
}

#[test]
fn auth_status_documents() {
    assert_eq!(
        auth_status_document(&AuthStatusReport::NotAuthenticated),
        object(vec![("authenticated", JsonValue::Bool(false))])
    );
    assert_eq!(
        auth_status_document(&AuthStatusReport::Authenticated { expires_at: "unknown".to_string() }),
        object(vec![("authenticated", JsonValue::Bool(true)), ("expires_at", text("unknown"))])
    );
}

#[test]
fn small_documents() {
    assert_eq!(ok_document(), object(vec![("ok", JsonValue::Bool(true))]));
    assert_eq!(queued_document(3), object(vec![("ok", JsonValue::Bool(true)), ("queued", num(3))]));
    assert_eq!(authenticated_document(), object(vec![("authenticated", JsonValue::Bool(true))]));
    assert_eq!(error_document("Not authenticated."), object(vec![("error", text("Not authenticated."))]));
}
