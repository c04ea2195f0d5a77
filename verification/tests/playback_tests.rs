use spotify_dj::json::{JsonNumber, JsonValue};
use spotify_dj::playback::{
    classify_playback_status, now_playing, now_step, DeviceInfo, NowAction, NowEvent, NowPlaying,
    NowReport, PlaybackStatus, TrackInfo,
};
use spotify_dj::session::{HttpGet, TokenRead};

fn convert(v: &serde_json::Value) -> JsonValue {
    match v {
        serde_json::Value::Null => JsonValue::Null,
        serde_json::Value::Bool(b) => JsonValue::Bool(*b),
        serde_json::Value::Number(n) => JsonValue::Number(if let Some(u) = n.as_u64() {
            JsonNumber::PosInt(u)
        } else if let Some(i) = n.as_i64() {
            JsonNumber::NegInt(i)
        } else {
            JsonNumber::Float
        }),
        serde_json::Value::String(s) => JsonValue::Text(s.clone()),
        serde_json::Value::Array(a) => JsonValue::List(a.iter().map(convert).collect()),
        serde_json::Value::Object(m) => {
            JsonValue::Object(m.iter().map(|(k, v)| (k.clone(), convert(v))).collect())
        }
    }
}

fn json(text: &str) -> JsonValue {
    convert(&serde_json::from_str::<serde_json::Value>(text).unwrap())
}

#[test]
fn status_classes() {
    assert_eq!(classify_playback_status(204), PlaybackStatus::NoSession);
    assert_eq!(classify_playback_status(200), PlaybackStatus::Active);
    assert_eq!(classify_playback_status(299), PlaybackStatus::Active);
    assert_eq!(classify_playback_status(199), PlaybackStatus::Failed);
    assert_eq!(classify_playback_status(401), PlaybackStatus::Failed);
}

#[test]
fn session_with_a_track() {
    let data = json(
        r#"{"is_playing": true, "progress_ms": 45231, "shuffle_state": false,
            "repeat_state": "off",
            "device": {"name": "MacBook Pro", "type": "Computer", "volume_percent": 65},
            "item": {"type": "track", "name": "Midnight City",
                     "artists": [{"name": "M83"}, {"name": "Other"}],
                     "album": {"name": "Hurry Up, We're Dreaming"},
                     "uri": "spotify:track:6GyFP1nfCDB8lbD2bG0Hq9", "duration_ms": 243894}}"#,
    );
    let expected = NowPlaying {
        playing: true,
        track: Some(TrackInfo {
            name: "Midnight City".to_string(),
            artist: "M83".to_string(),
            album: "Hurry Up, We're Dreaming".to_string(),
            uri: "spotify:track:6GyFP1nfCDB8lbD2bG0Hq9".to_string(),
            duration_ms: 243894,
            progress_ms: 45231,
        }),
        device: DeviceInfo {
            name: "MacBook Pro".to_string(),
            device_type: "Computer".to_string(),
            volume: 65,
        },
        shuffle: false,
        repeat: "off".to_string(),
    };
    assert_eq!(now_playing(&data), expected);
}

#[test]
fn session_with_an_ad_has_no_track() {
    let data = json(r#"{"is_playing": true, "item": {"type": "ad"}, "repeat_state": "track",
                        "shuffle_state": true}"#);
    let r = now_playing(&data);
    assert_eq!(r.track, None);
    assert!(r.shuffle);
    assert_eq!(r.repeat, "track");
    assert_eq!(r.device, DeviceInfo { name: String::new(), device_type: String::new(), volume: 0 });
}

#[test]
fn empty_session_uses_defaults() {
    let r = now_playing(&json(r#"{"item": null}"#));
    assert!(!r.playing);
    assert_eq!(r.track, None);
    assert!(!r.shuffle);
    assert_eq!(r.repeat, "off");
}

#[test]
fn track_with_missing_fields() {
    let r = now_playing(&json(r#"{"item": {"type": "track", "duration_ms": -5}, "progress_ms": 1.5}"#));
    let t = r.track.unwrap();
    assert_eq!(t.name, "");
    assert_eq!(t.artist, "");
    assert_eq!(t.duration_ms, 0);
    assert_eq!(t.progress_ms, 0);
}

#[test]
fn now_flow() {
    assert_eq!(now_step(&NowEvent::Begin), NowAction::ReadToken);
    assert_eq!(
        now_step(&NowEvent::Token(TokenRead::Present("tok".to_string()))),
        NowAction::Send(HttpGet {
            url: "https://api.spotify.com/v1/me/player".to_string(),
            authorization: "Bearer tok".to_string(),
            params: Vec::new(),
        })
    );
    assert_eq!(
        now_step(&NowEvent::Token(TokenRead::Missing)),
        NowAction::Fail("Not authenticated".to_string())
    );
    assert_eq!(
        now_step(&NowEvent::Token(TokenRead::LockFailed)),
        NowAction::Fail("Failed to acquire token lock".to_string())
    );
    assert_eq!(
        now_step(&NowEvent::RequestFailed("timeout".to_string())),
        NowAction::Fail("Failed to get playback state: timeout".to_string())
    );
    assert_eq!(
        now_step(&NowEvent::Responded { status: 204, status_text: "204 No Content".to_string() }),
        NowAction::Print(NowReport::Idle)
    );
    assert_eq!(
        now_step(&NowEvent::Responded { status: 401, status_text: "401 Unauthorized".to_string() }),
        NowAction::Fail("Spotify API error: 401 Unauthorized".to_string())
    );
    assert_eq!(
        now_step(&NowEvent::Responded { status: 200, status_text: "200 OK".to_string() }),
        NowAction::ReadBody
    );
    assert_eq!(
        now_step(&NowEvent::BodyFailed("eof".to_string())),
        NowAction::Fail("Failed to parse playback state: eof".to_string())
    );
    match now_step(&NowEvent::BodyParsed(json(r#"{"is_playing": true}"#))) {
        NowAction::Print(NowReport::Active(n)) => assert!(n.playing),
        other => panic!("unexpected {:?}", other),
    }
}
