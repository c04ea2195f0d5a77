use spotify_dj::json::{JsonNumber, JsonValue};
use spotify_dj::search::{
    clamp_limit, search_kind, search_request, search_results, search_step, AlbumResult,
    ArtistResult, PlaylistResult, SearchAction, SearchEvent, SearchKind, SearchResults,
    TrackResult,
};
use spotify_dj::session::{HttpGet, TokenRead};

fn convert(v: &serde_json::Value) -> JsonValue {
    match v {
        serde_json::Value::Null => JsonValue::Null,
        serde_json::Value::Bool(b) => JsonValue::Bool(*b),
        serde_json::Value::Number(n) => JsonValue::Number(if let Some(u) = n.as_u64() {
            JsonNumber::PosInt(u)
        } else if let Some(i) = n.as_i64() {
            JsonNumber::NegInt(i)
        } else {
            JsonNumber::Float
        }),
        serde_json::Value::String(s) => JsonValue::Text(s.clone()),
        serde_json::Value::Array(a) => JsonValue::List(a.iter().map(convert).collect()),
        serde_json::Value::Object(m) => {
            JsonValue::Object(m.iter().map(|(k, v)| (k.clone(), convert(v))).collect())
        }
    }
}

fn json(text: &str) -> JsonValue {
    convert(&serde_json::from_str::<serde_json::Value>(text).unwrap())
}

fn pairs(list: &[(&str, &str)]) -> Vec<(String, String)> {
    list.iter().map(|(a, b)| (a.to_string(), b.to_string())).collect()
}

#[test]
fn types_select_kinds() {
    assert_eq!(search_kind("playlist"), SearchKind::Playlist);
    assert_eq!(search_kind("album"), SearchKind::Album);
    assert_eq!(search_kind("artist"), SearchKind::Artist);
    assert_eq!(search_kind("track"), SearchKind::Track);
    assert_eq!(search_kind("podcast"), SearchKind::Track);
    assert_eq!(search_kind("Album"), SearchKind::Track);
}

#[test]
fn limit_is_at_most_fifty() {
    assert_eq!(clamp_limit(5), 5);
    assert_eq!(clamp_limit(50), 50);
    assert_eq!(clamp_limit(51), 50);
    assert_eq!(clamp_limit(0), 0);
    assert_eq!(clamp_limit(u32::MAX), 50);
}

#[test]
fn request_parameters() {
    let r = search_request("lo-fi focus", "track", 5);
    assert_eq!(r.kind, SearchKind::Track);
    assert_eq!(r.params, pairs(&[("q", "lo-fi focus"), ("type", "track"), ("limit", "5")]));
    let r = search_request("coding vibes", "playlist", 100);
    assert_eq!(r.limit, 50);
    assert_eq!(r.params, pairs(&[("q", "coding vibes"), ("type", "playlist"), ("limit", "50")]));
    let r = search_request("x", "whatever", 10);
    assert_eq!(r.params, pairs(&[("q", "x"), ("type", "track"), ("limit", "10")]));
}

#[test]
fn track_results_skip_nulls() {
    let data = json(
        r#"{"tracks": {"items": [
            {"name": "Chill Lo-Fi Study Beats", "artists": [{"name": "Lo-Fi Collective"}],
             "album": {"name": "Focus Sessions Vol. 1"}, "uri": "spotify:track:abc123",
             "popularity": 72},
            null,
            {"name": "Bare"}
        ]}}"#,
    );
    let expected = SearchResults::Tracks(vec![
        TrackResult {
            name: "Chill Lo-Fi Study Beats".to_string(),
            artist: "Lo-Fi Collective".to_string(),
            album: "Focus Sessions Vol. 1".to_string(),
            uri: "spotify:track:abc123".to_string(),
            popularity: 72,
        },
        TrackResult {
            name: "Bare".to_string(),
            artist: String::new(),
            album: String::new(),
            uri: String::new(),
            popularity: 0,
        },
    ]);
    assert_eq!(search_results(SearchKind::Track, &data), Some(expected));
}

#[test]
fn playlist_owner_falls_back_to_id() {
    let data = json(
        r#"{"playlists": {"items": [
            {"name": "A", "owner": {"display_name": "Ann", "id": "ann1"}, "uri": "u1",
             "tracks": {"total": 12}},
            {"name": "B", "owner": {"id": "bob2"}, "uri": "u2"},
            {"name": "C"}
        ]}}"#,
    );
    let expected = SearchResults::Playlists(vec![
        PlaylistResult {
            name: "A".to_string(),
            owner: "Ann".to_string(),
            uri: "u1".to_string(),
            track_count: 12,
        },
        PlaylistResult {
            name: "B".to_string(),
            owner: "bob2".to_string(),
            uri: "u2".to_string(),
            track_count: 0,
        },
        PlaylistResult { name: "C".to_string(), owner: String::new(), uri: String::new(), track_count: 0 },
    ]);
    assert_eq!(search_results(SearchKind::Playlist, &data), Some(expected));
}

#[test]
fn album_and_artist_results() {
    let data = json(
        r#"{"albums": {"items": [{"name": "Dive", "artists": [{"name": "Tycho"}], "uri": "ua"}]},
            "artists": {"items": [null, {"name": "Bonobo", "uri": "ub", "popularity": 60}]}}"#,
    );
    assert_eq!(
        search_results(SearchKind::Album, &data),
        Some(SearchResults::Albums(vec![AlbumResult {
            name: "Dive".to_string(),
            artist: "Tycho".to_string(),
            uri: "ua".to_string()
        }]))
    );
    assert_eq!(
        search_results(SearchKind::Artist, &data),
        Some(SearchResults::Artists(vec![ArtistResult {
            name: "Bonobo".to_string(),
            uri: "ub".to_string(),
            popularity: 60
        }]))
    );
}

#[test]
fn missing_item_list_is_unexpected() {
    let data = json(r#"{"tracks": {"items": {}}}"#);
    assert_eq!(search_results(SearchKind::Track, &data), None);
    assert_eq!(search_results(SearchKind::Album, &data), None);
}

#[test]
fn search_flow() {
    let request = search_request("Tycho", "album", 5);
    assert_eq!(search_step(&request, &SearchEvent::Begin), SearchAction::ReadToken);
    assert_eq!(
        search_step(&request, &SearchEvent::Token(TokenRead::Present("t".to_string()))),
        SearchAction::Send(HttpGet {
            url: "https://api.spotify.com/v1/search".to_string(),
            authorization: "Bearer t".to_string(),
            params: pairs(&[("q", "Tycho"), ("type", "album"), ("limit", "5")]),
        })
    );
    assert_eq!(
        search_step(&request, &SearchEvent::Token(TokenRead::Missing)),
        SearchAction::Fail("Not authenticated".to_string())
    );
    assert_eq!(
        search_step(&request, &SearchEvent::RequestFailed("dns".to_string())),
        SearchAction::Fail("Search request failed: dns".to_string())
    );
    assert_eq!(
        search_step(
            &request,
            &SearchEvent::Responded { status: 400, status_text: "400 Bad Request".to_string() }
        ),
        SearchAction::ReadErrorBody { status_text: "400 Bad Request".to_string() }
    );
    assert_eq!(
        search_step(
            &request,
            &SearchEvent::ErrorBody {
                status_text: "400 Bad Request".to_string(),
                body: "{\"error\":1}".to_string()
            }
        ),
        SearchAction::Fail("Spotify API error 400 Bad Request: {\"error\":1}".to_string())
    );
    assert_eq!(
        search_step(&request, &SearchEvent::Responded { status: 200, status_text: "200 OK".to_string() }),
        SearchAction::ReadBody
    );
    assert_eq!(
        search_step(&request, &SearchEvent::BodyParsed(json(r#"{"tracks": {"items": []}}"#))),
        SearchAction::Fail("Unexpected response shape for albums".to_string())
    );
    assert_eq!(
        search_step(&request, &SearchEvent::BodyParsed(json(r#"{"albums": {"items": []}}"#))),
        SearchAction::Print(SearchResults::Albums(Vec::new()))
    );
    assert_eq!(
        search_step(&request, &SearchEvent::BodyFailed("bad".to_string())),
        SearchAction::Fail("Failed to parse search response: bad".to_string())
    );
}
