//! The JSON documents that the commands print.

use vstd::prelude::*;
use crate::auth::AuthStatusReport;
use crate::json::{JsonNumber, JsonValue};
use crate::playback::{DeviceInfo, DeviceInfoView, NowPlaying, NowReport, NowReportView, TrackInfo, TrackInfoView};
use crate::search::{
    AlbumResult, AlbumResultView, ArtistResult, ArtistResultView, PlaylistResult,
    PlaylistResultView, SearchResults, SearchResultsView, TrackResult, TrackResultView,
};

verus! {

/// The members of an object, in order, as key text and value; none for
/// anything else.
pub open spec fn members(v: JsonValue) -> Seq<(Seq<char>, JsonValue)> {
    match v {
        JsonValue::Object(entries) => entries@.map_values(|p: (String, JsonValue)| (p.0@, p.1)),
        _ => Seq::empty(),
    }
}

/// The keys of an object, in order.
pub open spec fn keys(v: JsonValue) -> Seq<Seq<char>> {
    members(v).map_values(|m: (Seq<char>, JsonValue)| m.0)
}

/// The value of the `i`-th member of an object.
pub open spec fn value_at(v: JsonValue, i: int) -> JsonValue {
    members(v)[i].1
}

/// The JSON number `n`.
pub open spec fn number(n: u64) -> JsonValue {
    JsonValue::Number(JsonNumber::PosInt(n))
}

fn text_value(s: &String) -> (r: JsonValue)
    ensures
        r.text() == Some(s@),
{
    JsonValue::Text(s.clone())
}

fn key(k: &str, v: JsonValue) -> (r: (String, JsonValue))
    ensures
        r.0@ == k@,
        r.1 == v,
{
    (String::from_str(k), v)
}

/// The document of the track that is playing: `name`, `artist`, `album`,
/// `uri`, `duration_ms`, `progress_ms`.
pub open spec fn track_info_doc(d: JsonValue, t: TrackInfoView) -> bool {
    &&& keys(d) == seq!["name"@, "artist"@, "album"@, "uri"@, "duration_ms"@, "progress_ms"@]
    &&& value_at(d, 0).text() == Some(t.name)
    &&& value_at(d, 1).text() == Some(t.artist)
    &&& value_at(d, 2).text() == Some(t.album)
    &&& value_at(d, 3).text() == Some(t.uri)
    &&& value_at(d, 4) == number(t.duration_ms)
    &&& value_at(d, 5) == number(t.progress_ms)
}

/// The document of the device: `name`, `type`, `volume`.
pub open spec fn device_doc(d: JsonValue, v: DeviceInfoView) -> bool {
    &&& keys(d) == seq!["name"@, "type"@, "volume"@]
    &&& value_at(d, 0).text() == Some(v.name)
    &&& value_at(d, 1).text() == Some(v.device_type)
    &&& value_at(d, 2) == number(v.volume)
}

/// What `now` prints: `{"playing": false}` without a session; else
/// `playing`, `track` (`null` without a track), `device`, `shuffle`, `repeat`.
pub open spec fn now_doc(d: JsonValue, r: NowReportView) -> bool {
    match r {
        NowReportView::Idle => {
            &&& keys(d) == seq!["playing"@]
            &&& value_at(d, 0) == JsonValue::Bool(false)
        },
        NowReportView::Active(n) => {
            &&& keys(d) == seq!["playing"@, "track"@, "device"@, "shuffle"@, "repeat"@]
            &&& value_at(d, 0) == JsonValue::Bool(n.playing)
            &&& match n.track {
                None => value_at(d, 1) is Null,
                Some(t) => track_info_doc(value_at(d, 1), t),
            }
            &&& device_doc(value_at(d, 2), n.device)
            &&& value_at(d, 3) == JsonValue::Bool(n.shuffle)
            &&& value_at(d, 4).text() == Some(n.repeat)
        },
    }
}

fn track_info_document(t: &TrackInfo) -> (d: JsonValue)
    ensures
        track_info_doc(d, t@),
{
    let mut e: Vec<(String, JsonValue)> = Vec::new();
    e.push(key("name", text_value(&t.name)));
    e.push(key("artist", text_value(&t.artist)));
    e.push(key("album", text_value(&t.album)));
    e.push(key("uri", text_value(&t.uri)));
    e.push(key("duration_ms", JsonValue::Number(JsonNumber::PosInt(t.duration_ms))));
    e.push(key("progress_ms", JsonValue::Number(JsonNumber::PosInt(t.progress_ms))));
    let d = JsonValue::Object(e);
    assert(keys(d) =~= seq!["name"@, "artist"@, "album"@, "uri"@, "duration_ms"@, "progress_ms"@]);
    d
}

fn device_document(v: &DeviceInfo) -> (d: JsonValue)
    ensures
        device_doc(d, v@),
{
    let mut e: Vec<(String, JsonValue)> = Vec::new();
    e.push(key("name", text_value(&v.name)));
    e.push(key("type", text_value(&v.device_type)));
    e.push(key("volume", JsonValue::Number(JsonNumber::PosInt(v.volume))));
    let d = JsonValue::Object(e);
    assert(keys(d) =~= seq!["name"@, "type"@, "volume"@]);
    d
}

/// The document that `now` prints.
pub fn now_document(r: &NowReport) -> (d: JsonValue)
    ensures
        now_doc(d, r@),
{
    match r {
        NowReport::Idle => {
            let mut e: Vec<(String, JsonValue)> = Vec::new();
            e.push(key("playing", JsonValue::Bool(false)));
            let d = JsonValue::Object(e);
            assert(keys(d) =~= seq!["playing"@]);
            d
        },
        NowReport::Active(n) => {
            let track = match &n.track {
                None => JsonValue::Null,
                Some(t) => track_info_document(t),
            };
            let mut e: Vec<(String, JsonValue)> = Vec::new();
            e.push(key("playing", JsonValue::Bool(n.playing)));
            e.push(key("track", track));
            e.push(key("device", device_document(&n.device)));
            e.push(key("shuffle", JsonValue::Bool(n.shuffle)));
            e.push(key("repeat", text_value(&n.repeat)));
            let d = JsonValue::Object(e);
            assert(keys(d) =~= seq!["playing"@, "track"@, "device"@, "shuffle"@, "repeat"@]);
            d
        },
    }
}

/// The document of a track found: `name`, `artist`, `album`, `uri`,
/// `popularity`.
pub open spec fn track_result_doc(d: JsonValue, t: TrackResultView) -> bool {
    &&& keys(d) == seq!["name"@, "artist"@, "album"@, "uri"@, "popularity"@]
    &&& value_at(d, 0).text() == Some(t.name)
    &&& value_at(d, 1).text() == Some(t.artist)
    &&& value_at(d, 2).text() == Some(t.album)
    &&& value_at(d, 3).text() == Some(t.uri)
    &&& value_at(d, 4) == number(t.popularity)
}

/// The document of a playlist found: `name`, `owner`, `uri`, `track_count`.
pub open spec fn playlist_result_doc(d: JsonValue, p: PlaylistResultView) -> bool {
    &&& keys(d) == seq!["name"@, "owner"@, "uri"@, "track_count"@]
    &&& value_at(d, 0).text() == Some(p.name)
    &&& value_at(d, 1).text() == Some(p.owner)
    &&& value_at(d, 2).text() == Some(p.uri)
    &&& value_at(d, 3) == number(p.track_count)
}

/// The document of an album found: `name`, `artist`, `uri`.
pub open spec fn album_result_doc(d: JsonValue, a: AlbumResultView) -> bool {
    &&& keys(d) == seq!["name"@, "artist"@, "uri"@]
    &&& value_at(d, 0).text() == Some(a.name)
    &&& value_at(d, 1).text() == Some(a.artist)
    &&& value_at(d, 2).text() == Some(a.uri)
}

/// The document of an artist found: `name`, `uri`, `popularity`.
pub open spec fn artist_result_doc(d: JsonValue, a: ArtistResultView) -> bool {
    &&& keys(d) == seq!["name"@, "uri"@, "popularity"@]
    &&& value_at(d, 0).text() == Some(a.name)
    &&& value_at(d, 1).text() == Some(a.uri)
    &&& value_at(d, 2) == number(a.popularity)
}

/// What `search` prints: one member, named after the kind, whose value lists
/// the results in order.
pub open spec fn search_doc(d: JsonValue, r: SearchResultsView) -> bool {
    let list = value_at(d, 0);
    match r {
        SearchResultsView::Tracks(ts) => {
            &&& keys(d) == seq!["tracks"@]
            &&& list.items() matches Some(items) && items.len() == ts.len() && forall|i: int|
                0 <= i < ts.len() ==> track_result_doc(#[trigger] items[i], ts[i])
        },
        SearchResultsView::Playlists(ps) => {
            &&& keys(d) == seq!["playlists"@]
            &&& list.items() matches Some(items) && items.len() == ps.len() && forall|i: int|
                0 <= i < ps.len() ==> playlist_result_doc(#[trigger] items[i], ps[i])
        },
        SearchResultsView::Albums(als) => {
            &&& keys(d) == seq!["albums"@]
            &&& list.items() matches Some(items) && items.len() == als.len() && forall|i: int|
                0 <= i < als.len() ==> album_result_doc(#[trigger] items[i], als[i])
        },
        SearchResultsView::Artists(ars) => {
            &&& keys(d) == seq!["artists"@]
            &&& list.items() matches Some(items) && items.len() == ars.len() && forall|i: int|
                0 <= i < ars.len() ==> artist_result_doc(#[trigger] items[i], ars[i])
        },
    }
}

fn track_result_document(t: &TrackResult) -> (d: JsonValue)
    ensures
        track_result_doc(d, t@),
{
    let mut e: Vec<(String, JsonValue)> = Vec::new();
    e.push(key("name", text_value(&t.name)));
    e.push(key("artist", text_value(&t.artist)));
    e.push(key("album", text_value(&t.album)));
    e.push(key("uri", text_value(&t.uri)));
    e.push(key("popularity", JsonValue::Number(JsonNumber::PosInt(t.popularity))));
    let d = JsonValue::Object(e);
    assert(keys(d) =~= seq!["name"@, "artist"@, "album"@, "uri"@, "popularity"@]);
    d
}

fn playlist_result_document(p: &PlaylistResult) -> (d: JsonValue)
    ensures
        playlist_result_doc(d, p@),
{
    let mut e: Vec<(String, JsonValue)> = Vec::new();
    e.push(key("name", text_value(&p.name)));
    e.push(key("owner", text_value(&p.owner)));
    e.push(key("uri", text_value(&p.uri)));
    e.push(key("track_count", JsonValue::Number(JsonNumber::PosInt(p.track_count))));
    let d = JsonValue::Object(e);
    assert(keys(d) =~= seq!["name"@, "owner"@, "uri"@, "track_count"@]);
    d
}

fn album_result_document(a: &AlbumResult) -> (d: JsonValue)
    ensures
        album_result_doc(d, a@),
{
    let mut e: Vec<(String, JsonValue)> = Vec::new();
    e.push(key("name", text_value(&a.name)));
    e.push(key("artist", text_value(&a.artist)));
    e.push(key("uri", text_value(&a.uri)));
    let d = JsonValue::Object(e);
    assert(keys(d) =~= seq!["name"@, "artist"@, "uri"@]);
    d
}

fn artist_result_document(a: &ArtistResult) -> (d: JsonValue)
    ensures
        artist_result_doc(d, a@),
{
    let mut e: Vec<(String, JsonValue)> = Vec::new();
    e.push(key("name", text_value(&a.name)));
    e.push(key("uri", text_value(&a.uri)));
    e.push(key("popularity", JsonValue::Number(JsonNumber::PosInt(a.popularity))));
    let d = JsonValue::Object(e);
    assert(keys(d) =~= seq!["name"@, "uri"@, "popularity"@]);
    d
}

fn single(k: &str, v: JsonValue) -> (d: JsonValue)
    ensures
        keys(d) == seq![k@],
        value_at(d, 0) == v,
{
    let mut e: Vec<(String, JsonValue)> = Vec::new();
    e.push(key(k, v));
    let d = JsonValue::Object(e);
    assert(keys(d) =~= seq![k@]);
    d
}

/// The document that `search` prints.
pub fn search_document(r: &SearchResults) -> (d: JsonValue)
    ensures
        search_doc(d, r@),
{
    match r {
        SearchResults::Tracks(ts) => {
            let mut items: Vec<JsonValue> = Vec::new();
            for i in 0..ts.len()
                invariant
                    items@.len() == i,
                    forall|j: int| 0 <= j < i ==> track_result_doc(#[trigger] items@[j], ts@[j]@),
            {
                items.push(track_result_document(&ts[i]));
            }
            single("tracks", JsonValue::List(items))
        },
        SearchResults::Playlists(ps) => {
            let mut items: Vec<JsonValue> = Vec::new();
            for i in 0..ps.len()
                invariant
                    items@.len() == i,
                    forall|j: int| 0 <= j < i ==> playlist_result_doc(#[trigger] items@[j], ps@[j]@),
            {
                items.push(playlist_result_document(&ps[i]));
            }
            single("playlists", JsonValue::List(items))
        },
        SearchResults::Albums(als) => {
            let mut items: Vec<JsonValue> = Vec::new();
            for i in 0..als.len()
                invariant
                    items@.len() == i,
                    forall|j: int| 0 <= j < i ==> album_result_doc(#[trigger] items@[j], als@[j]@),
            {
                items.push(album_result_document(&als[i]));
            }
            single("albums", JsonValue::List(items))
        },
        SearchResults::Artists(ars) => {
            let mut items: Vec<JsonValue> = Vec::new();
            for i in 0..ars.len()
                invariant
                    items@.len() == i,
                    forall|j: int| 0 <= j < i ==> artist_result_doc(#[trigger] items@[j], ars@[j]@),
            {
                items.push(artist_result_document(&ars[i]));
            }
            single("artists", JsonValue::List(items))
        },
    }
}

/// The document that `auth-status` prints: `{"authenticated": false}`, or
/// `{"authenticated": true, "expires_at": ...}`.
pub fn auth_status_document(r: &AuthStatusReport) -> (d: JsonValue)
    ensures
        match r {
            AuthStatusReport::NotAuthenticated => keys(d) == seq!["authenticated"@] && value_at(d, 0)
                == JsonValue::Bool(false),
            AuthStatusReport::Authenticated { expires_at } => {
                &&& keys(d) == seq!["authenticated"@, "expires_at"@]
                &&& value_at(d, 0) == JsonValue::Bool(true)
                &&& value_at(d, 1).text() == Some(expires_at@)
            },
        },
{
    match r {
        AuthStatusReport::NotAuthenticated => single("authenticated", JsonValue::Bool(false)),
        AuthStatusReport::Authenticated { expires_at } => {
            let mut e: Vec<(String, JsonValue)> = Vec::new();
            e.push(key("authenticated", JsonValue::Bool(true)));
            e.push(key("expires_at", text_value(expires_at)));
            let d = JsonValue::Object(e);
            assert(keys(d) =~= seq!["authenticated"@, "expires_at"@]);
            d
        },
    }
}

/// `{"ok": true}`, printed by `play`, `pause` and `skip`.
pub fn ok_document() -> (d: JsonValue)
    ensures
        keys(d) == seq!["ok"@],
        value_at(d, 0) == JsonValue::Bool(true),
{
    single("ok", JsonValue::Bool(true))
}

/// `{"ok": true, "queued": queued}`, printed by `queue-add`.
pub fn queued_document(queued: usize) -> (d: JsonValue)
    ensures
        keys(d) == seq!["ok"@, "queued"@],
        value_at(d, 0) == JsonValue::Bool(true),
        value_at(d, 1) == number(queued as u64),
{
    let mut e: Vec<(String, JsonValue)> = Vec::new();
    e.push(key("ok", JsonValue::Bool(true)));
    e.push(key("queued", JsonValue::Number(JsonNumber::PosInt(queued as u64))));
    let d = JsonValue::Object(e);
    assert(keys(d) =~= seq!["ok"@, "queued"@]);
    d
}

/// `{"authenticated": true}`, printed after a login.
pub fn authenticated_document() -> (d: JsonValue)
    ensures
        keys(d) == seq!["authenticated"@],
        value_at(d, 0) == JsonValue::Bool(true),
{
    single("authenticated", JsonValue::Bool(true))
}

/// `{"error": message}`, printed for every failure.
pub fn error_document(message: &str) -> (d: JsonValue)
    ensures
        keys(d) == seq!["error"@],
        value_at(d, 0).text() == Some(message@),
{
    single("error", JsonValue::Text(String::from_str(message)))
}

} // verus!
