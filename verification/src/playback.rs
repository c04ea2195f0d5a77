//! `now`: what the player is doing, read out of Spotify's answer to
//! `GET /v1/me/player`.

use vstd::prelude::*;
use crate::json::{JsonValue, text_or_default};
use crate::text::str_eq;
use crate::session::{HttpGet, HttpGetView, TokenRead, TokenReadView, bearer, bearer_of, joined, token_failure, token_failure_message};

verus! {

/// How `now` treats the HTTP status of Spotify's answer.
#[derive(Clone, Copy, Debug, PartialEq, Eq)]
pub enum PlaybackStatus {
    /// `204 No Content`: no playback session at all.
    NoSession,
    /// Any other `2xx`: the body describes the session.
    Active,
    /// Anything else: an error.
    Failed,
}

/// Whether an HTTP status is a success (`2xx`).
pub open spec fn is_success(code: u16) -> bool {
    200 <= code <= 299
}

pub open spec fn playback_status(code: u16) -> PlaybackStatus {
    if code == 204 {
        PlaybackStatus::NoSession
    } else if is_success(code) {
        PlaybackStatus::Active
    } else {
        PlaybackStatus::Failed
    }
}

/// Classifies the HTTP status of Spotify's answer to `now`.
pub fn classify_playback_status(code: u16) -> (r: PlaybackStatus)
    ensures
        r == playback_status(code),
{
    if code == 204 {
        PlaybackStatus::NoSession
    } else if 200 <= code && code <= 299 {
        PlaybackStatus::Active
    } else {
        PlaybackStatus::Failed
    }
}

/// Whether an HTTP status is a success (`2xx`).
pub fn status_is_success(code: u16) -> (r: bool)
    ensures
        r == is_success(code),
{
    200 <= code && code <= 299
}

/// The track that is playing.
#[derive(Clone, Debug, PartialEq)]
pub struct TrackInfo {
    pub name: String,
    pub artist: String,
    pub album: String,
    pub uri: String,
    pub duration_ms: u64,
    pub progress_ms: u64,
}

pub struct TrackInfoView {
    pub name: Seq<char>,
    pub artist: Seq<char>,
    pub album: Seq<char>,
    pub uri: Seq<char>,
    pub duration_ms: u64,
    pub progress_ms: u64,
}

impl View for TrackInfo {
    type V = TrackInfoView;

    open spec fn view(&self) -> TrackInfoView {
        TrackInfoView {
            name: self.name@,
            artist: self.artist@,
            album: self.album@,
            uri: self.uri@,
            duration_ms: self.duration_ms,
            progress_ms: self.progress_ms,
        }
    }
}

/// The device that plays.
#[derive(Clone, Debug, PartialEq)]
pub struct DeviceInfo {
    pub name: String,
    pub device_type: String,
    pub volume: u64,
}

pub struct DeviceInfoView {
    pub name: Seq<char>,
    pub device_type: Seq<char>,
    pub volume: u64,
}

impl View for DeviceInfo {
    type V = DeviceInfoView;

    open spec fn view(&self) -> DeviceInfoView {
        DeviceInfoView { name: self.name@, device_type: self.device_type@, volume: self.volume }
    }
}

/// What `now` reports of an active session.
#[derive(Clone, Debug, PartialEq)]
pub struct NowPlaying {
    pub playing: bool,
    pub track: Option<TrackInfo>,
    pub device: DeviceInfo,
    pub shuffle: bool,
    pub repeat: String,
}

pub struct NowPlayingView {
    pub playing: bool,
    pub track: Option<TrackInfoView>,
    pub device: DeviceInfoView,
    pub shuffle: bool,
    pub repeat: Seq<char>,
}

impl View for NowPlaying {
    type V = NowPlayingView;

    open spec fn view(&self) -> NowPlayingView {
        NowPlayingView {
            playing: self.playing,
            track: match self.track {
                Some(t) => Some(t@),
                None => None,
            },
            device: self.device@,
            shuffle: self.shuffle,
            repeat: self.repeat@,
        }
    }
}

pub open spec fn unsigned_or_default(n: Option<u64>, default: u64) -> u64 {
    match n {
        Some(v) => v,
        None => default,
    }
}

pub open spec fn flag_or_default(b: Option<bool>, default: bool) -> bool {
    match b {
        Some(v) => v,
        None => default,
    }
}

/// The track of the session `data`: its `item`, where that is an object whose
/// `type` is `track`; missing texts read as empty, missing numbers as 0.
pub open spec fn track_info_of(data: JsonValue) -> Option<TrackInfoView> {
    let item = data.field("item"@);
    if item is Object && item.field("type"@).text() == Some("track"@) {
        Some(
            TrackInfoView {
                name: text_or_default(item.field("name"@).text(), ""@),
                artist: text_or_default(
                    item.field("artists"@).element(0).field("name"@).text(),
                    ""@,
                ),
                album: text_or_default(item.field("album"@).field("name"@).text(), ""@),
                uri: text_or_default(item.field("uri"@).text(), ""@),
                duration_ms: unsigned_or_default(item.field("duration_ms"@).unsigned(), 0),
                progress_ms: unsigned_or_default(data.field("progress_ms"@).unsigned(), 0),
            },
        )
    } else {
        None
    }
}

/// The device of the session `data`.
pub open spec fn device_info_of(data: JsonValue) -> DeviceInfoView {
    let device = data.field("device"@);
    DeviceInfoView {
        name: text_or_default(device.field("name"@).text(), ""@),
        device_type: text_or_default(device.field("type"@).text(), ""@),
        volume: unsigned_or_default(device.field("volume_percent"@).unsigned(), 0),
    }
}

/// What `now` reports of the session `data`.
pub open spec fn now_playing_of(data: JsonValue) -> NowPlayingView {
    NowPlayingView {
        playing: flag_or_default(data.field("is_playing"@).flag(), false),
        track: track_info_of(data),
        device: device_info_of(data),
        shuffle: flag_or_default(data.field("shuffle_state"@).flag(), false),
        repeat: text_or_default(data.field("repeat_state"@).text(), "off"@),
    }
}

fn track_info(data: &JsonValue) -> (r: Option<TrackInfo>)
    ensures
        match r {
            Some(t) => track_info_of(*data) == Some(t@),
            None => track_info_of(*data) is None,
        },
{
    let item = data.get("item");
    let is_track = item.is_object() && match item.get("type").as_str() {
        Some(t) => str_eq(t, "track"),
        None => false,
    };
    if !is_track {
        return None;
    }
    Some(
        TrackInfo {
            name: item.get("name").text_or(""),
            artist: item.get("artists").at(0).get("name").text_or(""),
            album: item.get("album").get("name").text_or(""),
            uri: item.get("uri").text_or(""),
            duration_ms: item.get("duration_ms").unsigned_or(0),
            progress_ms: data.get("progress_ms").unsigned_or(0),
        },
    )
}

/// Reads what `now` reports out of the session `data` that Spotify sent.
pub fn now_playing(data: &JsonValue) -> (r: NowPlaying)
    ensures
        r@ == now_playing_of(*data),
{
    let device = data.get("device");
    NowPlaying {
        playing: data.get("is_playing").flag_or(false),
        track: track_info(data),
        device: DeviceInfo {
            name: device.get("name").text_or(""),
            device_type: device.get("type").text_or(""),
            volume: device.get("volume_percent").unsigned_or(0),
        },
        shuffle: data.get("shuffle_state").flag_or(false),
        repeat: data.get("repeat_state").text_or("off"),
    }
}

/// What `now` prints.
#[derive(Clone, Debug, PartialEq)]
pub enum NowReport {
    /// `{"playing": false}`: no session.
    Idle,
    /// The session.
    Active(NowPlaying),
}

pub enum NowReportView {
    Idle,
    Active(NowPlayingView),
}

impl View for NowReport {
    type V = NowReportView;

    open spec fn view(&self) -> NowReportView {
        match self {
            NowReport::Idle => NowReportView::Idle,
            NowReport::Active(n) => NowReportView::Active(n@),
        }
    }
}

/// What happened since `now` last decided.
#[derive(Debug, PartialEq)]
pub enum NowEvent {
    /// The command starts.
    Begin,
    /// The access token was read.
    Token(TokenRead),
    /// The request could not be sent; the text says why.
    RequestFailed(String),
    /// Spotify answered with this status; `status_text` is how it prints.
    Responded { status: u16, status_text: String },
    /// The answer's body is this JSON.
    BodyParsed(JsonValue),
    /// The answer's body is no JSON; the text says why.
    BodyFailed(String),
}

pub enum NowEventView {
    Begin,
    Token(TokenReadView),
    RequestFailed(Seq<char>),
    Responded { status: u16, status_text: Seq<char> },
    BodyParsed(JsonValue),
    BodyFailed(Seq<char>),
}

impl View for NowEvent {
    type V = NowEventView;

    open spec fn view(&self) -> NowEventView {
        match self {
            NowEvent::Begin => NowEventView::Begin,
            NowEvent::Token(t) => NowEventView::Token(t@),
            NowEvent::RequestFailed(d) => NowEventView::RequestFailed(d@),
            NowEvent::Responded { status, status_text } => NowEventView::Responded {
                status: *status,
                status_text: status_text@,
            },
            NowEvent::BodyParsed(data) => NowEventView::BodyParsed(*data),
            NowEvent::BodyFailed(d) => NowEventView::BodyFailed(d@),
        }
    }
}

/// What `now` does next.
#[derive(Clone, Debug, PartialEq)]
pub enum NowAction {
    /// Read the client's access token.
    ReadToken,
    /// Send this request.
    Send(HttpGet),
    /// Read the answer's body as JSON.
    ReadBody,
    /// Print this and succeed.
    Print(NowReport),
    /// Fail with this message.
    Fail(String),
}

pub enum NowActionView {
    ReadToken,
    Send(HttpGetView),
    ReadBody,
    Print(NowReportView),
    Fail(Seq<char>),
}

impl View for NowAction {
    type V = NowActionView;

    open spec fn view(&self) -> NowActionView {
        match self {
            NowAction::ReadToken => NowActionView::ReadToken,
            NowAction::Send(g) => NowActionView::Send(g@),
            NowAction::ReadBody => NowActionView::ReadBody,
            NowAction::Print(r) => NowActionView::Print(r@),
            NowAction::Fail(m) => NowActionView::Fail(m@),
        }
    }
}

/// The endpoint that describes the playback session.
pub open spec fn player_url() -> Seq<char> {
    "https://api.spotify.com/v1/me/player"@
}

/// What `now` does after each event: it reads the token, asks Spotify for the
/// session with it, prints `{"playing": false}` on `204`, fails on any other
/// status but `2xx`, and otherwise reports the session that the body
/// describes.
pub open spec fn now_transition(event: NowEventView) -> NowActionView {
    match event {
        NowEventView::Begin => NowActionView::ReadToken,
        NowEventView::Token(t) => match token_failure(t) {
            Some(m) => NowActionView::Fail(m),
            None => NowActionView::Send(
                HttpGetView {
                    url: player_url(),
                    authorization: bearer_of(t->Present_0),
                    params: Seq::empty(),
                },
            ),
        },
        NowEventView::RequestFailed(d) => NowActionView::Fail("Failed to get playback state: "@ + d),
        NowEventView::Responded { status, status_text } => match playback_status(status) {
            PlaybackStatus::NoSession => NowActionView::Print(NowReportView::Idle),
            PlaybackStatus::Failed => NowActionView::Fail("Spotify API error: "@ + status_text),
            PlaybackStatus::Active => NowActionView::ReadBody,
        },
        NowEventView::BodyParsed(data) => NowActionView::Print(
            NowReportView::Active(now_playing_of(data)),
        ),
        NowEventView::BodyFailed(d) => NowActionView::Fail("Failed to parse playback state: "@ + d),
    }
}

/// Decides what `now` does after `event`.
pub fn now_step(event: &NowEvent) -> (r: NowAction)
    ensures
        r@ == now_transition(event@),
{
    match event {
        NowEvent::Begin => NowAction::ReadToken,
        NowEvent::Token(t) => match t {
            TokenRead::Present(token) => {
                let g = HttpGet {
                    url: String::from_str("https://api.spotify.com/v1/me/player"),
                    authorization: bearer(token.as_str()),
                    params: Vec::new(),
                };
                assert(g@.params =~= Seq::<(Seq<char>, Seq<char>)>::empty());
                NowAction::Send(g)
            },
            _ => match token_failure_message(t) {
                Some(m) => NowAction::Fail(m),
                None => NowAction::ReadToken,
            },
        },
        NowEvent::RequestFailed(d) => NowAction::Fail(
            joined("Failed to get playback state: ", d.as_str()),
        ),
        NowEvent::Responded { status, status_text } => match classify_playback_status(*status) {
            PlaybackStatus::NoSession => NowAction::Print(NowReport::Idle),
            PlaybackStatus::Failed => NowAction::Fail(
                joined("Spotify API error: ", status_text.as_str()),
            ),
            PlaybackStatus::Active => NowAction::ReadBody,
        },
        NowEvent::BodyParsed(data) => NowAction::Print(NowReport::Active(now_playing(data))),
        NowEvent::BodyFailed(d) => NowAction::Fail(
            joined("Failed to parse playback state: ", d.as_str()),
        ),
    }
}

/// `now` prints `{"playing": false}` exactly when Spotify answers `204 No
/// Content`, that is when nothing is active.
pub proof fn idle_exactly_without_session(event: NowEventView)
    ensures
        now_transition(event) == NowActionView::Print(NowReportView::Idle) <==> (event matches NowEventView::Responded { status, .. } && status == 204),
{
}

/// Where the session's item is a track, `now` reports the answer's
/// `progress_ms` as the track's progress, whether the player is playing or
/// paused, and credits the track to the first artist the item lists.
pub proof fn now_reports_the_answers_progress(
    data: JsonValue,
    progress: u64,
    first: JsonValue,
    others: Seq<JsonValue>,
    name: Seq<char>,
)
    requires
        data.field("item"@) is Object,
        data.field("item"@).field("type"@).text() == Some("track"@),
        data.field("progress_ms"@).unsigned() == Some(progress),
    ensures
        now_playing_of(data).track matches Some(t) && t.progress_ms == progress,
        now_playing_of(data).playing == (data.field("is_playing"@).flag() == Some(true)),
        (data.field("item"@).field("artists"@).items() == Some(seq![first] + others)
            && first.field("name"@).text() == Some(name)) ==> (now_playing_of(data).track matches Some(
            t,
        ) && t.artist == name),
{
    assert((seq![first] + others)[0] == first);
}

} // verus!
