//! `search`: the request that is sent to `GET /v1/search`, and the results read
//! out of Spotify's answer.

use vstd::prelude::*;
use crate::json::{JsonValue, text_or_default};
use crate::playback::unsigned_or_default;
use crate::text::{decimal, decimal_string, str_eq};
use crate::session::{HttpGet, HttpGetView, TokenRead, TokenReadView, bearer, bearer_of, joined, token_failure, token_failure_message};
use crate::playback::is_success;
use crate::playback::status_is_success;

verus! {

/// What kind of object a search looks for.
#[derive(Clone, Copy, Debug, PartialEq, Eq)]
pub enum SearchKind {
    Track,
    Playlist,
    Album,
    Artist,
}

/// The largest number of results that a search asks for.
pub const MAX_LIMIT: u32 = 50;

/// The kind that `--type` selects: `playlist`, `album` and `artist` select
/// themselves, anything else selects tracks.
pub open spec fn kind_of_type(search_type: Seq<char>) -> SearchKind {
    if search_type == "playlist"@ {
        SearchKind::Playlist
    } else if search_type == "album"@ {
        SearchKind::Album
    } else if search_type == "artist"@ {
        SearchKind::Artist
    } else {
        SearchKind::Track
    }
}

/// The kind's name in the `type` query parameter.
pub open spec fn kind_param(kind: SearchKind) -> Seq<char> {
    match kind {
        SearchKind::Track => "track"@,
        SearchKind::Playlist => "playlist"@,
        SearchKind::Album => "album"@,
        SearchKind::Artist => "artist"@,
    }
}

/// The member of the answer that holds the results of a kind.
pub open spec fn kind_plural(kind: SearchKind) -> Seq<char> {
    match kind {
        SearchKind::Track => "tracks"@,
        SearchKind::Playlist => "playlists"@,
        SearchKind::Album => "albums"@,
        SearchKind::Artist => "artists"@,
    }
}

/// Selects the kind of a search from its `--type`.
pub fn search_kind(search_type: &str) -> (r: SearchKind)
    ensures
        r == kind_of_type(search_type@),
{
    if str_eq(search_type, "playlist") {
        SearchKind::Playlist
    } else if str_eq(search_type, "album") {
        SearchKind::Album
    } else if str_eq(search_type, "artist") {
        SearchKind::Artist
    } else {
        SearchKind::Track
    }
}

impl SearchKind {
    pub fn param(self) -> (r: &'static str)
        ensures
            r@ == kind_param(self),
    {
        match self {
            SearchKind::Track => "track",
            SearchKind::Playlist => "playlist",
            SearchKind::Album => "album",
            SearchKind::Artist => "artist",
        }
    }

    pub fn plural(self) -> (r: &'static str)
        ensures
            r@ == kind_plural(self),
    {
        match self {
            SearchKind::Track => "tracks",
            SearchKind::Playlist => "playlists",
            SearchKind::Album => "albums",
            SearchKind::Artist => "artists",
        }
    }
}

/// The number of results asked for: `limit`, but at most 50.
pub fn clamp_limit(limit: u32) -> (r: u32)
    ensures
        r == if limit <= MAX_LIMIT {
            limit
        } else {
            MAX_LIMIT
        },
{
    if limit <= MAX_LIMIT {
        limit
    } else {
        MAX_LIMIT
    }
}

/// The request of a search: its kind, and the query parameters `q`, `type`
/// and `limit` in that order.
#[derive(Clone, Debug, PartialEq)]
pub struct SearchRequest {
    pub kind: SearchKind,
    pub limit: u32,
    pub params: Vec<(String, String)>,
}

/// The query parameters of a search, as text.
pub open spec fn params_view(params: Seq<(String, String)>) -> Seq<(Seq<char>, Seq<char>)> {
    params.map_values(|p: (String, String)| (p.0@, p.1@))
}

/// Builds the request of `search <query> --type <search_type> --limit <limit>`.
pub fn search_request(query: &str, search_type: &str, limit: u32) -> (r: SearchRequest)
    ensures
        r.kind == kind_of_type(search_type@),
        r.limit == if limit <= MAX_LIMIT {
            limit
        } else {
            MAX_LIMIT
        },
        params_view(r.params@) == seq![
            ("q"@, query@),
            ("type"@, kind_param(r.kind)),
            ("limit"@, decimal(r.limit as nat)),
        ],
{
    let kind = search_kind(search_type);
    let limit = clamp_limit(limit);
    let mut params: Vec<(String, String)> = Vec::new();
    params.push((String::from_str("q"), String::from_str(query)));
    params.push((String::from_str("type"), String::from_str(kind.param())));
    params.push((String::from_str("limit"), decimal_string(limit as u64)));
    assert(params_view(params@) =~= seq![
        ("q"@, query@),
        ("type"@, kind_param(kind)),
        ("limit"@, decimal(limit as nat)),
    ]);
    SearchRequest { kind, limit, params }
}

/// A track found.
#[derive(Clone, Debug, PartialEq)]
pub struct TrackResult {
    pub name: String,
    pub artist: String,
    pub album: String,
    pub uri: String,
    pub popularity: u64,
}

pub struct TrackResultView {
    pub name: Seq<char>,
    pub artist: Seq<char>,
    pub album: Seq<char>,
    pub uri: Seq<char>,
    pub popularity: u64,
}

impl View for TrackResult {
    type V = TrackResultView;

    open spec fn view(&self) -> TrackResultView {
        TrackResultView {
            name: self.name@,
            artist: self.artist@,
            album: self.album@,
            uri: self.uri@,
            popularity: self.popularity,
        }
    }
}

/// A playlist found.
#[derive(Clone, Debug, PartialEq)]
pub struct PlaylistResult {
    pub name: String,
    pub owner: String,
    pub uri: String,
    pub track_count: u64,
}

pub struct PlaylistResultView {
    pub name: Seq<char>,
    pub owner: Seq<char>,
    pub uri: Seq<char>,
    pub track_count: u64,
}

impl View for PlaylistResult {
    type V = PlaylistResultView;

    open spec fn view(&self) -> PlaylistResultView {
        PlaylistResultView {
            name: self.name@,
            owner: self.owner@,
            uri: self.uri@,
            track_count: self.track_count,
        }
    }
}

/// An album found.
#[derive(Clone, Debug, PartialEq)]
pub struct AlbumResult {
    pub name: String,
    pub artist: String,
    pub uri: String,
}

pub struct AlbumResultView {
    pub name: Seq<char>,
    pub artist: Seq<char>,
    pub uri: Seq<char>,
}

impl View for AlbumResult {
    type V = AlbumResultView;

    open spec fn view(&self) -> AlbumResultView {
        AlbumResultView { name: self.name@, artist: self.artist@, uri: self.uri@ }
    }
}

/// An artist found.
#[derive(Clone, Debug, PartialEq)]
pub struct ArtistResult {
    pub name: String,
    pub uri: String,
    pub popularity: u64,
}

pub struct ArtistResultView {
    pub name: Seq<char>,
    pub uri: Seq<char>,
    pub popularity: u64,
}

impl View for ArtistResult {
    type V = ArtistResultView;

    open spec fn view(&self) -> ArtistResultView {
        ArtistResultView { name: self.name@, uri: self.uri@, popularity: self.popularity }
    }
}

/// The text at `v.field(key)`, empty where there is none.
pub open spec fn text_at(v: JsonValue, key: Seq<char>) -> Seq<char> {
    text_or_default(v.field(key).text(), ""@)
}

/// The name of the first artist of `v`.
pub open spec fn first_artist(v: JsonValue) -> Seq<char> {
    text_or_default(v.field("artists"@).element(0).field("name"@).text(), ""@)
}

pub open spec fn track_result_of(t: JsonValue) -> TrackResultView {
    TrackResultView {
        name: text_at(t, "name"@),
        artist: first_artist(t),
        album: text_or_default(t.field("album"@).field("name"@).text(), ""@),
        uri: text_at(t, "uri"@),
        popularity: unsigned_or_default(t.field("popularity"@).unsigned(), 0),
    }
}

/// The owner of a playlist: its display name, else its id, else empty.
pub open spec fn owner_of(p: JsonValue) -> Seq<char> {
    match p.field("owner"@).field("display_name"@).text() {
        Some(name) => name,
        None => text_or_default(p.field("owner"@).field("id"@).text(), ""@),
    }
}

pub open spec fn playlist_result_of(p: JsonValue) -> PlaylistResultView {
    PlaylistResultView {
        name: text_at(p, "name"@),
        owner: owner_of(p),
        uri: text_at(p, "uri"@),
        track_count: unsigned_or_default(p.field("tracks"@).field("total"@).unsigned(), 0),
    }
}

pub open spec fn album_result_of(a: JsonValue) -> AlbumResultView {
    AlbumResultView { name: text_at(a, "name"@), artist: first_artist(a), uri: text_at(a, "uri"@) }
}

pub open spec fn artist_result_of(a: JsonValue) -> ArtistResultView {
    ArtistResultView {
        name: text_at(a, "name"@),
        uri: text_at(a, "uri"@),
        popularity: unsigned_or_default(a.field("popularity"@).unsigned(), 0),
    }
}

/// The results among `items`: one for each item that is not `null`, in order.
pub open spec fn track_results(items: Seq<JsonValue>) -> Seq<TrackResultView> {
    items.filter_map(track_pick())
}

/// The result of an item, where it is not `null`.
pub open spec fn track_pick() -> spec_fn(JsonValue) -> Option<TrackResultView> {
    |v: JsonValue|
        if v is Null {
            None
        } else {
            Some(track_result_of(v))
        }
}

pub open spec fn playlist_results(items: Seq<JsonValue>) -> Seq<PlaylistResultView> {
    items.filter_map(playlist_pick())
}

/// The result of an item, where it is not `null`.
pub open spec fn playlist_pick() -> spec_fn(JsonValue) -> Option<PlaylistResultView> {
    |v: JsonValue|
        if v is Null {
            None
        } else {
            Some(playlist_result_of(v))
        }
}

pub open spec fn album_results(items: Seq<JsonValue>) -> Seq<AlbumResultView> {
    items.filter_map(album_pick())
}

/// The result of an item, where it is not `null`.
pub open spec fn album_pick() -> spec_fn(JsonValue) -> Option<AlbumResultView> {
    |v: JsonValue|
        if v is Null {
            None
        } else {
            Some(album_result_of(v))
        }
}

pub open spec fn artist_results(items: Seq<JsonValue>) -> Seq<ArtistResultView> {
    items.filter_map(artist_pick())
}

/// The result of an item, where it is not `null`.
pub open spec fn artist_pick() -> spec_fn(JsonValue) -> Option<ArtistResultView> {
    |v: JsonValue|
        if v is Null {
            None
        } else {
            Some(artist_result_of(v))
        }
}

fn track_result(t: &JsonValue) -> (r: TrackResult)
    ensures
        r@ == track_result_of(*t),
{
    TrackResult {
        name: t.get("name").text_or(""),
        artist: t.get("artists").at(0).get("name").text_or(""),
        album: t.get("album").get("name").text_or(""),
        uri: t.get("uri").text_or(""),
        popularity: t.get("popularity").unsigned_or(0),
    }
}

fn playlist_result(p: &JsonValue) -> (r: PlaylistResult)
    ensures
        r@ == playlist_result_of(*p),
{
    let owner = p.get("owner");
    let owner_name = match owner.get("display_name").as_str() {
        Some(name) => String::from_str(name),
        None => owner.get("id").text_or(""),
    };
    PlaylistResult {
        name: p.get("name").text_or(""),
        owner: owner_name,
        uri: p.get("uri").text_or(""),
        track_count: p.get("tracks").get("total").unsigned_or(0),
    }
}

fn album_result(a: &JsonValue) -> (r: AlbumResult)
    ensures
        r@ == album_result_of(*a),
{
    AlbumResult {
        name: a.get("name").text_or(""),
        artist: a.get("artists").at(0).get("name").text_or(""),
        uri: a.get("uri").text_or(""),
    }
}

fn artist_result(a: &JsonValue) -> (r: ArtistResult)
    ensures
        r@ == artist_result_of(*a),
{
    ArtistResult {
        name: a.get("name").text_or(""),
        uri: a.get("uri").text_or(""),
        popularity: a.get("popularity").unsigned_or(0),
    }
}

/// The results read out of the items of a track search.
pub fn tracks_of(items: &Vec<JsonValue>) -> (r: Vec<TrackResult>)
    ensures
        r@.map_values(|t: TrackResult| t@) == track_results(items@),
{
    let ghost f = track_pick();
    let mut out: Vec<TrackResult> = Vec::new();
    let n = items.len();
    assert(items@.take(0).filter_map(f) =~= Seq::<TrackResultView>::empty());
    for i in 0..n
        invariant
            n == items@.len(),
            f == track_pick(),
            out@.map_values(|t: TrackResult| t@) == items@.take(i as int).filter_map(f),
    {
        proof {
            items@.lemma_filter_map_take_succ(f, i as int);
        }
        let ghost before = out@;
        if !items[i].is_null() {
            let x = track_result(&items[i]);
            out.push(x);
            assert(out@.map_values(|t: TrackResult| t@) =~= before.map_values(|t: TrackResult| t@).push(x@));
        }
        assert(out@.map_values(|t: TrackResult| t@) =~= items@.take(i + 1).filter_map(f));
    }
    assert(items@.take(n as int) =~= items@);
    out
}

/// The results read out of the items of a playlist search.
pub fn playlists_of(items: &Vec<JsonValue>) -> (r: Vec<PlaylistResult>)
    ensures
        r@.map_values(|p: PlaylistResult| p@) == playlist_results(items@),
{
    let ghost f = playlist_pick();
    let mut out: Vec<PlaylistResult> = Vec::new();
    let n = items.len();
    assert(items@.take(0).filter_map(f) =~= Seq::<PlaylistResultView>::empty());
    for i in 0..n
        invariant
            n == items@.len(),
            f == playlist_pick(),
            out@.map_values(|p: PlaylistResult| p@) == items@.take(i as int).filter_map(f),
    {
        proof {
            items@.lemma_filter_map_take_succ(f, i as int);
        }
        let ghost before = out@;
        if !items[i].is_null() {
            let x = playlist_result(&items[i]);
            out.push(x);
            assert(out@.map_values(|p: PlaylistResult| p@) =~= before.map_values(|p: PlaylistResult| p@).push(x@));
        }
        assert(out@.map_values(|p: PlaylistResult| p@) =~= items@.take(i + 1).filter_map(f));
    }
    assert(items@.take(n as int) =~= items@);
    out
}

/// The results read out of the items of an album search.
pub fn albums_of(items: &Vec<JsonValue>) -> (r: Vec<AlbumResult>)
    ensures
        r@.map_values(|a: AlbumResult| a@) == album_results(items@),
{
    let ghost f = album_pick();
    let mut out: Vec<AlbumResult> = Vec::new();
    let n = items.len();
    assert(items@.take(0).filter_map(f) =~= Seq::<AlbumResultView>::empty());
    for i in 0..n
        invariant
            n == items@.len(),
            f == album_pick(),
            out@.map_values(|a: AlbumResult| a@) == items@.take(i as int).filter_map(f),
    {
        proof {
            items@.lemma_filter_map_take_succ(f, i as int);
        }
        let ghost before = out@;
        if !items[i].is_null() {
            let x = album_result(&items[i]);
            out.push(x);
            assert(out@.map_values(|a: AlbumResult| a@) =~= before.map_values(|a: AlbumResult| a@).push(x@));
        }
        assert(out@.map_values(|a: AlbumResult| a@) =~= items@.take(i + 1).filter_map(f));
    }
    assert(items@.take(n as int) =~= items@);
    out
}

/// The results read out of the items of an artist search.
pub fn artists_of(items: &Vec<JsonValue>) -> (r: Vec<ArtistResult>)
    ensures
        r@.map_values(|a: ArtistResult| a@) == artist_results(items@),
{
    let ghost f = artist_pick();
    let mut out: Vec<ArtistResult> = Vec::new();
    let n = items.len();
    assert(items@.take(0).filter_map(f) =~= Seq::<ArtistResultView>::empty());
    for i in 0..n
        invariant
            n == items@.len(),
            f == artist_pick(),
            out@.map_values(|a: ArtistResult| a@) == items@.take(i as int).filter_map(f),
    {
        proof {
            items@.lemma_filter_map_take_succ(f, i as int);
        }
        let ghost before = out@;
        if !items[i].is_null() {
            let x = artist_result(&items[i]);
            out.push(x);
            assert(out@.map_values(|a: ArtistResult| a@) =~= before.map_values(|a: ArtistResult| a@).push(x@));
        }
        assert(out@.map_values(|a: ArtistResult| a@) =~= items@.take(i + 1).filter_map(f));
    }
    assert(items@.take(n as int) =~= items@);
    out
}

/// The results of a search, by kind.
#[derive(Clone, Debug, PartialEq)]
pub enum SearchResults {
    Tracks(Vec<TrackResult>),
    Playlists(Vec<PlaylistResult>),
    Albums(Vec<AlbumResult>),
    Artists(Vec<ArtistResult>),
}

pub enum SearchResultsView {
    Tracks(Seq<TrackResultView>),
    Playlists(Seq<PlaylistResultView>),
    Albums(Seq<AlbumResultView>),
    Artists(Seq<ArtistResultView>),
}

impl View for SearchResults {
    type V = SearchResultsView;

    open spec fn view(&self) -> SearchResultsView {
        match self {
            SearchResults::Tracks(v) => SearchResultsView::Tracks(
                v@.map_values(|t: TrackResult| t@),
            ),
            SearchResults::Playlists(v) => SearchResultsView::Playlists(
                v@.map_values(|p: PlaylistResult| p@),
            ),
            SearchResults::Albums(v) => SearchResultsView::Albums(
                v@.map_values(|a: AlbumResult| a@),
            ),
            SearchResults::Artists(v) => SearchResultsView::Artists(
                v@.map_values(|a: ArtistResult| a@),
            ),
        }
    }
}

/// The results of a search of kind `kind` in Spotify's answer `data`: those
/// of the list `data.<kind plural>.items`; `None` where that is no list.
pub open spec fn search_results_of(kind: SearchKind, data: JsonValue) -> Option<SearchResultsView> {
    match data.field(kind_plural(kind)).field("items"@).items() {
        None => None,
        Some(items) => Some(
            match kind {
                SearchKind::Track => SearchResultsView::Tracks(track_results(items)),
                SearchKind::Playlist => SearchResultsView::Playlists(playlist_results(items)),
                SearchKind::Album => SearchResultsView::Albums(album_results(items)),
                SearchKind::Artist => SearchResultsView::Artists(artist_results(items)),
            },
        ),
    }
}

/// Reads the results of a search of kind `kind` out of Spotify's answer;
/// `None` where the answer has no list of items for that kind.
pub fn search_results(kind: SearchKind, data: &JsonValue) -> (r: Option<SearchResults>)
    ensures
        match r {
            Some(res) => search_results_of(kind, *data) == Some(res@),
            None => search_results_of(kind, *data) is None,
        },
{
    let items = match data.get(kind.plural()).get("items").as_array() {
        None => {
            return None;
        },
        Some(items) => items,
    };
    match kind {
        SearchKind::Track => Some(SearchResults::Tracks(tracks_of(items))),
        SearchKind::Playlist => Some(SearchResults::Playlists(playlists_of(items))),
        SearchKind::Album => Some(SearchResults::Albums(albums_of(items))),
        SearchKind::Artist => Some(SearchResults::Artists(artists_of(items))),
    }
}

/// What happened since `search` last decided.
#[derive(Debug, PartialEq)]
pub enum SearchEvent {
    /// The command starts.
    Begin,
    /// The access token was read.
    Token(TokenRead),
    /// The request could not be sent; the text says why.
    RequestFailed(String),
    /// Spotify answered with this status; `status_text` is how it prints.
    Responded { status: u16, status_text: String },
    /// The body of an answer that is no success.
    ErrorBody { status_text: String, body: String },
    /// The answer's body is this JSON.
    BodyParsed(JsonValue),
    /// The answer's body is no JSON; the text says why.
    BodyFailed(String),
}

pub enum SearchEventView {
    Begin,
    Token(TokenReadView),
    RequestFailed(Seq<char>),
    Responded { status: u16, status_text: Seq<char> },
    ErrorBody { status_text: Seq<char>, body: Seq<char> },
    BodyParsed(JsonValue),
    BodyFailed(Seq<char>),
}

impl View for SearchEvent {
    type V = SearchEventView;

    open spec fn view(&self) -> SearchEventView {
        match self {
            SearchEvent::Begin => SearchEventView::Begin,
            SearchEvent::Token(t) => SearchEventView::Token(t@),
            SearchEvent::RequestFailed(d) => SearchEventView::RequestFailed(d@),
            SearchEvent::Responded { status, status_text } => SearchEventView::Responded {
                status: *status,
                status_text: status_text@,
            },
            SearchEvent::ErrorBody { status_text, body } => SearchEventView::ErrorBody {
                status_text: status_text@,
                body: body@,
            },
            SearchEvent::BodyParsed(data) => SearchEventView::BodyParsed(*data),
            SearchEvent::BodyFailed(d) => SearchEventView::BodyFailed(d@),
        }
    }
}

/// What `search` does next.
#[derive(Clone, Debug, PartialEq)]
pub enum SearchAction {
    /// Read the client's access token.
    ReadToken,
    /// Send this request.
    Send(HttpGet),
    /// Read the body of an answer that is no success, as text (empty where it
    /// cannot be read), and report it with the status `status_text`.
    ReadErrorBody { status_text: String },
    /// Read the answer's body as JSON.
    ReadBody,
    /// Print these results and succeed.
    Print(SearchResults),
    /// Fail with this message.
    Fail(String),
}

pub enum SearchActionView {
    ReadToken,
    Send(HttpGetView),
    ReadErrorBody { status_text: Seq<char> },
    ReadBody,
    Print(SearchResultsView),
    Fail(Seq<char>),
}

impl View for SearchAction {
    type V = SearchActionView;

    open spec fn view(&self) -> SearchActionView {
        match self {
            SearchAction::ReadToken => SearchActionView::ReadToken,
            SearchAction::Send(g) => SearchActionView::Send(g@),
            SearchAction::ReadErrorBody { status_text } => SearchActionView::ReadErrorBody {
                status_text: status_text@,
            },
            SearchAction::ReadBody => SearchActionView::ReadBody,
            SearchAction::Print(r) => SearchActionView::Print(r@),
            SearchAction::Fail(m) => SearchActionView::Fail(m@),
        }
    }
}

/// The search endpoint.
pub open spec fn search_url() -> Seq<char> {
    "https://api.spotify.com/v1/search"@
}

/// What `search` does after each event: it reads the token, sends the query
/// with it, fails on a status other than `2xx` with the answer's text, and
/// otherwise prints the results of the kind searched for.
pub open spec fn search_transition(kind: SearchKind, params: Seq<(Seq<char>, Seq<char>)>, event: SearchEventView) -> SearchActionView {
    match event {
        SearchEventView::Begin => SearchActionView::ReadToken,
        SearchEventView::Token(t) => match token_failure(t) {
            Some(m) => SearchActionView::Fail(m),
            None => SearchActionView::Send(
                HttpGetView { url: search_url(), authorization: bearer_of(t->Present_0), params },
            ),
        },
        SearchEventView::RequestFailed(d) => SearchActionView::Fail("Search request failed: "@ + d),
        SearchEventView::Responded { status, status_text } => if is_success(status) {
            SearchActionView::ReadBody
        } else {
            SearchActionView::ReadErrorBody { status_text }
        },
        SearchEventView::ErrorBody { status_text, body } => SearchActionView::Fail(
            "Spotify API error "@ + status_text + ": "@ + body,
        ),
        SearchEventView::BodyParsed(data) => match search_results_of(kind, data) {
            Some(results) => SearchActionView::Print(results),
            None => SearchActionView::Fail("Unexpected response shape for "@ + kind_plural(kind)),
        },
        SearchEventView::BodyFailed(d) => SearchActionView::Fail(
            "Failed to parse search response: "@ + d,
        ),
    }
}

fn copy_params(params: &Vec<(String, String)>) -> (r: Vec<(String, String)>)
    ensures
        params_view(r@) == params_view(params@),
{
    let mut out: Vec<(String, String)> = Vec::new();
    let n = params.len();
    for i in 0..n
        invariant
            n == params@.len(),
            params_view(out@) == params_view(params@).take(i as int),
    {
        let ghost before = out@;
        let p = (params[i].0.clone(), params[i].1.clone());
        assert(p.0@ == params@[i as int].0@ && p.1@ == params@[i as int].1@);
        out.push(p);
        assert(params_view(out@) =~= params_view(before).push((p.0@, p.1@)));
        assert(params_view(out@) =~= params_view(params@).take(i + 1));
    }
    assert(params_view(params@).take(n as int) =~= params_view(params@));
    out
}

/// Decides what `search` does after `event`, for the request `request`.
pub fn search_step(request: &SearchRequest, event: &SearchEvent) -> (r: SearchAction)
    ensures
        r@ == search_transition(request.kind, params_view(request.params@), event@),
{
    match event {
        SearchEvent::Begin => SearchAction::ReadToken,
        SearchEvent::Token(t) => match t {
            TokenRead::Present(token) => SearchAction::Send(
                HttpGet {
                    url: String::from_str("https://api.spotify.com/v1/search"),
                    authorization: bearer(token.as_str()),
                    params: copy_params(&request.params),
                },
            ),
            _ => match token_failure_message(t) {
                Some(m) => SearchAction::Fail(m),
                None => SearchAction::ReadToken,
            },
        },
        SearchEvent::RequestFailed(d) => SearchAction::Fail(
            joined("Search request failed: ", d.as_str()),
        ),
        SearchEvent::Responded { status, status_text } => if status_is_success(*status) {
            SearchAction::ReadBody
        } else {
            SearchAction::ReadErrorBody { status_text: status_text.clone() }
        },
        SearchEvent::ErrorBody { status_text, body } => {
            let mut m = String::from_str("Spotify API error ");
            m.append(status_text.as_str());
            m.append(": ");
            m.append(body.as_str());
            SearchAction::Fail(m)
        },
        SearchEvent::BodyParsed(data) => match search_results(request.kind, data) {
            Some(results) => SearchAction::Print(results),
            None => SearchAction::Fail(
                joined("Unexpected response shape for ", request.kind.plural()),
            ),
        },
        SearchEvent::BodyFailed(d) => SearchAction::Fail(
            joined("Failed to parse search response: ", d.as_str()),
        ),
    }
}

/// `search` prints only results read out of Spotify's answer, and only those
/// of the kind it searched for.
pub proof fn prints_only_results_of_the_kind(
    kind: SearchKind,
    params: Seq<(Seq<char>, Seq<char>)>,
    event: SearchEventView,
    results: SearchResultsView,
)
    ensures
        search_transition(kind, params, event) == SearchActionView::Print(results) ==> (event matches SearchEventView::BodyParsed(data) && search_results_of(kind, data)
            == Some(results)),
{
}

/// The `type` parameter of a search is the `--type` text itself where that
/// is `playlist`, `album` or `artist`, and `track` for any other text; the
/// answer's results are read from the member named by that type with an `s`.
pub proof fn search_type_param_is_the_type(search_type: Seq<char>)
    ensures
        (search_type == "playlist"@ || search_type == "album"@ || search_type == "artist"@)
            ==> kind_param(kind_of_type(search_type)) == search_type,
        !(search_type == "playlist"@ || search_type == "album"@ || search_type == "artist"@)
            ==> kind_param(kind_of_type(search_type)) == "track"@,
        kind_plural(kind_of_type(search_type)) == kind_param(kind_of_type(search_type)).push('s'),
{
    reveal_strlit("playlist");
    reveal_strlit("album");
    reveal_strlit("artist");
    reveal_strlit("track");
    reveal_strlit("playlists");
    reveal_strlit("albums");
    reveal_strlit("artists");
    reveal_strlit("tracks");
    assert("playlist"@.len() == 8 && "album"@.len() == 5 && "artist"@.len() == 6);
    assert("tracks"@ =~= "track"@.push('s'));
    assert("playlists"@ =~= "playlist"@.push('s'));
    assert("albums"@ =~= "album"@.push('s'));
    assert("artists"@ =~= "artist"@.push('s'));
}

/// A track found, and an album found, are credited to the first artist the
/// answer lists for them: where the item's `artists` is the list
/// `[first, ...]` and `first` has the name `name`, the result's artist is
/// `name`, whatever artists follow.
pub proof fn results_credit_the_first_artist(
    item: JsonValue,
    first: JsonValue,
    others: Seq<JsonValue>,
    name: Seq<char>,
)
    requires
        item.field("artists"@).items() == Some(seq![first] + others),
        first.field("name"@).text() == Some(name),
    ensures
        track_result_of(item).artist == name,
        album_result_of(item).artist == name,
{
    assert((seq![first] + others)[0] == first);
}

} // verus!
