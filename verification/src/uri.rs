//! `spotify:` URIs: which kind of object a URI names, and what `play` and
//! `queue-add` do with it.

use rspotify::prelude::Id;
use vstd::prelude::*;
use crate::text::starts_with;

verus! {

/// Why a Spotify URI was refused, as rspotify reports it.
#[derive(Clone, Copy, Debug, PartialEq, Eq)]
pub enum IdError {
    /// The URI does not start with `spotify:` or `spotify/`.
    InvalidPrefix,
    /// The URI cannot be split into a type and an id.
    InvalidFormat,
    /// The type part is not the one that was asked for.
    InvalidType,
    /// The id part holds a character other than an ASCII letter or digit.
    InvalidId,
}

/// The kinds of object that `play` and `queue-add` accept.
#[derive(Clone, Copy, Debug, PartialEq, Eq)]
pub enum IdKind {
    Track,
    Album,
    Playlist,
    Artist,
}

impl IdKind {
    /// The type's name as it stands in a URI, such as `track`.
    pub open spec fn uri_type(self) -> Seq<char> {
        match self {
            IdKind::Track => seq!['t', 'r', 'a', 'c', 'k'],
            IdKind::Album => seq!['a', 'l', 'b', 'u', 'm'],
            IdKind::Playlist => seq!['p', 'l', 'a', 'y', 'l', 'i', 's', 't'],
            IdKind::Artist => seq!['a', 'r', 't', 'i', 's', 't'],
        }
    }
}

/// The index of the last `c` in `s`.
pub open spec fn last_index_of(s: Seq<char>, c: char) -> Option<int>
    decreases s.len(),
{
    if s.len() == 0 {
        None
    } else if s.last() == c {
        Some(s.len() - 1)
    } else {
        last_index_of(s.drop_last(), c)
    }
}

pub open spec fn is_ascii_alphanumeric(c: char) -> bool {
    ('0' <= c <= '9') || ('a' <= c <= 'z') || ('A' <= c <= 'Z')
}

pub open spec fn all_ascii_alphanumeric(s: Seq<char>) -> bool {
    forall|i: int| 0 <= i < s.len() ==> is_ascii_alphanumeric(#[trigger] s[i])
}

/// The id that rspotify reads out of `uri` for an object of type
/// `uri_type`: `uri` is `spotify`, a separator `:` or `/`, the type, the
/// same separator (its last occurrence) and an id of ASCII letters and digits.
pub open spec fn uri_id(uri: Seq<char>, uri_type: Seq<char>) -> Result<Seq<char>, IdError> {
    if !(uri.len() >= 8 && uri.take(7) == seq!['s', 'p', 'o', 't', 'i', 'f', 'y'] && (uri[7]
        == ':' || uri[7] == '/')) {
        Err(IdError::InvalidPrefix)
    } else {
        let rest = uri.skip(8);
        match last_index_of(rest, uri[7]) {
            None => Err(IdError::InvalidFormat),
            Some(mid) => if rest.take(mid) != uri_type {
                Err(IdError::InvalidType)
            } else if !all_ascii_alphanumeric(rest.skip(mid + 1)) {
                Err(IdError::InvalidId)
            } else {
                Ok(rest.skip(mid + 1))
            },
        }
    }
}

pub open spec fn id_result_view(r: Result<String, IdError>) -> Result<Seq<char>, IdError> {
    match r {
        Ok(s) => Ok(s@),
        Err(e) => Err(e),
    }
}

/// Calls `rspotify::model::TrackId::from_uri`. Trusted: the result is the id
/// that `uri_id` describes for the type `track`, or its error; this restates
/// `parse_uri`, `from_id` and the alphanumeric validity check of rspotify's
/// `idtypes.rs`.
#[verifier::external_body]
fn track_id_from_uri(uri: &str) -> (r: Result<String, IdError>)
    ensures
        id_result_view(r) == uri_id(uri@, IdKind::Track.uri_type()),
{
    match rspotify::model::TrackId::from_uri(uri) {
        Ok(id) => Ok(id.id().to_string()),
        Err(rspotify::model::IdError::InvalidPrefix) => Err(IdError::InvalidPrefix),
        Err(rspotify::model::IdError::InvalidFormat) => Err(IdError::InvalidFormat),
        Err(rspotify::model::IdError::InvalidType) => Err(IdError::InvalidType),
        Err(rspotify::model::IdError::InvalidId) => Err(IdError::InvalidId),
    }
}

/// Calls `rspotify::model::AlbumId::from_uri`. Trusted: the result is the id
/// that `uri_id` describes for the type `album`, or its error.
#[verifier::external_body]
fn album_id_from_uri(uri: &str) -> (r: Result<String, IdError>)
    ensures
        id_result_view(r) == uri_id(uri@, IdKind::Album.uri_type()),
{
    match rspotify::model::AlbumId::from_uri(uri) {
        Ok(id) => Ok(id.id().to_string()),
        Err(rspotify::model::IdError::InvalidPrefix) => Err(IdError::InvalidPrefix),
        Err(rspotify::model::IdError::InvalidFormat) => Err(IdError::InvalidFormat),
        Err(rspotify::model::IdError::InvalidType) => Err(IdError::InvalidType),
        Err(rspotify::model::IdError::InvalidId) => Err(IdError::InvalidId),
    }
}

/// Calls `rspotify::model::PlaylistId::from_uri`. Trusted: the result is the
/// id that `uri_id` describes for the type `playlist`, or its error.
#[verifier::external_body]
fn playlist_id_from_uri(uri: &str) -> (r: Result<String, IdError>)
    ensures
        id_result_view(r) == uri_id(uri@, IdKind::Playlist.uri_type()),
{
    match rspotify::model::PlaylistId::from_uri(uri) {
        Ok(id) => Ok(id.id().to_string()),
        Err(rspotify::model::IdError::InvalidPrefix) => Err(IdError::InvalidPrefix),
        Err(rspotify::model::IdError::InvalidFormat) => Err(IdError::InvalidFormat),
        Err(rspotify::model::IdError::InvalidType) => Err(IdError::InvalidType),
        Err(rspotify::model::IdError::InvalidId) => Err(IdError::InvalidId),
    }
}

/// Calls `rspotify::model::ArtistId::from_uri`. Trusted: the result is the id
/// that `uri_id` describes for the type `artist`, or its error.
#[verifier::external_body]
fn artist_id_from_uri(uri: &str) -> (r: Result<String, IdError>)
    ensures
        id_result_view(r) == uri_id(uri@, IdKind::Artist.uri_type()),
{
    match rspotify::model::ArtistId::from_uri(uri) {
        Ok(id) => Ok(id.id().to_string()),
        Err(rspotify::model::IdError::InvalidPrefix) => Err(IdError::InvalidPrefix),
        Err(rspotify::model::IdError::InvalidFormat) => Err(IdError::InvalidFormat),
        Err(rspotify::model::IdError::InvalidType) => Err(IdError::InvalidType),
        Err(rspotify::model::IdError::InvalidId) => Err(IdError::InvalidId),
    }
}

/// Reads the id of an object of kind `kind` out of `uri` with rspotify.
pub fn id_from_uri(kind: IdKind, uri: &str) -> (r: Result<String, IdError>)
    ensures
        id_result_view(r) == uri_id(uri@, kind.uri_type()),
{
    match kind {
        IdKind::Track => track_id_from_uri(uri),
        IdKind::Album => album_id_from_uri(uri),
        IdKind::Playlist => playlist_id_from_uri(uri),
        IdKind::Artist => artist_id_from_uri(uri),
    }
}

/// The URI prefix under which `play` and `queue-add` look for each kind.
pub open spec fn kind_prefix(kind: IdKind) -> Seq<char> {
    match kind {
        IdKind::Track => "spotify:track:"@,
        IdKind::Album => "spotify:album:"@,
        IdKind::Playlist => "spotify:playlist:"@,
        IdKind::Artist => "spotify:artist:"@,
    }
}

/// The name of a kind in messages, such as `track`.
pub open spec fn kind_word(kind: IdKind) -> Seq<char> {
    match kind {
        IdKind::Track => "track"@,
        IdKind::Album => "album"@,
        IdKind::Playlist => "playlist"@,
        IdKind::Artist => "artist"@,
    }
}

/// The name of a kind in messages, such as `track`.
pub fn kind_word_str(kind: IdKind) -> (r: &'static str)
    ensures
        r@ == kind_word(kind),
{
    match kind {
        IdKind::Track => "track",
        IdKind::Album => "album",
        IdKind::Playlist => "playlist",
        IdKind::Artist => "artist",
    }
}

/// How rspotify prints an `IdError`: the variant's name.
pub open spec fn id_error_name(e: IdError) -> Seq<char> {
    match e {
        IdError::InvalidPrefix => "InvalidPrefix"@,
        IdError::InvalidFormat => "InvalidFormat"@,
        IdError::InvalidType => "InvalidType"@,
        IdError::InvalidId => "InvalidId"@,
    }
}

pub fn id_error_name_str(e: IdError) -> (r: &'static str)
    ensures
        r@ == id_error_name(e),
{
    match e {
        IdError::InvalidPrefix => "InvalidPrefix",
        IdError::InvalidFormat => "InvalidFormat",
        IdError::InvalidType => "InvalidType",
        IdError::InvalidId => "InvalidId",
    }
}

/// What `play` asks the player to do.
#[derive(Clone, Debug, PartialEq)]
pub enum PlayCommand {
    /// Resume playback where it stopped.
    Resume,
    /// Start playing the object `id` of kind `kind`: a track by itself, an
    /// album, a playlist or an artist as a context.
    Start { kind: IdKind, id: String },
}

pub enum PlayCommandView {
    Resume,
    Start { kind: IdKind, id: Seq<char> },
}

impl View for PlayCommand {
    type V = PlayCommandView;

    open spec fn view(&self) -> PlayCommandView {
        match self {
            PlayCommand::Resume => PlayCommandView::Resume,
            PlayCommand::Start { kind, id } => PlayCommandView::Start { kind: *kind, id: id@ },
        }
    }
}

/// Why `play` refused a URI.
#[derive(Clone, Debug, PartialEq)]
pub enum PlayError {
    /// The URI starts like one of kind `kind`, but rspotify refused it.
    InvalidUri { kind: IdKind, uri: String, error: IdError },
    /// The URI starts like none of the kinds that `play` accepts.
    Unsupported { uri: String },
}

pub enum PlayErrorView {
    InvalidUri { kind: IdKind, uri: Seq<char>, error: IdError },
    Unsupported { uri: Seq<char> },
}

impl View for PlayError {
    type V = PlayErrorView;

    open spec fn view(&self) -> PlayErrorView {
        match self {
            PlayError::InvalidUri { kind, uri, error } => PlayErrorView::InvalidUri {
                kind: *kind,
                uri: uri@,
                error: *error,
            },
            PlayError::Unsupported { uri } => PlayErrorView::Unsupported { uri: uri@ },
        }
    }
}

pub open spec fn play_result_view(r: Result<PlayCommand, PlayError>) -> Result<
    PlayCommandView,
    PlayErrorView,
> {
    match r {
        Ok(c) => Ok(c@),
        Err(e) => Err(e@),
    }
}

/// Starting `uri` as an object of kind `kind`.
pub open spec fn start_outcome(kind: IdKind, uri: Seq<char>) -> Result<
    PlayCommandView,
    PlayErrorView,
> {
    match uri_id(uri, kind.uri_type()) {
        Ok(id) => Ok(PlayCommandView::Start { kind, id }),
        Err(error) => Err(PlayErrorView::InvalidUri { kind, uri, error }),
    }
}

/// What `play <uri>` does: the kind is chosen by the URI's prefix, tried in the
/// order track, album, playlist, artist; the id is then read by rspotify.
pub open spec fn play_uri_outcome(uri: Seq<char>) -> Result<PlayCommandView, PlayErrorView> {
    if kind_prefix(IdKind::Track).is_prefix_of(uri) {
        start_outcome(IdKind::Track, uri)
    } else if kind_prefix(IdKind::Album).is_prefix_of(uri) {
        start_outcome(IdKind::Album, uri)
    } else if kind_prefix(IdKind::Playlist).is_prefix_of(uri) {
        start_outcome(IdKind::Playlist, uri)
    } else if kind_prefix(IdKind::Artist).is_prefix_of(uri) {
        start_outcome(IdKind::Artist, uri)
    } else {
        Err(PlayErrorView::Unsupported { uri })
    }
}

/// What `play` does: resume without a URI, else play the URI.
pub open spec fn play_outcome(uri: Option<Seq<char>>) -> Result<PlayCommandView, PlayErrorView> {
    match uri {
        None => Ok(PlayCommandView::Resume),
        Some(u) => play_uri_outcome(u),
    }
}

fn start(kind: IdKind, uri: &str) -> (r: Result<PlayCommand, PlayError>)
    ensures
        play_result_view(r) == start_outcome(kind, uri@),
{
    match id_from_uri(kind, uri) {
        Ok(id) => Ok(PlayCommand::Start { kind, id }),
        Err(error) => Err(PlayError::InvalidUri { kind, uri: String::from_str(uri), error }),
    }
}

/// Decides what `play <uri>` asks the player to do, or why it refuses `uri`.
pub fn play_uri(uri: &str) -> (r: Result<PlayCommand, PlayError>)
    ensures
        play_result_view(r) == play_uri_outcome(uri@),
{
    if starts_with(uri, "spotify:track:") {
        start(IdKind::Track, uri)
    } else if starts_with(uri, "spotify:album:") {
        start(IdKind::Album, uri)
    } else if starts_with(uri, "spotify:playlist:") {
        start(IdKind::Playlist, uri)
    } else if starts_with(uri, "spotify:artist:") {
        start(IdKind::Artist, uri)
    } else {
        Err(PlayError::Unsupported { uri: String::from_str(uri) })
    }
}

/// Decides what `play` asks the player to do: resume without a URI, else what
/// `play_uri` decides.
pub fn play(uri: Option<&str>) -> (r: Result<PlayCommand, PlayError>)
    ensures
        play_result_view(r) == play_outcome(
            match uri {
                Some(u) => Some(u@),
                None => None,
            },
        ),
{
    match uri {
        None => Ok(PlayCommand::Resume),
        Some(u) => play_uri(u),
    }
}

/// The message of a refused URI.
pub open spec fn play_error_message(e: PlayErrorView) -> Seq<char> {
    match e {
        PlayErrorView::InvalidUri { kind, uri, error } => "Invalid "@ + kind_word(kind)
            + " URI '"@ + uri + "': "@ + id_error_name(error),
        PlayErrorView::Unsupported { uri } => "Unsupported URI type '"@ + uri
            + "'. Expected spotify:track:, spotify:album:, spotify:playlist:, or spotify:artist:"@,
    }
}

impl PlayError {
    pub fn message(&self) -> (r: String)
        ensures
            r@ == play_error_message(self@),
    {
        match self {
            PlayError::InvalidUri { kind, uri, error } => {
                let mut m = String::from_str("Invalid ");
                m.append(kind_word_str(*kind));
                m.append(" URI '");
                m.append(uri.as_str());
                m.append("': ");
                m.append(id_error_name_str(*error));
                m
            },
            PlayError::Unsupported { uri } => {
                let mut m = String::from_str("Unsupported URI type '");
                m.append(uri.as_str());
                m.append(
                    "'. Expected spotify:track:, spotify:album:, spotify:playlist:, or spotify:artist:",
                );
                m
            },
        }
    }
}

/// The message when the player refuses a command; `detail` is the client's
/// own description of the failure.
pub open spec fn play_failure_message(c: PlayCommandView, detail: Seq<char>) -> Seq<char> {
    match c {
        PlayCommandView::Resume => "Failed to resume playback: "@ + detail,
        PlayCommandView::Start { kind, id } => match kind {
            IdKind::Track => "Failed to start playback: "@ + detail,
            IdKind::Album => "Failed to start album playback: "@ + detail,
            IdKind::Playlist => "Failed to start playlist playback: "@ + detail,
            IdKind::Artist => "Failed to start artist playback: "@ + detail,
        },
    }
}

impl PlayCommand {
    pub fn failure_message(&self, detail: &str) -> (r: String)
        ensures
            r@ == play_failure_message(self@, detail@),
    {
        let mut m = match self {
            PlayCommand::Resume => String::from_str("Failed to resume playback: "),
            PlayCommand::Start { kind, id } => match kind {
                IdKind::Track => String::from_str("Failed to start playback: "),
                IdKind::Album => String::from_str("Failed to start album playback: "),
                IdKind::Playlist => String::from_str("Failed to start playlist playback: "),
                IdKind::Artist => String::from_str("Failed to start artist playback: "),
            },
        };
        m.append(detail);
        m
    }
}

proof fn last_index_after(s: Seq<char>, c: char, b: Seq<char>)
    requires
        !b.contains(c),
    ensures
        last_index_of(s.push(c) + b, c) == Some(s.len() as int),
    decreases b.len(),
{
    if b.len() == 0 {
        assert(s.push(c) + b =~= s.push(c));
    } else {
        assert((s.push(c) + b).drop_last() =~= s.push(c) + b.drop_last());
        assert(b.last() == b[b.len() - 1]);
        last_index_after(s, c, b.drop_last());
    }
}

proof fn kind_prefix_shape(kind: IdKind)
    ensures
        kind_prefix(kind) == seq!['s', 'p', 'o', 't', 'i', 'f', 'y', ':'] + kind.uri_type().push(
            ':',
        ),
{
    reveal_strlit("spotify:track:");
    reveal_strlit("spotify:album:");
    reveal_strlit("spotify:playlist:");
    reveal_strlit("spotify:artist:");
    assert(kind_prefix(kind) =~= seq!['s', 'p', 'o', 't', 'i', 'f', 'y', ':']
        + kind.uri_type().push(':'));
}

/// The URI `spotify:<type>:<id>` built from an id of ASCII letters and digits
/// reads back, for that type, as the same id.
pub proof fn built_uri_reads_back(kind: IdKind, id: Seq<char>)
    requires
        all_ascii_alphanumeric(id),
    ensures
        uri_id(kind_prefix(kind) + id, kind.uri_type()) == Ok::<Seq<char>, IdError>(id),
{
    let uri = kind_prefix(kind) + id;
    kind_prefix_shape(kind);
    let t = kind.uri_type();
    assert(uri.take(7) =~= seq!['s', 'p', 'o', 't', 'i', 'f', 'y']);
    assert(uri[7] == ':');
    let rest = uri.skip(8);
    assert(rest =~= t.push(':') + id);
    assert(!id.contains(':')) by {
        if id.contains(':') {
            let j = choose|j: int| 0 <= j < id.len() && id[j] == ':';
            assert(is_ascii_alphanumeric(id[j]));
        }
    }
    last_index_after(t, ':', id);
    assert(rest.take(t.len() as int) =~= t);
    assert(rest.skip(t.len() + 1 as int) =~= id);
}

/// `play spotify:<type>:<id>`, for an id of ASCII letters and digits, starts
/// playing that very object.
pub proof fn play_of_built_uri(kind: IdKind, id: Seq<char>)
    requires
        all_ascii_alphanumeric(id),
    ensures
        play_uri_outcome(kind_prefix(kind) + id) == Ok::<PlayCommandView, PlayErrorView>(
            PlayCommandView::Start { kind, id },
        ),
{
    built_uri_reads_back(kind, id);
    reveal_strlit("spotify:track:");
    reveal_strlit("spotify:album:");
    reveal_strlit("spotify:playlist:");
    reveal_strlit("spotify:artist:");
    let uri = kind_prefix(kind) + id;
    assert(kind_prefix(kind).is_prefix_of(uri)) by {
        assert(uri.subrange(0, kind_prefix(kind).len() as int) =~= kind_prefix(kind));
    }
    if kind != IdKind::Track {
        assert(!kind_prefix(IdKind::Track).is_prefix_of(uri)) by {
            assert(uri[8] != 't' || uri[9] != 'r');
            if kind_prefix(IdKind::Track).is_prefix_of(uri) {
                assert(uri.subrange(0, 14)[8] == kind_prefix(IdKind::Track)[8]);
                assert(uri.subrange(0, 14)[9] == kind_prefix(IdKind::Track)[9]);
            }
        }
    }
    if kind == IdKind::Playlist || kind == IdKind::Artist {
        assert(!kind_prefix(IdKind::Album).is_prefix_of(uri)) by {
            if kind_prefix(IdKind::Album).is_prefix_of(uri) {
                assert(uri.subrange(0, 14)[8] == kind_prefix(IdKind::Album)[8]);
                assert(uri.subrange(0, 14)[9] == kind_prefix(IdKind::Album)[9]);
            }
        }
    }
    if kind == IdKind::Artist {
        assert(!kind_prefix(IdKind::Playlist).is_prefix_of(uri)) by {
            if kind_prefix(IdKind::Playlist).is_prefix_of(uri) {
                assert(uri.subrange(0, 17)[8] == kind_prefix(IdKind::Playlist)[8]);
            }
        }
    }
}

} // verus!
