use spotify_dj::uri::{id_from_uri, play, play_uri, IdError, IdKind, PlayCommand, PlayError};

#[test]
fn track_uri_gives_its_id() {
    assert_eq!(
        id_from_uri(IdKind::Track, "spotify:track:6GyFP1nfCDB8lbD2bG0Hq9"),
        Ok("6GyFP1nfCDB8lbD2bG0Hq9".to_string())
    );
}

#[test]
fn slash_separated_uri_is_accepted() {
    assert_eq!(
        id_from_uri(IdKind::Album, "spotify/album/5GwhhH4WEoTROJoaB1rDXJ"),
        Ok("5GwhhH4WEoTROJoaB1rDXJ".to_string())
    );
}

#[test]
fn each_kind_reads_its_own_uri() {
    assert_eq!(
        id_from_uri(IdKind::Playlist, "spotify:playlist:37i9dQZF1DX8NTLI2TtZa6"),
        Ok("37i9dQZF1DX8NTLI2TtZa6".to_string())
    );
    assert_eq!(
        id_from_uri(IdKind::Artist, "spotify:artist:2QI8e2Vwgg9KXOz2zjcrkI"),
        Ok("2QI8e2Vwgg9KXOz2zjcrkI".to_string())
    );
}

#[test]
fn id_errors() {
    assert_eq!(id_from_uri(IdKind::Track, "spotfy:track:abc"), Err(IdError::InvalidPrefix));
    assert_eq!(id_from_uri(IdKind::Track, "spotify:trackabc"), Err(IdError::InvalidFormat));
    assert_eq!(id_from_uri(IdKind::Track, "spotify:album:abc"), Err(IdError::InvalidType));
    assert_eq!(id_from_uri(IdKind::Track, "spotify:track:ab-c"), Err(IdError::InvalidId));
    assert_eq!(id_from_uri(IdKind::Track, "spotify:track:abc:def"), Err(IdError::InvalidType));
}

#[test]
fn empty_id_is_accepted_by_rspotify() {
    assert_eq!(id_from_uri(IdKind::Track, "spotify:track:"), Ok(String::new()));
}

#[test]
fn play_without_uri_resumes() {
    assert_eq!(play(None), Ok(PlayCommand::Resume));
}

#[test]
fn play_chooses_the_kind_by_prefix() {
    assert_eq!(
        play(Some("spotify:track:6GyFP1nfCDB8lbD2bG0Hq9")),
        Ok(PlayCommand::Start { kind: IdKind::Track, id: "6GyFP1nfCDB8lbD2bG0Hq9".to_string() })
    );
    assert_eq!(
        play_uri("spotify:album:5GwhhH4WEoTROJoaB1rDXJ"),
        Ok(PlayCommand::Start { kind: IdKind::Album, id: "5GwhhH4WEoTROJoaB1rDXJ".to_string() })
    );
    assert_eq!(
        play_uri("spotify:playlist:37i9dQZF1DX8NTLI2TtZa6"),
        Ok(PlayCommand::Start {
            kind: IdKind::Playlist,
            id: "37i9dQZF1DX8NTLI2TtZa6".to_string()
        })
    );
    assert_eq!(
        play_uri("spotify:artist:2QI8e2Vwgg9KXOz2zjcrkI"),
        Ok(PlayCommand::Start { kind: IdKind::Artist, id: "2QI8e2Vwgg9KXOz2zjcrkI".to_string() })
    );
}

#[test]
fn play_refuses_other_uris() {
    let e = play_uri("spotify:show:abc").unwrap_err();
    assert_eq!(e, PlayError::Unsupported { uri: "spotify:show:abc".to_string() });
    assert_eq!(
        e.message(),
        "Unsupported URI type 'spotify:show:abc'. Expected spotify:track:, spotify:album:, spotify:playlist:, or spotify:artist:"
    );
}

#[test]
fn play_reports_invalid_ids() {
    let e = play_uri("spotify:track:bad-id").unwrap_err();
    assert_eq!(
        e,
        PlayError::InvalidUri {
            kind: IdKind::Track,
            uri: "spotify:track:bad-id".to_string(),
            error: IdError::InvalidId
        }
    );
    assert_eq!(e.message(), "Invalid track URI 'spotify:track:bad-id': InvalidId");
    let e = play_uri("spotify:album:x:y").unwrap_err();
    assert_eq!(e.message(), "Invalid album URI 'spotify:album:x:y': InvalidType");
}

#[test]
fn play_failure_messages() {
    assert_eq!(PlayCommand::Resume.failure_message("boom"), "Failed to resume playback: boom");
    let track = PlayCommand::Start { kind: IdKind::Track, id: "a".to_string() };
    assert_eq!(track.failure_message("x"), "Failed to start playback: x");
    let album = PlayCommand::Start { kind: IdKind::Album, id: "a".to_string() };
    assert_eq!(album.failure_message("x"), "Failed to start album playback: x");
    let playlist = PlayCommand::Start { kind: IdKind::Playlist, id: "a".to_string() };
    assert_eq!(playlist.failure_message("x"), "Failed to start playlist playback: x");
    let artist = PlayCommand::Start { kind: IdKind::Artist, id: "a".to_string() };
    assert_eq!(artist.failure_message("x"), "Failed to start artist playback: x");
}
