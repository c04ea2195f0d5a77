use spotify_dj::queue::{queue_step, QueueAction, QueueError, QueueEvent, QueueRun};
use spotify_dj::uri::IdError;

fn uris(list: &[&str]) -> Vec<String> {
    list.iter().map(|s| s.to_string()).collect()
}

#[test]
fn three_tracks_are_queued_in_order() {
    let uris = uris(&["spotify:track:abc123", "spotify:track:def456", "spotify:track:ghi789"]);
    let (run, action) = queue_step(&uris, QueueRun::start(), QueueEvent::Begin);
    assert_eq!(action, QueueAction::AddTrack { index: 0, track_id: "abc123".to_string() });
    let (run, action) = queue_step(&uris, run, QueueEvent::Added);
    assert_eq!(action, QueueAction::AddTrack { index: 1, track_id: "def456".to_string() });
    let (run, action) = queue_step(&uris, run, QueueEvent::Added);
    assert_eq!(action, QueueAction::AddTrack { index: 2, track_id: "ghi789".to_string() });
    let (run, action) = queue_step(&uris, run, QueueEvent::Added);
    assert_eq!(action, QueueAction::Report { queued: 3 });
    assert_eq!(run, QueueRun { next: 3, queued: 3 });
}

#[test]
fn a_non_track_stops_after_the_tracks_before_it() {
    let uris = uris(&["spotify:track:abc", "spotify:album:xyz", "spotify:track:def"]);
    let (run, _) = queue_step(&uris, QueueRun::start(), QueueEvent::Begin);
    let (run, action) = queue_step(&uris, run, QueueEvent::Added);
    assert_eq!(run, QueueRun { next: 1, queued: 1 });
    match action {
        QueueAction::Stop(e) => {
            assert_eq!(e, QueueError::NotTrack { uri: "spotify:album:xyz".to_string() });
            assert_eq!(
                e.message(),
                "queue-add only supports spotify:track: URIs, got: spotify:album:xyz"
            );
        }
        other => panic!("unexpected {:?}", other),
    }
}

#[test]
fn an_invalid_track_id_stops() {
    let uris = uris(&["spotify:track:no good"]);
    let (_, action) = queue_step(&uris, QueueRun::start(), QueueEvent::Begin);
    match action {
        QueueAction::Stop(e) => {
            assert_eq!(
                e,
                QueueError::InvalidUri {
                    uri: "spotify:track:no good".to_string(),
                    error: IdError::InvalidId
                }
            );
            assert_eq!(e.message(), "Invalid track URI 'spotify:track:no good': InvalidId");
        }
        other => panic!("unexpected {:?}", other),
    }
}

#[test]
fn a_refused_addition_stops() {
    let uris = uris(&["spotify:track:abc"]);
    let (run, _) = queue_step(&uris, QueueRun::start(), QueueEvent::Begin);
    let (_, action) = queue_step(&uris, run, QueueEvent::AddFailed("no device".to_string()));
    match action {
        QueueAction::Stop(e) => {
            assert_eq!(e.message(), "Failed to add 'spotify:track:abc' to queue: no device");
        }
        other => panic!("unexpected {:?}", other),
    }
}

#[test]
fn no_uris_queue_nothing() {
    let uris: Vec<String> = Vec::new();
    let (_, action) = queue_step(&uris, QueueRun::start(), QueueEvent::Begin);
    assert_eq!(action, QueueAction::Report { queued: 0 });
}
