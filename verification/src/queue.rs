//! `queue-add`: the URIs are taken in order; each must be a track URI, and is
//! added to the queue before the next one is looked at.

use vstd::prelude::*;
use crate::text::starts_with;
use crate::uri::{IdError, IdKind, id_from_uri, id_error_name, id_error_name_str, uri_id};

verus! {

/// How far `queue-add` has got: the index of the URI it looks at next, and how
/// many tracks it has added so far.
#[derive(Clone, Copy, Debug, PartialEq, Eq)]
pub struct QueueRun {
    pub next: usize,
    pub queued: usize,
}

/// What happened since the last step.
#[derive(Clone, Debug, PartialEq)]
pub enum QueueEvent {
    /// The command starts.
    Begin,
    /// The track asked for in the last step was added.
    Added,
    /// Adding the track asked for in the last step failed; the text says why.
    AddFailed(String),
}

pub enum QueueEventView {
    Begin,
    Added,
    AddFailed(Seq<char>),
}

impl View for QueueEvent {
    type V = QueueEventView;

    open spec fn view(&self) -> QueueEventView {
        match self {
            QueueEvent::Begin => QueueEventView::Begin,
            QueueEvent::Added => QueueEventView::Added,
            QueueEvent::AddFailed(d) => QueueEventView::AddFailed(d@),
        }
    }
}

/// Why `queue-add` stopped.
#[derive(Clone, Debug, PartialEq)]
pub enum QueueError {
    /// The URI is not a `spotify:track:` URI.
    NotTrack { uri: String },
    /// The URI starts like a track URI, but rspotify refused it.
    InvalidUri { uri: String, error: IdError },
    /// The player refused to add the track.
    AddFailed { uri: String, detail: String },
}

pub enum QueueErrorView {
    NotTrack { uri: Seq<char> },
    InvalidUri { uri: Seq<char>, error: IdError },
    AddFailed { uri: Seq<char>, detail: Seq<char> },
}

impl View for QueueError {
    type V = QueueErrorView;

    open spec fn view(&self) -> QueueErrorView {
        match self {
            QueueError::NotTrack { uri } => QueueErrorView::NotTrack { uri: uri@ },
            QueueError::InvalidUri { uri, error } => QueueErrorView::InvalidUri {
                uri: uri@,
                error: *error,
            },
            QueueError::AddFailed { uri, detail } => QueueErrorView::AddFailed {
                uri: uri@,
                detail: detail@,
            },
        }
    }
}

/// What `queue-add` does next.
#[derive(Clone, Debug, PartialEq)]
pub enum QueueAction {
    /// Add the track `track_id`, read from the URI at `index`.
    AddTrack { index: usize, track_id: String },
    /// All URIs are done: report `{"ok": true, "queued": queued}`.
    Report { queued: usize },
    /// Stop with an error.
    Stop(QueueError),
}

pub enum QueueActionView {
    AddTrack { index: usize, track_id: Seq<char> },
    Report { queued: usize },
    Stop(QueueErrorView),
}

impl View for QueueAction {
    type V = QueueActionView;

    open spec fn view(&self) -> QueueActionView {
        match self {
            QueueAction::AddTrack { index, track_id } => QueueActionView::AddTrack {
                index: *index,
                track_id: track_id@,
            },
            QueueAction::Report { queued } => QueueActionView::Report { queued: *queued },
            QueueAction::Stop(e) => QueueActionView::Stop(e@),
        }
    }
}

/// The characters of each string.
pub open spec fn texts(v: Seq<String>) -> Seq<Seq<char>> {
    v.map_values(|s: String| s@)
}

/// A run that can occur: no more tracks added than URIs looked at, and no
/// URI looked at beyond the last.
pub open spec fn run_ok(run: QueueRun, n: nat) -> bool {
    run.queued <= run.next <= n
}

/// What to do at the URI `uris[next]`, with `queued` tracks added so far.
pub open spec fn queue_decision(uris: Seq<Seq<char>>, next: usize, queued: usize) -> QueueActionView {
    if next >= uris.len() {
        QueueActionView::Report { queued }
    } else if !"spotify:track:"@.is_prefix_of(uris[next as int]) {
        QueueActionView::Stop(QueueErrorView::NotTrack { uri: uris[next as int] })
    } else {
        match uri_id(uris[next as int], IdKind::Track.uri_type()) {
            Ok(id) => QueueActionView::AddTrack { index: next, track_id: id },
            Err(error) => QueueActionView::Stop(
                QueueErrorView::InvalidUri { uri: uris[next as int], error },
            ),
        }
    }
}

/// One step of `queue-add`.
pub open spec fn queue_transition(uris: Seq<Seq<char>>, run: QueueRun, event: QueueEventView) -> (
    QueueRun,
    QueueActionView,
) {
    match event {
        QueueEventView::Begin => (run, queue_decision(uris, run.next, run.queued)),
        QueueEventView::Added => if run.next < uris.len() {
            let after = QueueRun { next: (run.next + 1) as usize, queued: (run.queued + 1) as usize };
            (after, queue_decision(uris, after.next, after.queued))
        } else {
            (run, QueueActionView::Report { queued: run.queued })
        },
        QueueEventView::AddFailed(detail) => (
            run,
            QueueActionView::Stop(
                QueueErrorView::AddFailed {
                    uri: if run.next < uris.len() {
                        uris[run.next as int]
                    } else {
                        Seq::empty()
                    },
                    detail,
                },
            ),
        ),
    }
}

impl QueueRun {
    /// The run before any URI is looked at.
    pub fn start() -> (r: QueueRun)
        ensures
            r == (QueueRun { next: 0, queued: 0 }),
    {
        QueueRun { next: 0, queued: 0 }
    }
}

fn decide(uris: &[String], next: usize, queued: usize) -> (r: QueueAction)
    requires
        next <= uris@.len(),
    ensures
        r@ == queue_decision(texts(uris@), next, queued),
{
    if next >= uris.len() {
        return QueueAction::Report { queued };
    }
    let uri = &uris[next];
    if !starts_with(uri.as_str(), "spotify:track:") {
        return QueueAction::Stop(QueueError::NotTrack { uri: uri.clone() });
    }
    match id_from_uri(IdKind::Track, uri.as_str()) {
        Ok(id) => QueueAction::AddTrack { index: next, track_id: id },
        Err(error) => QueueAction::Stop(QueueError::InvalidUri { uri: uri.clone(), error }),
    }
}

/// One step of `queue-add`: from the run so far and what just happened, the
/// run after it and what to do next.
pub fn queue_step(uris: &[String], run: QueueRun, event: QueueEvent) -> (r: (QueueRun, QueueAction))
    requires
        run_ok(run, uris@.len()),
    ensures
        (r.0, r.1@) == queue_transition(texts(uris@), run, event@),
        run_ok(r.0, uris@.len()),
        r.0.next - r.0.queued == run.next - run.queued,
{
    match event {
        QueueEvent::Begin => (run, decide(uris, run.next, run.queued)),
        QueueEvent::Added => {
            if run.next < uris.len() {
                let after = QueueRun { next: run.next + 1, queued: run.queued + 1 };
                (after, decide(uris, after.next, after.queued))
            } else {
                (run, QueueAction::Report { queued: run.queued })
            }
        },
        QueueEvent::AddFailed(detail) => {
            let uri = if run.next < uris.len() {
                uris[run.next].clone()
            } else {
                String::new()
            };
            (run, QueueAction::Stop(QueueError::AddFailed { uri, detail }))
        },
    }
}

/// The message of a stopped `queue-add`.
pub open spec fn queue_error_message(e: QueueErrorView) -> Seq<char> {
    match e {
        QueueErrorView::NotTrack { uri } => "queue-add only supports spotify:track: URIs, got: "@
            + uri,
        QueueErrorView::InvalidUri { uri, error } => "Invalid track URI '"@ + uri + "': "@
            + id_error_name(error),
        QueueErrorView::AddFailed { uri, detail } => "Failed to add '"@ + uri + "' to queue: "@
            + detail,
    }
}

impl QueueError {
    pub fn message(&self) -> (r: String)
        ensures
            r@ == queue_error_message(self@),
    {
        match self {
            QueueError::NotTrack { uri } => {
                let mut m = String::from_str("queue-add only supports spotify:track: URIs, got: ");
                m.append(uri.as_str());
                m
            },
            QueueError::InvalidUri { uri, error } => {
                let mut m = String::from_str("Invalid track URI '");
                m.append(uri.as_str());
                m.append("': ");
                m.append(id_error_name_str(*error));
                m
            },
            QueueError::AddFailed { uri, detail } => {
                let mut m = String::from_str("Failed to add '");
                m.append(uri.as_str());
                m.append("' to queue: ");
                m.append(detail.as_str());
                m
            },
        }
    }
}

/// Whether `queue-add` adds the URI `uris[i]`: it is a track URI that
/// rspotify accepts.
pub open spec fn queues_track(uris: Seq<Seq<char>>, i: int) -> bool {
    &&& "spotify:track:"@.is_prefix_of(uris[i])
    &&& uri_id(uris[i], IdKind::Track.uri_type()) is Ok
}

/// The run, and what to do next, after `queue-add` began and `k` tracks were
/// added one after the other.
pub open spec fn queue_after(uris: Seq<Seq<char>>, k: nat) -> (QueueRun, QueueActionView)
    decreases k,
{
    if k == 0 {
        queue_transition(uris, QueueRun { next: 0, queued: 0 }, QueueEventView::Begin)
    } else {
        queue_transition(uris, queue_after(uris, (k - 1) as nat).0, QueueEventView::Added)
    }
}

/// While the URIs before index `k` are all track URIs, `queue-add` asks to add
/// them one by one in order: after `k` additions it has looked at `k` URIs,
/// counts `k` tracks, and does next what `uris[k]` calls for.
pub proof fn queue_progress(uris: Seq<Seq<char>>, k: nat)
    requires
        k <= uris.len() <= usize::MAX,
        forall|i: int| 0 <= i < k ==> queues_track(uris, i),
    ensures
        queue_after(uris, k) == (QueueRun { next: k as usize, queued: k as usize }, queue_decision(
            uris,
            k as usize,
            k as usize,
        )),
    decreases k,
{
    if k > 0 {
        queue_progress(uris, (k - 1) as nat);
    }
}

/// Before looking at `uris[k]`, `queue-add` has asked to add the track of
/// every URI before it, each once and in order.
pub proof fn queue_adds_in_order(uris: Seq<Seq<char>>, k: nat, i: nat)
    requires
        i < k <= uris.len() <= usize::MAX,
        forall|j: int| 0 <= j < k ==> queues_track(uris, j),
    ensures
        queue_after(uris, i).1 == (QueueActionView::AddTrack {
            index: i as usize,
            track_id: uri_id(uris[i as int], IdKind::Track.uri_type())->Ok_0,
        }),
{
    queue_progress(uris, i);
    assert(queues_track(uris, i as int));
}

/// When every URI is a track URI, `queue-add` reports as many queued tracks as
/// it was given URIs.
pub proof fn queue_reports_every_uri(uris: Seq<Seq<char>>)
    requires
        uris.len() <= usize::MAX,
        forall|i: int| 0 <= i < uris.len() ==> queues_track(uris, i),
    ensures
        queue_after(uris, uris.len()).1 == (QueueActionView::Report { queued: uris.len() as usize }),
{
    queue_progress(uris, uris.len());
}

/// `queue-add` stops at the first URI that is not an accepted track URI, after
/// adding exactly the tracks before it.
pub proof fn queue_stops_at_first_refusal(uris: Seq<Seq<char>>, k: nat)
    requires
        k < uris.len() <= usize::MAX,
        forall|i: int| 0 <= i < k ==> queues_track(uris, i),
        !queues_track(uris, k as int),
    ensures
        queue_after(uris, k).0 == (QueueRun { next: k as usize, queued: k as usize }),
        queue_after(uris, k).1 is Stop,
{
    queue_progress(uris, k);
}

} // verus!
