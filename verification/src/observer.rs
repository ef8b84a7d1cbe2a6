//! The track-error observer: a passive monitoring hook the transport
//! fires when a playing track reports an error. It turns the event's
//! track list into log records — one per track, carrying the track's
//! identifier and playback state — and nothing else: it never mutates a
//! session and never issues a corrective instruction.

use vstd::prelude::*;

verus! {

/// The playback state the transport reports for a track.
#[derive(Clone, Copy, PartialEq, Eq, Structural, Debug)]
pub enum PlayStatus {
    Playing,
    Paused,
    Stopped,
    Ended,
    Errored,
}

/// What the transport reports about one track when an error event
/// fires: the track's identifier and its playback state at that
/// moment.
#[derive(Clone, Copy, PartialEq, Eq, Structural, Debug)]
pub struct TrackSnapshot {
    pub track: u128,
    pub status: PlayStatus,
}

/// One record the observer asks the caller to log.
#[derive(Clone, Copy, PartialEq, Eq, Structural, Debug)]
pub struct TrackLogRecord {
    pub track: u128,
    pub status: PlayStatus,
}

/// Observes a track-error event: one log record per reported track, in
/// the event's order, each carrying exactly that track's identifier
/// and state. Purely observational — no session state is touched and
/// no corrective instruction is returned.
pub fn observe_track_errors(tracks: &Vec<TrackSnapshot>) -> (records: Vec<TrackLogRecord>)
    ensures
        records@.len() == tracks@.len(),
        forall|i: int|
            0 <= i < tracks@.len() ==> (#[trigger] records@[i]) == (TrackLogRecord {
                track: tracks@[i].track,
                status: tracks@[i].status,
            }),
{
    let mut records: Vec<TrackLogRecord> = Vec::new();
    let mut i: usize = 0;
    while i < tracks.len()
        invariant
            0 <= i <= tracks@.len(),
            records@.len() == i,
            forall|j: int|
                0 <= j < i ==> (#[trigger] records@[j]) == (TrackLogRecord {
                    track: tracks@[j].track,
                    status: tracks@[j].status,
                }),
        decreases tracks@.len() - i,
    {
        let snapshot = tracks[i];
        records.push(TrackLogRecord { track: snapshot.track, status: snapshot.status });
        i = i + 1;
    }
    records
}

} // verus!
