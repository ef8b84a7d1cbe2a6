//! One guild's voice session: the channel it is bound to and its FIFO
//! playback queue of audio sources.

use vstd::prelude::*;

verus! {

/// How the audio-source resolver is to treat a locator: fetch it
/// directly as a URL, or use the text as a search query.
#[derive(Clone, Copy, PartialEq, Eq, Structural, Debug)]
pub enum SourceKind {
    Direct,
    Search,
}

/// Mathematical model of one queued audio source.
#[verifier::ext_equal]
pub struct Track {
    pub kind: SourceKind,
    pub locator: Seq<char>,
}

/// An audio-source descriptor awaiting playback: the locator text the
/// user supplied, together with the resolution path chosen for it.
#[derive(Debug)]
pub struct AudioSource {
    pub kind: SourceKind,
    pub locator: String,
}

impl View for AudioSource {
    type V = Track;

    open spec fn view(&self) -> Track {
        (Track { kind: self.kind, locator: self.locator@ })
    }
}

/// Mathematical model of one voice session.
#[verifier::ext_equal]
pub struct SessionModel {
    pub guild: u64,
    pub channel: u64,
    pub playback: Seq<Track>,
}

/// One active voice connection: the owning guild, the voice channel
/// joined, and the ordered playback queue of pending sources.
pub struct VoiceSession {
    pub guild: u64,
    pub channel: u64,
    pub playback: Vec<AudioSource>,
}

impl View for VoiceSession {
    type V = SessionModel;

    open spec fn view(&self) -> SessionModel {
        (SessionModel {
            guild: self.guild,
            channel: self.channel,
            playback: self.playback@.map_values(|s: AudioSource| s@),
        })
    }
}

/// What `queue` does to a playback queue: appends the new track at the
/// tail, leaving every earlier track in place.
pub open spec fn enqueue_transition(q: Seq<Track>, t: Track) -> Seq<Track> {
    q.push(t)
}

/// What `skip` does to a playback queue: removes the current head if
/// there is one, and leaves an empty queue alone.
pub open spec fn skip_transition(q: Seq<Track>) -> Seq<Track> {
    if q.len() == 0 {
        q
    } else {
        q.drop_first()
    }
}

/// What `stop` does to a playback queue: empties it, whatever its
/// prior length.
pub open spec fn stop_transition(q: Seq<Track>) -> Seq<Track> {
    Seq::<Track>::empty()
}

impl VoiceSession {
    /// A fresh session for `guild` bound to `channel`, with nothing
    /// queued yet.
    pub fn new(guild: u64, channel: u64) -> (s: VoiceSession)
        ensures
            s@ == (SessionModel { guild, channel, playback: Seq::<Track>::empty() }),
    {
        let s = VoiceSession { guild, channel, playback: Vec::new() };
        proof {
            assert(s@.playback =~= Seq::<Track>::empty());
            assert(s@ =~= (SessionModel { guild, channel, playback: Seq::<Track>::empty() }));
        }
        s
    }

    /// Appends one source at the tail of the playback queue.
    pub fn enqueue(&mut self, source: AudioSource)
        ensures
            final(self)@ == (SessionModel {
                playback: enqueue_transition(old(self)@.playback, source@),
                ..old(self)@
            }),
    {
        let ghost source_model = source@;
        self.playback.push(source);
        proof {
            assert(self@.playback =~= enqueue_transition(old(self)@.playback, source_model));
            assert(self@ =~= (SessionModel {
                playback: enqueue_transition(old(self)@.playback, source_model),
                ..old(self)@
            }));
        }
    }

    /// Removes the current head of the playback queue, if any; reports
    /// whether a head existed (so that the transport must be told to
    /// advance). On an empty queue this is a no-op.
    pub fn skip_head(&mut self) -> (advanced: bool)
        ensures
            final(self)@ == (SessionModel {
                playback: skip_transition(old(self)@.playback),
                ..old(self)@
            }),
            advanced == (old(self)@.playback.len() > 0),
    {
        if self.playback.len() > 0 {
            self.playback.remove(0);
            proof {
                assert(self@.playback =~= skip_transition(old(self)@.playback));
                assert(self@ =~= (SessionModel {
                    playback: skip_transition(old(self)@.playback),
                    ..old(self)@
                }));
            }
            true
        } else {
            proof {
                assert(self@ =~= (SessionModel {
                    playback: skip_transition(old(self)@.playback),
                    ..old(self)@
                }));
            }
            false
        }
    }

    /// Empties the playback queue entirely, whatever its prior length.
    pub fn clear(&mut self)
        ensures
            final(self)@ == (SessionModel {
                playback: stop_transition(old(self)@.playback),
                ..old(self)@
            }),
    {
        self.playback = Vec::new();
        proof {
            assert(self@.playback =~= stop_transition(old(self)@.playback));
            assert(self@ =~= (SessionModel {
                playback: stop_transition(old(self)@.playback),
                ..old(self)@
            }));
        }
    }

    /// Number of sources currently queued.
    pub fn queue_len(&self) -> (n: usize)
        ensures
            n == self@.playback.len(),
    {
        self.playback.len()
    }

    /// The queued sources, head first.
    pub fn sources(&self) -> (v: &Vec<AudioSource>)
        ensures
            v@.map_values(|s: AudioSource| s@) == self@.playback,
    {
        &self.playback
    }
}

/// The playback queue is FIFO: `queue` appends exactly one track at the
/// tail, every earlier track keeps its position, and two sequential
/// `queue` calls land in call order.
pub proof fn lemma_queue_fifo(q: Seq<Track>, a: Track, b: Track)
    ensures
        enqueue_transition(q, a).len() == q.len() + 1,
        enqueue_transition(q, a)[q.len() as int] == a,
        forall|i: int| 0 <= i < q.len() ==> enqueue_transition(q, a)[i] == q[i],
        enqueue_transition(enqueue_transition(q, a), b) == q.push(a).push(b),
{
}

/// `skip` on a non-empty queue removes exactly the current head: the
/// rest of the queue survives in order. On an empty queue it changes
/// nothing.
pub proof fn lemma_skip_removes_head(q: Seq<Track>)
    ensures
        q.len() == 0 ==> skip_transition(q) == q,
        q.len() > 0 ==> skip_transition(q).len() == q.len() - 1,
        q.len() > 0 ==> forall|i: int| 0 <= i < q.len() - 1 ==> skip_transition(q)[i] == q[i + 1],
{
}

/// `stop` empties the queue regardless of its prior length, including
/// zero.
pub proof fn lemma_stop_empties(q: Seq<Track>)
    ensures
        stop_transition(q).len() == 0,
        stop_transition(q) == Seq::<Track>::empty(),
{
}

/// A `queue` and a `stop` against the same session never interleave:
/// each holds the session for its whole read-modify-write, so any
/// concurrent pair is equal to one of the two serial orders. Whichever
/// order runs, the final queue is either empty (`stop` last) or exactly
/// the one new track (`stop` first) — never a partially-applied mix.
pub proof fn lemma_queue_stop_serialize(q: Seq<Track>, t: Track)
    ensures
        stop_transition(enqueue_transition(q, t)) == Seq::<Track>::empty(),
        enqueue_transition(stop_transition(q), t) == seq![t],
{
    assert(enqueue_transition(stop_transition(q), t) =~= seq![t]);
}

} // verus!
