//! The voice-session registry: maps each guild to its single active
//! voice session. Created on `join`, removed on `leave`; the map itself
//! is the only cross-guild shared state of the bot.

use std::collections::HashMap;

use vstd::prelude::*;

use crate::session::{
    enqueue_transition, skip_transition, stop_transition, AudioSource, SessionModel, Track,
    VoiceSession,
};

verus! {

broadcast use vstd::std_specs::hash::group_hash_axioms;

/// Why a registry operation refused to act.
#[derive(Clone, Copy, PartialEq, Eq, Structural, Debug)]
pub enum RegistryError {
    /// `join` found a live session for the guild already.
    AlreadyConnected,
    /// The command needs a session for the guild and none exists.
    NotConnected,
}

/// What `join` does to the registry once the transport has established
/// the connection: stores a fresh session for the guild, unless one
/// already exists, in which case nothing changes.
pub open spec fn join_transition(
    m: Map<u64, SessionModel>,
    guild: u64,
    channel: u64,
) -> Map<u64, SessionModel> {
    if m.contains_key(guild) {
        m
    } else {
        m.insert(guild, (SessionModel { guild, channel, playback: Seq::<Track>::empty() }))
    }
}

/// Maps each guild to its active voice session. At most one session
/// exists per guild at any time: the guild is the key of the map.
pub struct VoiceSessionRegistry {
    sessions: HashMap<u64, VoiceSession>,
}

impl View for VoiceSessionRegistry {
    type V = Map<u64, SessionModel>;

    closed spec fn view(&self) -> Map<u64, SessionModel> {
        self.sessions@.map_values(|s: VoiceSession| s@)
    }
}

impl VoiceSessionRegistry {
    /// Every stored session is keyed by its own guild.
    pub open spec fn wf(&self) -> bool {
        forall|g: u64| self@.contains_key(g) ==> (#[trigger] self@[g]).guild == g
    }

    /// An empty registry: no guild is connected.
    pub fn new() -> (r: VoiceSessionRegistry)
        ensures
            r@ == Map::<u64, SessionModel>::empty(),
            r.wf(),
    {
        let r = VoiceSessionRegistry { sessions: HashMap::new() };
        proof {
            assert(r@ =~= Map::<u64, SessionModel>::empty());
        }
        r
    }

    /// Pure lookup: the session for `guild`, if one exists. No side
    /// effect.
    pub fn get(&self, guild: u64) -> (r: Option<&VoiceSession>)
        ensures
            match r {
                Some(s) => self@.contains_key(guild) && s@ == self@[guild],
                None => !self@.contains_key(guild),
            },
    {
        self.sessions.get(&guild)
    }

    /// Whether a session exists for `guild`.
    pub fn contains(&self, guild: u64) -> (r: bool)
        ensures
            r == self@.contains_key(guild),
    {
        self.sessions.contains_key(&guild)
    }

    /// Stores a fresh session for `guild` bound to `channel`. Refuses —
    /// changing nothing — if the guild already has one, so that at most
    /// one session per guild can ever exist.
    pub fn join(&mut self, guild: u64, channel: u64) -> (r: Result<(), RegistryError>)
        requires
            old(self).wf(),
        ensures
            final(self).wf(),
            final(self)@ == join_transition(old(self)@, guild, channel),
            match r {
                Ok(()) => !old(self)@.contains_key(guild),
                Err(e) => e == RegistryError::AlreadyConnected && old(self)@.contains_key(guild)
                    && final(self)@ == old(self)@,
            },
    {
        if self.sessions.contains_key(&guild) {
            Err(RegistryError::AlreadyConnected)
        } else {
            let session = VoiceSession::new(guild, channel);
            self.sessions.insert(guild, session);
            proof {
                assert(self@ =~= join_transition(old(self)@, guild, channel));
            }
            Ok(())
        }
    }

    /// Deletes the entry for `guild`; fails if none exists. The caller
    /// still owes the transport a teardown, but a teardown failure does
    /// not block removal: the entry is gone either way.
    pub fn remove(&mut self, guild: u64) -> (r: Result<(), RegistryError>)
        requires
            old(self).wf(),
        ensures
            final(self).wf(),
            match r {
                Ok(()) => old(self)@.contains_key(guild) && final(self)@ == old(self)@.remove(
                    guild,
                ),
                Err(e) => e == RegistryError::NotConnected && !old(self)@.contains_key(guild)
                    && final(self)@ == old(self)@,
            },
    {
        match self.sessions.remove(&guild) {
            Some(_) => {
                proof {
                    assert(self@ =~= old(self)@.remove(guild));
                }
                Ok(())
            },
            None => {
                proof {
                    assert(self@ =~= old(self)@);
                }
                Err(RegistryError::NotConnected)
            },
        }
    }

    /// Appends `source` at the tail of the guild's playback queue;
    /// fails — changing nothing — if the guild has no session.
    pub fn append_source(&mut self, guild: u64, source: AudioSource) -> (r: Result<
        (),
        RegistryError,
    >)
        requires
            old(self).wf(),
        ensures
            final(self).wf(),
            match r {
                Ok(()) => old(self)@.contains_key(guild) && final(self)@ == old(self)@.insert(
                    guild,
                    (SessionModel {
                        playback: enqueue_transition(old(self)@[guild].playback, source@),
                        ..old(self)@[guild]
                    }),
                ),
                Err(e) => e == RegistryError::NotConnected && !old(self)@.contains_key(guild)
                    && final(self)@ == old(self)@,
            },
    {
        let ghost source_model = source@;
        match self.sessions.remove(&guild) {
            Some(mut session) => {
                session.enqueue(source);
                self.sessions.insert(guild, session);
                proof {
                    assert(self@ =~= old(self)@.insert(
                        guild,
                        (SessionModel {
                            playback: enqueue_transition(old(self)@[guild].playback, source_model),
                            ..old(self)@[guild]
                        }),
                    ));
                }
                Ok(())
            },
            None => {
                proof {
                    assert(self@ =~= old(self)@);
                }
                Err(RegistryError::NotConnected)
            },
        }
    }

    /// Removes the head of the guild's playback queue if one exists;
    /// reports whether it did (`Ok(true)` means the transport must be
    /// told to advance). A session with an empty queue is left as it
    /// is; a guild without a session fails.
    pub fn skip_head(&mut self, guild: u64) -> (r: Result<bool, RegistryError>)
        requires
            old(self).wf(),
        ensures
            final(self).wf(),
            match r {
                Ok(advanced) => old(self)@.contains_key(guild) && advanced == (
                old(self)@[guild].playback.len() > 0) && final(self)@ == old(self)@.insert(
                    guild,
                    (SessionModel {
                        playback: skip_transition(old(self)@[guild].playback),
                        ..old(self)@[guild]
                    }),
                ),
                Err(e) => e == RegistryError::NotConnected && !old(self)@.contains_key(guild)
                    && final(self)@ == old(self)@,
            },
    {
        match self.sessions.remove(&guild) {
            Some(mut session) => {
                let advanced = session.skip_head();
                self.sessions.insert(guild, session);
                proof {
                    assert(self@ =~= old(self)@.insert(
                        guild,
                        (SessionModel {
                            playback: skip_transition(old(self)@[guild].playback),
                            ..old(self)@[guild]
                        }),
                    ));
                }
                Ok(advanced)
            },
            None => {
                proof {
                    assert(self@ =~= old(self)@);
                }
                Err(RegistryError::NotConnected)
            },
        }
    }

    /// Empties the guild's playback queue, whatever its prior length;
    /// fails — changing nothing — if the guild has no session.
    pub fn clear_queue(&mut self, guild: u64) -> (r: Result<(), RegistryError>)
        requires
            old(self).wf(),
        ensures
            final(self).wf(),
            match r {
                Ok(()) => old(self)@.contains_key(guild) && final(self)@ == old(self)@.insert(
                    guild,
                    (SessionModel {
                        playback: stop_transition(old(self)@[guild].playback),
                        ..old(self)@[guild]
                    }),
                ),
                Err(e) => e == RegistryError::NotConnected && !old(self)@.contains_key(guild)
                    && final(self)@ == old(self)@,
            },
    {
        match self.sessions.remove(&guild) {
            Some(mut session) => {
                session.clear();
                self.sessions.insert(guild, session);
                proof {
                    assert(self@ =~= old(self)@.insert(
                        guild,
                        (SessionModel {
                            playback: stop_transition(old(self)@[guild].playback),
                            ..old(self)@[guild]
                        }),
                    ));
                }
                Ok(())
            },
            None => {
                proof {
                    assert(self@ =~= old(self)@);
                }
                Err(RegistryError::NotConnected)
            },
        }
    }
}

/// At most one voice session exists per guild: once a `join` has stored
/// a session, any further `join` for the same guild — whatever channel
/// it asks for — changes the registry in no way.
pub proof fn lemma_join_at_most_one_session(
    m: Map<u64, SessionModel>,
    guild: u64,
    c1: u64,
    c2: u64,
)
    ensures
        join_transition(m, guild, c1).contains_key(guild),
        join_transition(join_transition(m, guild, c1), guild, c2) == join_transition(m, guild, c1),
{
}

/// Guilds are fully independent: a `join` for one guild neither adds,
/// removes nor alters any other guild's session.
pub proof fn lemma_guilds_independent(
    m: Map<u64, SessionModel>,
    guild: u64,
    other: u64,
    channel: u64,
)
    requires
        other != guild,
    ensures
        join_transition(m, guild, channel).contains_key(other) == m.contains_key(other),
        m.contains_key(other) ==> join_transition(m, guild, channel)[other] == m[other],
{
}

} // verus!
