//! The five chat commands. Each handler takes the parsed invocation,
//! decides against the registry, and returns the reply the user is owed
//! together with the instruction (if any) the voice transport must be
//! given. The caller performs that instruction and sends the reply; for
//! `join`, whose transport connect can fail, the handler is split into
//! a decision and a completion that takes the connect outcome.

use vstd::pervasive::unreached;
use vstd::prelude::*;
use vstd::string::StrSliceExecFns;

use crate::registry::{join_transition, VoiceSessionRegistry};
use crate::session::{
    enqueue_transition, skip_transition, stop_transition, AudioSource, SessionModel, SourceKind,
    Track,
};

verus! {

/// Which of the five commands an invocation asks for.
#[derive(Clone, Copy, PartialEq, Eq, Structural, Debug)]
pub enum CommandName {
    Join,
    Leave,
    Queue,
    Skip,
    Stop,
}

/// A parsed command invocation: the acting user, the guild it acts in,
/// the command, and its string argument (the locator, for `queue`).
/// Ephemeral: nothing of it is persisted.
#[derive(Debug)]
pub struct CommandInvocation {
    pub user: u64,
    pub guild: u64,
    pub name: CommandName,
    pub arg: Option<String>,
}

/// An instruction to the external voice transport, handed back to the
/// caller to perform after the registry has changed.
#[derive(Debug)]
pub enum TransportAction {
    /// Tear the guild's voice connection down.
    Disconnect { guild: u64 },
    /// Hand this source to the resolver and append it to the guild's
    /// live playback.
    EnqueueSource { guild: u64, source: AudioSource },
    /// The queued head was removed: begin the next track.
    AdvanceTrack { guild: u64 },
    /// Halt the current playback; the queue is already empty.
    HaltPlayback { guild: u64 },
}

/// The reply a command owes the user. Wording lives in `text`.
#[derive(Clone, Copy, PartialEq, Eq, Structural, Debug)]
pub enum Reply {
    /// `join` succeeded.
    Joined,
    /// The transport could not reach the requested channel.
    JoinFailed,
    /// `join` found the guild already connected.
    AlreadyConnected,
    /// The caller is in no voice channel (`join`), or the guild has no
    /// session (`leave`).
    NotInVoiceChannel,
    /// `leave` succeeded.
    LeftChannel,
    /// `queue` appended a source.
    Queued,
    /// `skip` ran (also on an empty queue, where it is a no-op).
    Skipped,
    /// `stop` emptied the queue.
    Stopped,
    /// A playback command found no session for the guild.
    NotConnectedToPlay,
}

/// What a finished command hands back: the reply to send and the
/// transport instruction, if any, to perform.
#[derive(Debug)]
pub struct CommandOutcome {
    pub reply: Reply,
    pub action: Option<TransportAction>,
}

/// What `join` decided before any transport work.
#[derive(Clone, Copy, PartialEq, Eq, Structural, Debug)]
pub enum JoinDecision {
    /// The caller is in no voice channel of the guild: reply, touch
    /// nothing.
    RefuseNoChannel,
    /// The guild already has a session: reply, touch nothing.
    RefuseAlreadyConnected,
    /// Attempt a transport connect to this channel, then report the
    /// outcome through `join_complete`.
    Proceed { channel: u64 },
}

/// A locator that begins with "http" is fetched directly as a URL.
pub open spec fn is_direct_locator(s: Seq<char>) -> bool {
    s.len() >= 4 && s[0] == 'h' && s[1] == 't' && s[2] == 't' && s[3] == 'p'
}

/// The resolution path `queue` chooses for a locator: a direct fetch
/// for a URL, a search for any other text.
pub open spec fn classify_spec(s: Seq<char>) -> SourceKind {
    if is_direct_locator(s) {
        SourceKind::Direct
    } else {
        SourceKind::Search
    }
}

/// The track a successful `queue` of `url` appends.
pub open spec fn queued_track(url: Seq<char>) -> Track {
    (Track { kind: classify_spec(url), locator: url })
}

/// Decides the resolution path for a locator: direct fetch if and only
/// if the text begins with "http"; otherwise it is a search query.
pub fn classify_locator(url: &str) -> (kind: SourceKind)
    ensures
        kind == classify_spec(url@),
{
    let n: usize = url.unicode_len();
    if n >= 4 && url.get_char(0) == 'h' && url.get_char(1) == 't' && url.get_char(2) == 't'
        && url.get_char(3) == 'p' {
        SourceKind::Direct
    } else {
        SourceKind::Search
    }
}

impl Reply {
    /// The wording of each reply.
    pub open spec fn text_spec(self) -> Seq<char> {
        match self {
            Reply::Joined => "Hiiiiiii!!!!"@,
            Reply::JoinFailed => "Failed to join the voice channel"@,
            Reply::AlreadyConnected => "Already in a voice channel"@,
            Reply::NotInVoiceChannel => "Not in a voice channel"@,
            Reply::LeftChannel => "Left voice channel"@,
            Reply::Queued => "Queued song"@,
            Reply::Skipped => "Skipped"@,
            Reply::Stopped => "Stopped"@,
            Reply::NotConnectedToPlay => "Not in a voice channel to play in"@,
        }
    }

    /// The reply as the message text to send.
    pub fn text(&self) -> (r: String)
        ensures
            r@ == self.text_spec(),
    {
        match self {
            Reply::Joined => "Hiiiiiii!!!!".to_owned(),
            Reply::JoinFailed => "Failed to join the voice channel".to_owned(),
            Reply::AlreadyConnected => "Already in a voice channel".to_owned(),
            Reply::NotInVoiceChannel => "Not in a voice channel".to_owned(),
            Reply::LeftChannel => "Left voice channel".to_owned(),
            Reply::Queued => "Queued song".to_owned(),
            Reply::Skipped => "Skipped".to_owned(),
            Reply::Stopped => "Stopped".to_owned(),
            Reply::NotConnectedToPlay => "Not in a voice channel to play in".to_owned(),
        }
    }
}

/// The provisional acknowledgment a command sends before its possibly
/// long-running work, later edited to the final reply. `join` and
/// `leave` reply only once, at the end.
pub open spec fn working_ack_spec(name: CommandName) -> Option<Seq<char>> {
    match name {
        CommandName::Join => None,
        CommandName::Leave => None,
        CommandName::Queue => Some("Fetching..."@),
        CommandName::Skip => Some("Skipping..."@),
        CommandName::Stop => Some("Stopping..."@),
    }
}

/// The provisional acknowledgment to send for a command, if it sends
/// one.
pub fn working_ack(name: &CommandName) -> (r: Option<String>)
    ensures
        match r {
            Some(s) => working_ack_spec(*name) == Some(s@),
            None => working_ack_spec(*name) is None,
        },
{
    match name {
        CommandName::Join => None,
        CommandName::Leave => None,
        CommandName::Queue => Some("Fetching...".to_owned()),
        CommandName::Skip => Some("Skipping...".to_owned()),
        CommandName::Stop => Some("Stopping...".to_owned()),
    }
}

impl JoinDecision {
    /// The refusal reply owed to the user, if the decision refused.
    /// `Proceed` owes none yet: the transport connect outcome decides
    /// it, through `join_complete`.
    pub fn refusal_reply(&self) -> (r: Option<Reply>)
        ensures
            match *self {
                JoinDecision::RefuseNoChannel => r == Some(Reply::NotInVoiceChannel),
                JoinDecision::RefuseAlreadyConnected => r == Some(Reply::AlreadyConnected),
                JoinDecision::Proceed { .. } => r is None,
            },
    {
        match self {
            JoinDecision::RefuseNoChannel => Some(Reply::NotInVoiceChannel),
            JoinDecision::RefuseAlreadyConnected => Some(Reply::AlreadyConnected),
            JoinDecision::Proceed { .. } => None,
        }
    }
}

/// `join`: refuses when the caller is in no voice channel or the guild
/// is already connected; otherwise asks the caller to attempt the
/// transport connect to the caller's channel. Touches nothing itself.
pub fn join(
    registry: &VoiceSessionRegistry,
    invocation: &CommandInvocation,
    caller_channel: Option<u64>,
) -> (r: JoinDecision)
    requires
        invocation.name is Join,
    ensures
        match caller_channel {
            None => r == JoinDecision::RefuseNoChannel,
            Some(channel) => if registry@.contains_key(invocation.guild) {
                r == JoinDecision::RefuseAlreadyConnected
            } else {
                r == (JoinDecision::Proceed { channel })
            },
        },
{
    match caller_channel {
        None => JoinDecision::RefuseNoChannel,
        Some(channel) => {
            if registry.contains(invocation.guild) {
                JoinDecision::RefuseAlreadyConnected
            } else {
                JoinDecision::Proceed { channel }
            }
        },
    }
}

/// Completes a `join` whose connect was attempted: on success stores
/// the session (unless a concurrent `join` won the race) and owes the
/// caller the attachment of the track-error observer; on failure the
/// registry is unchanged and the user is owed a failure reply.
pub fn join_complete(
    registry: &mut VoiceSessionRegistry,
    guild: u64,
    channel: u64,
    established: bool,
) -> (r: Reply)
    requires
        old(registry).wf(),
    ensures
        final(registry).wf(),
        !established ==> final(registry)@ == old(registry)@ && r == Reply::JoinFailed,
        established && old(registry)@.contains_key(guild) ==> final(registry)@ == old(registry)@
            && r == Reply::AlreadyConnected,
        established && !old(registry)@.contains_key(guild) ==> final(registry)@ == join_transition(
            old(registry)@,
            guild,
            channel,
        ) && r == Reply::Joined,
{
    if established {
        match registry.join(guild, channel) {
            Ok(()) => Reply::Joined,
            Err(_) => Reply::AlreadyConnected,
        }
    } else {
        Reply::JoinFailed
    }
}

/// `leave`: with no session for the guild, replies and performs no
/// transport call; otherwise deletes the entry unconditionally and
/// instructs the transport to tear the connection down.
pub fn leave(registry: &mut VoiceSessionRegistry, invocation: &CommandInvocation) -> (r:
    CommandOutcome)
    requires
        old(registry).wf(),
        invocation.name is Leave,
    ensures
        final(registry).wf(),
        !old(registry)@.contains_key(invocation.guild) ==> final(registry)@ == old(registry)@
            && r.reply == Reply::NotInVoiceChannel && r.action is None,
        old(registry)@.contains_key(invocation.guild) ==> final(registry)@ == old(
            registry,
        )@.remove(invocation.guild) && r.reply == Reply::LeftChannel && r.action == Some(
            (TransportAction::Disconnect { guild: invocation.guild }),
        ),
{
    let guild = invocation.guild;
    match registry.remove(guild) {
        Ok(()) => CommandOutcome {
            reply: Reply::LeftChannel,
            action: Some(TransportAction::Disconnect { guild }),
        },
        Err(_) => CommandOutcome { reply: Reply::NotInVoiceChannel, action: None },
    }
}

/// `queue`: with no session for the guild, replies and touches
/// nothing. Otherwise classifies the locator — direct fetch if and only
/// if it begins with "http", a search otherwise — appends exactly one
/// source at the tail of the guild's playback queue, and hands the same
/// source to the transport. Resolution failures surface later, on the
/// session, not here.
pub fn queue(registry: &mut VoiceSessionRegistry, invocation: CommandInvocation) -> (r:
    CommandOutcome)
    requires
        old(registry).wf(),
        invocation.name is Queue,
        invocation.arg is Some,
    ensures
        final(registry).wf(),
        match invocation.arg {
            Some(url) => {
                &&& (old(registry)@.contains_key(invocation.guild) ==> {
                    &&& final(registry)@ == old(registry)@.insert(
                        invocation.guild,
                        (SessionModel {
                            playback: enqueue_transition(
                                old(registry)@[invocation.guild].playback,
                                queued_track(url@),
                            ),
                            ..old(registry)@[invocation.guild]
                        }),
                    )
                    &&& r.reply == Reply::Queued
                    &&& (r.action matches Some(TransportAction::EnqueueSource { guild, source })
                        && guild == invocation.guild && source@ == queued_track(url@))
                })
                &&& (!old(registry)@.contains_key(invocation.guild) ==> final(registry)@ == old(
                    registry,
                )@ && r.reply == Reply::NotConnectedToPlay && r.action is None)
            },
            None => false,
        },
{
    let guild = invocation.guild;
    let url: String = match invocation.arg {
        Some(u) => u,
        None => unreached(),
    };
    let locator_echo: String = url.clone();
    let kind = classify_locator(url.as_str());
    let source = AudioSource { kind, locator: url };
    match registry.append_source(guild, source) {
        Ok(()) => CommandOutcome {
            reply: Reply::Queued,
            action: Some(
                TransportAction::EnqueueSource {
                    guild,
                    source: AudioSource { kind, locator: locator_echo },
                },
            ),
        },
        Err(_) => CommandOutcome { reply: Reply::NotConnectedToPlay, action: None },
    }
}

/// `skip`: with no session for the guild, replies and touches nothing.
/// With an empty queue it is a no-op — no error, and no transport call.
/// With a non-empty queue it removes exactly the current head and tells
/// the transport to begin the next track.
pub fn skip(registry: &mut VoiceSessionRegistry, invocation: &CommandInvocation) -> (r:
    CommandOutcome)
    requires
        old(registry).wf(),
        invocation.name is Skip,
    ensures
        final(registry).wf(),
        !old(registry)@.contains_key(invocation.guild) ==> final(registry)@ == old(registry)@
            && r.reply == Reply::NotConnectedToPlay && r.action is None,
        old(registry)@.contains_key(invocation.guild) ==> {
            &&& final(registry)@ == old(registry)@.insert(
                invocation.guild,
                (SessionModel {
                    playback: skip_transition(old(registry)@[invocation.guild].playback),
                    ..old(registry)@[invocation.guild]
                }),
            )
            &&& r.reply == Reply::Skipped
            &&& (old(registry)@[invocation.guild].playback.len() > 0 ==> r.action == Some(
                (TransportAction::AdvanceTrack { guild: invocation.guild }),
            ))
            &&& (old(registry)@[invocation.guild].playback.len() == 0 ==> r.action is None)
        },
{
    let guild = invocation.guild;
    match registry.skip_head(guild) {
        Ok(advanced) => {
            if advanced {
                CommandOutcome {
                    reply: Reply::Skipped,
                    action: Some(TransportAction::AdvanceTrack { guild }),
                }
            } else {
                CommandOutcome { reply: Reply::Skipped, action: None }
            }
        },
        Err(_) => CommandOutcome { reply: Reply::NotConnectedToPlay, action: None },
    }
}

/// `stop`: with no session for the guild, replies and touches nothing.
/// Otherwise empties the guild's playback queue entirely — whatever its
/// prior length, including zero — and tells the transport to halt the
/// current playback.
pub fn stop(registry: &mut VoiceSessionRegistry, invocation: &CommandInvocation) -> (r:
    CommandOutcome)
    requires
        old(registry).wf(),
        invocation.name is Stop,
    ensures
        final(registry).wf(),
        !old(registry)@.contains_key(invocation.guild) ==> final(registry)@ == old(registry)@
            && r.reply == Reply::NotConnectedToPlay && r.action is None,
        old(registry)@.contains_key(invocation.guild) ==> {
            &&& final(registry)@ == old(registry)@.insert(
                invocation.guild,
                (SessionModel {
                    playback: stop_transition(old(registry)@[invocation.guild].playback),
                    ..old(registry)@[invocation.guild]
                }),
            )
            &&& final(registry)@[invocation.guild].playback.len() == 0
            &&& r.reply == Reply::Stopped
            &&& r.action == Some((TransportAction::HaltPlayback { guild: invocation.guild }))
        },
{
    let guild = invocation.guild;
    match registry.clear_queue(guild) {
        Ok(()) => CommandOutcome {
            reply: Reply::Stopped,
            action: Some(TransportAction::HaltPlayback { guild }),
        },
        Err(_) => CommandOutcome { reply: Reply::NotConnectedToPlay, action: None },
    }
}

} // verus!
