//! Core of a Discord voice-music bot: per-guild voice-session lifecycle
//! and the decision logic of the five chat commands (join, leave, queue,
//! skip, stop).
//!
//! The library is the pure orchestration layer. It owns the model of the
//! state — which guild is connected to which voice channel, and the FIFO
//! playback queue of each session — and decides, for every command, how
//! that state changes, which instruction the voice transport must be
//! given, and which reply the user is owed. The gateway connection, the
//! voice transport itself and the audio-source resolver are external
//! collaborators: the surrounding binary performs the instructions this
//! library hands out and feeds their outcomes back in.

pub mod commands;
pub mod observer;
pub mod registry;
pub mod session;
