//! Audio routing: which output the two virtual sinks feed, and how a pair of
//! volumes reaches them.
//!
//! A backend decides; it does not act. It is built from what the audio system
//! reported, and answers a pair of volumes with the two requests that the
//! caller has to carry out.

use crate::error::ChatMixError;
use crate::{CHAT_SINK_NAME, GAME_SINK_NAME};
use vstd::prelude::*;

pub mod linux;
pub mod listing;
pub mod macos;

verus! {

/// One of the two virtual sinks.
#[derive(Debug, Clone, Copy, PartialEq, Eq, Structural)]
pub enum Sink {
    Game,
    Chat,
}

impl Sink {
    /// The name under which the sink is published.
    pub open spec fn spec_name(self) -> &'static str {
        match self {
            Sink::Game => GAME_SINK_NAME,
            Sink::Chat => CHAT_SINK_NAME,
        }
    }

    /// The name under which the sink is published.
    pub fn name(self) -> (r: &'static str)
        ensures
            r == self.spec_name(),
    {
        match self {
            Sink::Game => GAME_SINK_NAME,
            Sink::Chat => CHAT_SINK_NAME,
        }
    }
}

/// The physical output of a session and the two virtual sinks in front of it.
#[derive(Debug, Clone, Copy, PartialEq, Eq)]
pub struct SinkNames {
    pub output: &'static str,
    pub game: &'static str,
    pub chat: &'static str,
}

impl SinkNames {
    /// The names for a session on `output`.
    pub fn new(output: &'static str) -> (r: SinkNames)
        ensures
            r.output == output,
            r.game == GAME_SINK_NAME,
            r.chat == CHAT_SINK_NAME,
    {
        SinkNames { output, game: GAME_SINK_NAME, chat: CHAT_SINK_NAME }
    }

    /// The name of one of the two virtual sinks.
    pub fn sink(&self, sink: Sink) -> (r: &'static str)
        ensures
            r == match sink {
                Sink::Game => self.game,
                Sink::Chat => self.chat,
            },
    {
        match sink {
            Sink::Game => self.game,
            Sink::Chat => self.chat,
        }
    }
}

/// What an audio routing backend decides, whatever the audio system is.
pub trait ChatMixBackend: Sized {
    /// What the audio system reported when it was asked what it holds.
    type Inventory: ?Sized;

    /// One operation that sets the volume of one sink.
    type Request;

    /// `request` sets the volume of `sink` to `percent` percent.
    spec fn sets(&self, request: &Self::Request, sink: Sink, percent: u8) -> bool;

    /// Resolves the sinks of a session on `output_name` against what the
    /// audio system holds.
    fn new(output_name: &'static str, inventory: &Self::Inventory) -> Result<Self, ChatMixError>;

    /// The requests that bring the game sink to `game` percent and the chat
    /// sink to `chat` percent, game first.
    fn set_volumes(&self, game: u8, chat: u8) -> (r: (Self::Request, Self::Request))
        ensures
            self.sets(&r.0, Sink::Game, game),
            self.sets(&r.1, Sink::Chat, chat),
    ;

    /// Whether the chat request is still issued after the game request has
    /// failed.
    spec fn spec_attempts_both() -> bool;

    /// Whether the chat request is still issued after the game request has
    /// failed.
    fn attempts_both() -> (r: bool)
        ensures
            r == Self::spec_attempts_both(),
    ;
}

/// Whether the chat request of backend `B` is to be issued, now that its game
/// request has ended as `game`.
pub fn chat_request_due<B: ChatMixBackend>(game: &Result<(), ChatMixError>) -> (r: bool)
    ensures
        r == (game is Ok || B::spec_attempts_both()),
{
    game.is_ok() || B::attempts_both()
}

/// What `set_volumes` comes to, from how its requests ended. `chat` is `None`
/// when the chat request was not issued. The first failure is the one
/// reported.
pub fn volumes_result(
    game: Result<(), ChatMixError>,
    chat: Option<Result<(), ChatMixError>>,
) -> (r: Result<(), ChatMixError>)
    ensures
        r == match (game, chat) {
            (Err(e), _) => Err(e),
            (Ok(_), Some(Err(e))) => Err(e),
            _ => Ok(()),
        },
{
    match game {
        Err(e) => Err(e),
        Ok(_) => match chat {
            Some(Err(e)) => Err(e),
            _ => Ok(()),
        },
    }
}

} // verus!
