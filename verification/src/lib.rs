//! The decision-making core of a bridge between a headset's hardware
//! game/chat mixer and the virtual audio sinks of the host.
//!
//! Everything here works on plain values. The caller does the talking to the
//! hardware and to the audio system, and hands over what it read.

use vstd::prelude::*;

pub mod chatmix;
pub mod device;
pub mod error;
pub mod session;
pub mod supervisor;
pub mod text;

verus! {

/// Name under which the game-side virtual sink is published.
pub const GAME_SINK_NAME: &'static str = "NonarGame";

/// Name under which the chat-side virtual sink is published.
pub const CHAT_SINK_NAME: &'static str = "NonarChat";

} // verus!
