//! The process-supervising backend: the two sinks are published by two
//! loopback helpers that feed the headset's output, and volumes are set
//! through the audio server's control tool.
//!
//! This module says which command lines are to be run. Running them, and
//! ending the helpers when the session is over, is the caller's part.

use crate::chatmix::listing::{resolve_output, resolved_output};
use crate::chatmix::{ChatMixBackend, Sink, SinkNames};
use crate::error::ChatMixError;
use crate::text::{decimal, decimal_u8, texts};
use vstd::prelude::*;
use vstd::string::StringSliceAdditionalSpecFns;

verus! {

/// The audio server's control tool.
pub const CMD_PACTL: &'static str = "pactl";

/// The loopback helper.
pub const CMD_PWLOOPBACK: &'static str = "pw-loopback";

/// A command line: the program and its arguments.
#[derive(Debug, PartialEq, Eq)]
pub struct Invocation {
    pub program: &'static str,
    pub args: Vec<Vec<u8>>,
}

impl Invocation {
    /// The arguments as texts.
    pub open spec fn words(&self) -> Seq<Seq<u8>> {
        texts(self.args@)
    }
}

/// The arguments that list the sinks, one per line.
pub open spec fn list_args() -> Seq<Seq<u8>> {
    seq!["list".spec_bytes(), "sinks".spec_bytes(), "short".spec_bytes()]
}

/// The arguments with which a loopback helper publishes the sink `name` and
/// plays what it captures into `playback`.
pub open spec fn loopback_args(playback: Seq<u8>, name: Seq<u8>) -> Seq<Seq<u8>> {
    seq![
        "-P".spec_bytes(),
        playback,
        "--capture-props=media.class=Audio/Sink".spec_bytes(),
        "-n".spec_bytes(),
        name,
    ]
}

/// The arguments that set the input side of the sink `name` to `vol`
/// percent.
pub open spec fn volume_args(name: Seq<u8>, vol: u8) -> Seq<Seq<u8>> {
    seq![
        "set-sink-volume".spec_bytes(),
        "input.".spec_bytes() + name,
        decimal(vol as nat).push(0x25),
    ]
}

/// The backend, once the headset's output has been found.
#[derive(Debug, PartialEq, Eq)]
pub struct ChatMix {
    output: &'static str,
    playback_sink: Vec<u8>,
}

impl ChatMix {
    /// The output name that the backend was asked for.
    pub closed spec fn spec_output(&self) -> &'static str {
        self.output
    }

    /// The sink that the helpers play into.
    pub closed spec fn spec_playback_sink(&self) -> Seq<u8> {
        self.playback_sink@
    }

    /// The output of the session and the two sinks in front of it.
    pub fn names(&self) -> (r: SinkNames)
        ensures
            r.output == self.spec_output(),
            r.game == Sink::Game.spec_name(),
            r.chat == Sink::Chat.spec_name(),
    {
        SinkNames::new(self.output)
    }

    /// The sink that the helpers play into.
    pub fn playback_sink(&self) -> (r: &[u8])
        ensures
            r@ == self.spec_playback_sink(),
    {
        self.playback_sink.as_slice()
    }

    /// The command whose output `new` resolves the headset's output against.
    pub fn list_sinks() -> (r: Invocation)
        ensures
            r.program == CMD_PACTL,
            r.words() == list_args(),
    {
        let mut args: Vec<Vec<u8>> = Vec::new();
        args.push("list".as_bytes_vec());
        args.push("sinks".as_bytes_vec());
        args.push("short".as_bytes_vec());
        let r = Invocation { program: CMD_PACTL, args };
        proof {
            assert(r.words() =~= list_args());
        }
        r
    }

    /// The command that starts the helper for `sink`. The helper runs until
    /// it is ended.
    pub fn loopback(&self, sink: Sink) -> (r: Invocation)
        ensures
            r.program == CMD_PWLOOPBACK,
            r.words() == loopback_args(self.spec_playback_sink(), sink.spec_name().spec_bytes()),
    {
        let mut args: Vec<Vec<u8>> = Vec::new();
        args.push("-P".as_bytes_vec());
        args.push(vstd::slice::slice_to_vec(self.playback_sink.as_slice()));
        args.push("--capture-props=media.class=Audio/Sink".as_bytes_vec());
        args.push("-n".as_bytes_vec());
        args.push(sink.name().as_bytes_vec());
        let r = Invocation { program: CMD_PWLOOPBACK, args };
        proof {
            assert(r.words() =~= loopback_args(
                self.spec_playback_sink(),
                sink.spec_name().spec_bytes(),
            ));
        }
        r
    }

    /// The command that sets the sink named `sink` to `vol` percent. The
    /// sink is addressed by its input side.
    pub fn set_sink_volume(sink: &str, vol: u8) -> (r: Invocation)
        ensures
            r.program == CMD_PACTL,
            r.words() == volume_args(sink.spec_bytes(), vol),
    {
        let mut target = "input.".as_bytes_vec();
        target.extend_from_slice(sink.as_bytes());
        let mut level = decimal_u8(vol);
        level.push(0x25);
        let mut args: Vec<Vec<u8>> = Vec::new();
        args.push("set-sink-volume".as_bytes_vec());
        args.push(target);
        args.push(level);
        let r = Invocation { program: CMD_PACTL, args };
        proof {
            assert(r.words()[1] =~= "input.".spec_bytes() + sink.spec_bytes());
            assert(r.words()[2] =~= decimal(vol as nat).push(0x25));
            assert(r.words() =~= volume_args(sink.spec_bytes(), vol));
        }
        r
    }
}

impl ChatMixBackend for ChatMix {
    type Inventory = [u8];

    type Request = Invocation;

    open spec fn sets(&self, request: &Invocation, sink: Sink, percent: u8) -> bool {
        request.program == CMD_PACTL && request.words() == volume_args(
            sink.spec_name().spec_bytes(),
            percent,
        )
    }

    /// Resolves `output_name` against the sink listing. Where several sinks
    /// carry the name, the one that was connected last is taken; where none
    /// does, there is nothing to route to.
    fn new(output_name: &'static str, inventory: &[u8]) -> (r: Result<ChatMix, ChatMixError>)
        ensures
            match resolved_output(inventory@, output_name.spec_bytes()) {
                Some(name) => r matches Ok(backend) && backend.spec_playback_sink() == name
                    && backend.spec_output() == output_name,
                None => r matches Err(ChatMixError::SinkNotFound { sink }) && sink@
                    == output_name@,
            },
    {
        match resolve_output(inventory, output_name.as_bytes()) {
            Some(playback_sink) => Ok(ChatMix { output: output_name, playback_sink }),
            None => Err(ChatMixError::SinkNotFound { sink: String::from_str(output_name) }),
        }
    }

    fn set_volumes(&self, game: u8, chat: u8) -> (r: (Invocation, Invocation)) {
        (
            ChatMix::set_sink_volume(Sink::Game.name(), game),
            ChatMix::set_sink_volume(Sink::Chat.name(), chat),
        )
    }

    /// Each sink has a command of its own, and the second is run whatever
    /// became of the first.
    open spec fn spec_attempts_both() -> bool {
        true
    }

    fn attempts_both() -> (r: bool) {
        true
    }
}

} // verus!
