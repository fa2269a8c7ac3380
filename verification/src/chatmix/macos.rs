//! The native backend: the two sinks exist already, as audio objects with a
//! display name and a volume property, and are looked up by name.

use crate::chatmix::{ChatMixBackend, Sink};
use crate::error::ChatMixError;
use crate::text::{contains, has_substring};
use crate::{CHAT_SINK_NAME, GAME_SINK_NAME};
use vstd::prelude::*;
use vstd::string::StringSliceAdditionalSpecFns;

verus! {

/// An audio object as the system listed it: its identifier and its display
/// name, where the name could be read.
#[derive(Debug, PartialEq, Eq)]
pub struct AudioObject {
    pub id: u32,
    pub name: Option<Vec<u8>>,
}

impl AudioObject {
    /// The object has a display name and `target` stands in it.
    pub open spec fn is_named(self, target: Seq<u8>) -> bool {
        self.name matches Some(name) && has_substring(name@, target)
    }
}

/// A write of the volume property of one audio object.
#[derive(Debug, Clone, Copy, PartialEq, Eq, Structural)]
pub struct VolumeWrite {
    pub object: u32,
    pub percent: u8,
}

/// The backend over objects that the system provides.
#[derive(Debug, Clone, Copy, PartialEq, Eq, Structural)]
pub struct ChatMix {
    pub game_id: u32,
    pub chat_id: u32,
}

/// The first of `devices` whose name holds `target`, in spec terms: its
/// position, or the length of `devices` when there is none.
pub open spec fn first_named(devices: Seq<AudioObject>, target: Seq<u8>) -> int
    decreases devices.len(),
{
    if devices.len() == 0 || devices[0].is_named(target) {
        0
    } else {
        1 + first_named(devices.drop_first(), target)
    }
}

/// `first_named` is the one position before which no object has the name and
/// at which one has it, or the list ends.
pub proof fn lemma_first_named(devices: Seq<AudioObject>, target: Seq<u8>, i: int)
    requires
        0 <= i <= devices.len(),
        forall|k: int| 0 <= k < i ==> !(#[trigger] devices[k]).is_named(target),
        i == devices.len() || devices[i].is_named(target),
    ensures
        first_named(devices, target) == i,
    decreases i,
{
    if i > 0 {
        let rest = devices.drop_first();
        assert(!devices[0].is_named(target));
        assert forall|k: int| 0 <= k < i - 1 implies !(#[trigger] rest[k]).is_named(target) by {
            assert(rest[k] == devices[k + 1]);
        }
        lemma_first_named(rest, target, i - 1);
    }
}

/// The identifier of the first object whose display name holds `target`.
pub open spec fn spec_find_device_by_name(devices: Seq<AudioObject>, target: Seq<u8>) -> Option<
    u32,
> {
    let at = first_named(devices, target);
    if 0 <= at < devices.len() {
        Some(devices[at].id)
    } else {
        None
    }
}

/// The identifier of the first object whose display name holds `target`. An
/// object whose name could not be read is passed over.
pub fn find_device_by_name(devices: &[AudioObject], target: &[u8]) -> (r: Option<u32>)
    ensures
        r == spec_find_device_by_name(devices@, target@),
{
    let mut i: usize = 0;
    while i < devices.len()
        invariant
            i <= devices.len(),
            forall|k: int| 0 <= k < i ==> !(#[trigger] devices@[k]).is_named(target@),
        decreases devices.len() - i,
    {
        let found = match &devices[i].name {
            Some(name) => contains(name.as_slice(), target),
            None => false,
        };
        if found {
            proof {
                lemma_first_named(devices@, target@, i as int);
            }
            return Some(devices[i].id);
        }
        i += 1;
    }
    proof {
        lemma_first_named(devices@, target@, i as int);
    }
    None
}

impl ChatMix {
    /// The object behind one of the two sinks.
    pub open spec fn spec_object(self, sink: Sink) -> u32 {
        match sink {
            Sink::Game => self.game_id,
            Sink::Chat => self.chat_id,
        }
    }

    /// What `new` returns on a list of objects: the two identifiers, or the
    /// name of the first sink that is missing, the game sink first.
    pub open spec fn spec_new(devices: Seq<AudioObject>) -> Result<ChatMix, Seq<char>> {
        match spec_find_device_by_name(devices, GAME_SINK_NAME.spec_bytes()) {
            None => Err(GAME_SINK_NAME@),
            Some(game_id) => match spec_find_device_by_name(devices, CHAT_SINK_NAME.spec_bytes()) {
                None => Err(CHAT_SINK_NAME@),
                Some(chat_id) => Ok(ChatMix { game_id, chat_id }),
            },
        }
    }
}

impl ChatMixBackend for ChatMix {
    type Inventory = [AudioObject];

    type Request = VolumeWrite;

    open spec fn sets(&self, request: &VolumeWrite, sink: Sink, percent: u8) -> bool {
        request.object == self.spec_object(sink) && request.percent == percent
    }

    /// Looks both sinks up by name. The output's name plays no part: the
    /// sinks are wired to it by whoever provided them.
    fn new(output_name: &'static str, inventory: &[AudioObject]) -> (r: Result<
        ChatMix,
        ChatMixError,
    >)
        ensures
            match ChatMix::spec_new(inventory@) {
                Ok(backend) => r == Ok::<ChatMix, ChatMixError>(backend),
                Err(missing) => r matches Err(ChatMixError::SinkNotFound { sink }) && sink@
                    == missing,
            },
    {
        let game_id = match find_device_by_name(inventory, GAME_SINK_NAME.as_bytes()) {
            Some(id) => id,
            None => {
                return Err(ChatMixError::SinkNotFound { sink: String::from_str(GAME_SINK_NAME) });
            },
        };
        let chat_id = match find_device_by_name(inventory, CHAT_SINK_NAME.as_bytes()) {
            Some(id) => id,
            None => {
                return Err(ChatMixError::SinkNotFound { sink: String::from_str(CHAT_SINK_NAME) });
            },
        };
        Ok(ChatMix { game_id, chat_id })
    }

    fn set_volumes(&self, game: u8, chat: u8) -> (r: (VolumeWrite, VolumeWrite))
        ensures
            r.0 == (VolumeWrite { object: self.game_id, percent: game }),
            r.1 == (VolumeWrite { object: self.chat_id, percent: chat }),
    {
        (
            VolumeWrite { object: self.game_id, percent: game },
            VolumeWrite { object: self.chat_id, percent: chat },
        )
    }

    /// A failed write ends the call: the chat sink is left as it was.
    open spec fn spec_attempts_both() -> bool {
        false
    }

    fn attempts_both() -> (r: bool) {
        false
    }
}

} // verus!
