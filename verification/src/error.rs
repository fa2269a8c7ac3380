//! What can go wrong, by the component that reports it.
//!
//! A transport or audio-system failure is carried as the text that the
//! caller got from the failing operation.

use vstd::prelude::*;

verus! {

/// A failure of the audio routing backend.
#[derive(Debug, PartialEq, Eq)]
pub enum ChatMixError {
    /// A helper process could not be started or a control command could not
    /// be run.
    Io(String),
    /// No output or sink of the expected name exists.
    SinkNotFound { sink: String },
    /// The native audio interface refused a property read or write.
    CoreAudioError(String),
}

/// A failure of the headset.
#[derive(Debug, PartialEq, Eq)]
pub enum DeviceError {
    /// No supported headset is on the bus. Expected while probing.
    NotFound,
    /// Opening, reading or writing an identified headset failed.
    Hid(String),
}

/// Any failure that ends a session or the process.
#[derive(Debug, PartialEq, Eq)]
pub enum Error {
    ChatMix(ChatMixError),
    Device(DeviceError),
    Io(String),
}

impl ChatMixError {
    /// The text of the message for this error.
    pub open spec fn spec_message(self) -> Seq<char> {
        match self {
            ChatMixError::Io(detail) => "io error: "@ + detail@,
            ChatMixError::SinkNotFound { sink } => "sink not found: "@ + sink@,
            ChatMixError::CoreAudioError(detail) => "CoreAudio error: "@ + detail@,
        }
    }

    /// A one-line description for the log.
    pub fn message(&self) -> (r: String)
        ensures
            r@ == self.spec_message(),
    {
        match self {
            ChatMixError::Io(detail) => String::from_str("io error: ").concat(detail.as_str()),
            ChatMixError::SinkNotFound { sink } => String::from_str("sink not found: ").concat(
                sink.as_str(),
            ),
            ChatMixError::CoreAudioError(detail) => String::from_str("CoreAudio error: ").concat(
                detail.as_str(),
            ),
        }
    }

    /// Whether the failure means that an expected sink or output is missing,
    /// as opposed to a command or property write that failed.
    pub fn is_resolution(&self) -> (r: bool)
        ensures
            r == (self is SinkNotFound),
    {
        match self {
            ChatMixError::SinkNotFound { .. } => true,
            _ => false,
        }
    }
}

impl DeviceError {
    /// The text of the message for this error.
    pub open spec fn spec_message(self) -> Seq<char> {
        match self {
            DeviceError::NotFound => "device not found"@,
            DeviceError::Hid(detail) => "hidapi error: "@ + detail@,
        }
    }

    /// A one-line description for the log.
    pub fn message(&self) -> (r: String)
        ensures
            r@ == self.spec_message(),
    {
        match self {
            DeviceError::NotFound => String::from_str("device not found"),
            DeviceError::Hid(detail) => String::from_str("hidapi error: ").concat(detail.as_str()),
        }
    }

    /// Whether the failure is the expected outcome of probing a bus that
    /// holds no supported headset.
    pub fn is_not_found(&self) -> (r: bool)
        ensures
            r == (self is NotFound),
    {
        match self {
            DeviceError::NotFound => true,
            DeviceError::Hid(_) => false,
        }
    }
}

impl Error {
    /// The text of the message for this error.
    pub open spec fn spec_message(self) -> Seq<char> {
        match self {
            Error::ChatMix(e) => "chatmix error: "@ + e.spec_message(),
            Error::Device(e) => "device error: "@ + e.spec_message(),
            Error::Io(detail) => "io error: "@ + detail@,
        }
    }

    /// A one-line description for the log.
    pub fn message(&self) -> (r: String)
        ensures
            r@ == self.spec_message(),
    {
        match self {
            Error::ChatMix(e) => {
                let inner = e.message();
                String::from_str("chatmix error: ").concat(inner.as_str())
            },
            Error::Device(e) => {
                let inner = e.message();
                String::from_str("device error: ").concat(inner.as_str())
            },
            Error::Io(detail) => String::from_str("io error: ").concat(detail.as_str()),
        }
    }

    /// Whether the process must stop on this error. A routing failure ends the
    /// process, because every later session would meet it again; anything
    /// else only ends the session.
    pub fn is_fatal(&self) -> (r: bool)
        ensures
            r == (self is ChatMix),
    {
        match self {
            Error::ChatMix(_) => true,
            _ => false,
        }
    }
}

impl From<ChatMixError> for Error {
    fn from(e: ChatMixError) -> (r: Error) {
        Error::ChatMix(e)
    }
}

impl vstd::std_specs::convert::FromSpecImpl<ChatMixError> for Error {
    open spec fn obeys_from_spec() -> bool {
        true
    }

    open spec fn from_spec(e: ChatMixError) -> Error {
        Error::ChatMix(e)
    }
}

impl From<DeviceError> for Error {
    fn from(e: DeviceError) -> (r: Error) {
        Error::Device(e)
    }
}

impl vstd::std_specs::convert::FromSpecImpl<DeviceError> for Error {
    open spec fn obeys_from_spec() -> bool {
        true
    }

    open spec fn from_spec(e: DeviceError) -> Error {
        Error::Device(e)
    }
}

} // verus!
