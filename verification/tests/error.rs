use nonar::error::{ChatMixError, DeviceError, Error};

#[test]
fn device_error_messages() {
    assert_eq!(DeviceError::NotFound.message(), "device not found");
    assert_eq!(DeviceError::Hid("timed out".to_string()).message(), "hidapi error: timed out");
}

#[test]
fn chatmix_error_messages() {
    assert_eq!(ChatMixError::Io("no such file".to_string()).message(), "io error: no such file");
    assert_eq!(
        ChatMixError::SinkNotFound { sink: "NonarGame".to_string() }.message(),
        "sink not found: NonarGame"
    );
    assert_eq!(
        ChatMixError::CoreAudioError("status 7".to_string()).message(),
        "CoreAudio error: status 7"
    );
}

#[test]
fn error_messages_wrap_the_cause() {
    assert_eq!(
        Error::ChatMix(ChatMixError::Io("x".to_string())).message(),
        "chatmix error: io error: x"
    );
    assert_eq!(Error::Device(DeviceError::NotFound).message(), "device error: device not found");
    assert_eq!(Error::Io("broken pipe".to_string()).message(), "io error: broken pipe");
}

#[test]
fn errors_convert_into_the_common_error() {
    assert_eq!(Error::from(DeviceError::NotFound), Error::Device(DeviceError::NotFound));
    assert_eq!(
        Error::from(ChatMixError::Io("x".to_string())),
        Error::ChatMix(ChatMixError::Io("x".to_string()))
    );
}

#[test]
fn only_routing_failures_end_the_process() {
    assert!(Error::ChatMix(ChatMixError::Io("x".to_string())).is_fatal());
    assert!(Error::ChatMix(ChatMixError::SinkNotFound { sink: "s".to_string() }).is_fatal());
    assert!(!Error::Device(DeviceError::NotFound).is_fatal());
    assert!(!Error::Device(DeviceError::Hid("x".to_string())).is_fatal());
    assert!(!Error::Io("x".to_string()).is_fatal());
}

#[test]
fn error_kinds() {
    assert!(DeviceError::NotFound.is_not_found());
    assert!(!DeviceError::Hid("x".to_string()).is_not_found());
    assert!(ChatMixError::SinkNotFound { sink: "s".to_string() }.is_resolution());
    assert!(!ChatMixError::Io("x".to_string()).is_resolution());
    assert!(!ChatMixError::CoreAudioError("x".to_string()).is_resolution());
}
