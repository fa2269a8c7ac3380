use nonar::chatmix::linux::{ChatMix as LinuxChatMix, Invocation, CMD_PACTL, CMD_PWLOOPBACK};
use nonar::chatmix::macos::{find_device_by_name, AudioObject, ChatMix as NativeChatMix, VolumeWrite};
use nonar::chatmix::{chat_request_due, volumes_result, ChatMixBackend, Sink, SinkNames};
use nonar::error::ChatMixError;
use nonar::{CHAT_SINK_NAME, GAME_SINK_NAME};

const LISTING: &[u8] = b"57\talsa_output.usb-SteelSeries_Arctis_Nova_7-00.analog-stereo\tPipeWire\ts16le 2ch 48000Hz\tSUSPENDED\n\
58\talsa_output.pci-0000_00_1f.3.analog-stereo\tPipeWire\ts32le 2ch 48000Hz\tRUNNING\n";

fn words(list: &[&str]) -> Vec<Vec<u8>> {
    list.iter().map(|w| w.as_bytes().to_vec()).collect()
}

fn object(id: u32, name: Option<&str>) -> AudioObject {
    AudioObject { id, name: name.map(|n| n.as_bytes().to_vec()) }
}

#[test]
fn sink_names_are_fixed() {
    assert_eq!(GAME_SINK_NAME, "NonarGame");
    assert_eq!(CHAT_SINK_NAME, "NonarChat");
    assert_eq!(Sink::Game.name(), "NonarGame");
    assert_eq!(Sink::Chat.name(), "NonarChat");
    let names = SinkNames::new("SteelSeries_Arctis_Nova_7");
    assert_eq!(names.output, "SteelSeries_Arctis_Nova_7");
    assert_eq!(names.game, "NonarGame");
    assert_eq!(names.chat, "NonarChat");
    assert_eq!(names.sink(Sink::Game), "NonarGame");
    assert_eq!(names.sink(Sink::Chat), "NonarChat");
}

#[test]
fn linux_backend_resolves_the_output() {
    let backend = LinuxChatMix::new("SteelSeries_Arctis_Nova_7", LISTING).unwrap();
    assert_eq!(
        backend.playback_sink(),
        b"alsa_output.usb-SteelSeries_Arctis_Nova_7-00.analog-stereo"
    );
    assert_eq!(backend.names(), SinkNames::new("SteelSeries_Arctis_Nova_7"));
}

#[test]
fn linux_backend_fails_without_a_matching_output() {
    assert_eq!(
        LinuxChatMix::new("SteelSeries_Arctis_Nova_Pro_Wireless", LISTING),
        Err(ChatMixError::SinkNotFound { sink: "SteelSeries_Arctis_Nova_Pro_Wireless".to_string() })
    );
    assert_eq!(
        LinuxChatMix::new("SteelSeries_Arctis_Nova_7", b""),
        Err(ChatMixError::SinkNotFound { sink: "SteelSeries_Arctis_Nova_7".to_string() })
    );
}

#[test]
fn linux_backend_lists_sinks_in_short_form() {
    assert_eq!(
        LinuxChatMix::list_sinks(),
        Invocation { program: "pactl", args: words(&["list", "sinks", "short"]) }
    );
    assert_eq!(CMD_PACTL, "pactl");
    assert_eq!(CMD_PWLOOPBACK, "pw-loopback");
}

#[test]
fn linux_backend_starts_one_helper_per_sink() {
    let backend = LinuxChatMix::new("SteelSeries_Arctis_Nova_7", LISTING).unwrap();
    assert_eq!(
        backend.loopback(Sink::Game),
        Invocation {
            program: "pw-loopback",
            args: words(&[
                "-P",
                "alsa_output.usb-SteelSeries_Arctis_Nova_7-00.analog-stereo",
                "--capture-props=media.class=Audio/Sink",
                "-n",
                "NonarGame",
            ]),
        }
    );
    assert_eq!(
        backend.loopback(Sink::Chat),
        Invocation {
            program: "pw-loopback",
            args: words(&[
                "-P",
                "alsa_output.usb-SteelSeries_Arctis_Nova_7-00.analog-stereo",
                "--capture-props=media.class=Audio/Sink",
                "-n",
                "NonarChat",
            ]),
        }
    );
}

#[test]
fn linux_set_volumes_addresses_each_sink_input() {
    let backend = LinuxChatMix::new("SteelSeries_Arctis_Nova_7", LISTING).unwrap();
    let (game, chat) = backend.set_volumes(30, 70);
    assert_eq!(
        game,
        Invocation { program: "pactl", args: words(&["set-sink-volume", "input.NonarGame", "30%"]) }
    );
    assert_eq!(
        chat,
        Invocation { program: "pactl", args: words(&["set-sink-volume", "input.NonarChat", "70%"]) }
    );
}

#[test]
fn linux_set_volumes_renders_every_percentage() {
    let backend = LinuxChatMix::new("SteelSeries_Arctis_Nova_7", LISTING).unwrap();
    for v in 0u8..=100 {
        let (game, chat) = backend.set_volumes(v, 100 - v);
        assert_eq!(game.args[2], format!("{}%", v).into_bytes());
        assert_eq!(chat.args[2], format!("{}%", 100 - v).into_bytes());
        assert_eq!(game.args[1], b"input.NonarGame");
        assert_eq!(chat.args[1], b"input.NonarChat");
    }
    let (game, chat) = backend.set_volumes(255, 101);
    assert_eq!(game.args[2], b"255%");
    assert_eq!(chat.args[2], b"101%");
}

#[test]
fn set_sink_volume_names_the_sink_it_is_given() {
    assert_eq!(
        LinuxChatMix::set_sink_volume("Other", 5),
        Invocation { program: "pactl", args: words(&["set-sink-volume", "input.Other", "5%"]) }
    );
}

#[test]
fn both_backends_state_their_policy() {
    assert!(LinuxChatMix::attempts_both());
    assert!(!NativeChatMix::attempts_both());
}

#[test]
fn the_chat_request_follows_a_failure_only_where_both_are_attempted() {
    let failed = Err(ChatMixError::Io("game".to_string()));
    assert!(chat_request_due::<LinuxChatMix>(&Ok(())));
    assert!(chat_request_due::<LinuxChatMix>(&failed));
    assert!(chat_request_due::<NativeChatMix>(&Ok(())));
    assert!(!chat_request_due::<NativeChatMix>(&failed));
}

#[test]
fn volumes_result_reports_the_first_failure() {
    let a = ChatMixError::Io("game".to_string());
    let b = ChatMixError::Io("chat".to_string());
    assert_eq!(volumes_result(Ok(()), Some(Ok(()))), Ok(()));
    assert_eq!(volumes_result(Ok(()), None), Ok(()));
    assert_eq!(
        volumes_result(Err(ChatMixError::Io("game".to_string())), None),
        Err(ChatMixError::Io("game".to_string()))
    );
    assert_eq!(
        volumes_result(Ok(()), Some(Err(ChatMixError::Io("chat".to_string())))),
        Err(ChatMixError::Io("chat".to_string()))
    );
    assert_eq!(volumes_result(Err(a), Some(Err(b))), Err(ChatMixError::Io("game".to_string())));
}

#[test]
fn native_backend_finds_both_sinks() {
    let devices = [
        object(40, Some("Built-in Output")),
        object(41, None),
        object(52, Some("NonarChat")),
        object(53, Some("NonarGame")),
        object(54, Some("NonarGame")),
    ];
    assert_eq!(
        NativeChatMix::new("SteelSeries_Arctis_Nova_7", &devices),
        Ok(NativeChatMix { game_id: 53, chat_id: 52 })
    );
}

#[test]
fn native_backend_names_the_missing_sink() {
    let no_game = [object(1, Some("NonarChat"))];
    let no_chat = [object(1, Some("NonarGame"))];
    assert_eq!(
        NativeChatMix::new("x", &no_game),
        Err(ChatMixError::SinkNotFound { sink: "NonarGame".to_string() })
    );
    assert_eq!(
        NativeChatMix::new("x", &no_chat),
        Err(ChatMixError::SinkNotFound { sink: "NonarChat".to_string() })
    );
    assert_eq!(
        NativeChatMix::new("x", &[]),
        Err(ChatMixError::SinkNotFound { sink: "NonarGame".to_string() })
    );
}

#[test]
fn native_lookup_matches_by_substring_and_skips_nameless_objects() {
    let devices = [object(1, None), object(2, Some("My NonarGame Device")), object(3, Some("NonarGame"))];
    assert_eq!(find_device_by_name(&devices, b"NonarGame"), Some(2));
    assert_eq!(find_device_by_name(&devices, b"NonarChat"), None);
    assert_eq!(find_device_by_name(&devices, b""), Some(2));
    assert_eq!(find_device_by_name(&[], b"NonarGame"), None);
}

#[test]
fn native_set_volumes_writes_each_object() {
    let backend = NativeChatMix { game_id: 53, chat_id: 52 };
    for g in [0u8, 1, 50, 100] {
        for c in [0u8, 33, 100] {
            assert_eq!(
                backend.set_volumes(g, c),
                (VolumeWrite { object: 53, percent: g }, VolumeWrite { object: 52, percent: c })
            );
        }
    }
}
