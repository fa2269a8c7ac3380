//! The Arctis Nova Pro Wireless base station.
//!
//! Mixer reports have to be switched on, and the base station shows an icon
//! while a host mixes for it. Both switches are set by a control message of
//! 63 bytes: the transmit mark, the switch, its new state, and zeros. A
//! report is 63 bytes long too, with the tag in second place.

use crate::device::{
    display_name_of, find_accepted, report_byte, Device, DeviceKind, Features,
    HidDeviceInfo, ReportLayout, OPT_CHATMIX, READ_TIMEOUT,
};
use crate::error::DeviceError;
use crate::text::texts;
use vstd::prelude::*;

verus! {

/// A Nova Pro Wireless that was found on the bus.
#[derive(Debug, Clone, Copy, PartialEq, Eq)]
pub struct NovaProWireless {
    index: usize,
    product_id: u16,
}

impl NovaProWireless {
    pub const VID: u16 = 0x1038;

    pub const PID: u16 = 0x12E0;

    pub const INTERFACE: i32 = 0x4;

    pub const MSGLEN: usize = 63;

    /// The mark of a message from the host.
    pub const TX: u8 = 0x6;

    /// The switch of the mixer reports.
    pub const OPT_CHATMIX_ENABLE: u8 = 0x49;

    /// The switch of the icon on the base station.
    pub const OPT_SONAR_ICON: u8 = 0x8D;

    pub const OUTPUT_NAME: &'static str = "SteelSeries_Arctis_Nova_Pro_Wireless";

    /// The bus entries that are the mixer interface of a base station.
    pub open spec fn accepts(info: HidDeviceInfo) -> bool {
        &&& info.vendor_id == NovaProWireless::VID
        &&& info.product_id == NovaProWireless::PID
        &&& info.interface_number == NovaProWireless::INTERFACE
    }

    /// The tag stands second, the volumes follow it.
    pub open spec fn layout() -> ReportLayout {
        ReportLayout { len: NovaProWireless::MSGLEN, tag: 1, game: 2, chat: 3 }
    }

    /// A control message: `bytes`, cut or filled with zeros to the length of
    /// a message.
    pub open spec fn framed(bytes: Seq<u8>) -> Seq<u8> {
        Seq::new(
            NovaProWireless::MSGLEN as nat,
            |i: int|
                if i < bytes.len() {
                    bytes[i]
                } else {
                    0u8
                },
        )
    }

    /// The message that sets `switch` to `state`.
    pub open spec fn switch_message(switch: u8, state: bool) -> Seq<u8> {
        NovaProWireless::framed(
            seq![NovaProWireless::TX, switch, if state {
                1u8
            } else {
                0u8
            }],
        )
    }

    /// The messages that set both switches to `state`: the icon first, then
    /// the mixer reports.
    pub open spec fn messages(state: bool) -> Seq<Seq<u8>> {
        seq![
            NovaProWireless::switch_message(NovaProWireless::OPT_SONAR_ICON, state),
            NovaProWireless::switch_message(NovaProWireless::OPT_CHATMIX_ENABLE, state),
        ]
    }

    /// What a control message does to the switches: a message from the host
    /// that names a switch sets it to the state it carries, whatever the
    /// switch was before.
    pub open spec fn effect(before: Features, message: Seq<u8>) -> Features {
        if message.len() >= 3 && message[0] == NovaProWireless::TX {
            if message[1] == NovaProWireless::OPT_CHATMIX_ENABLE {
                Features { chatmix: message[2] != 0, ..before }
            } else if message[1] == NovaProWireless::OPT_SONAR_ICON {
                Features { sonar_icon: message[2] != 0, ..before }
            } else {
                before
            }
        } else {
            before
        }
    }

    /// Whether a bus entry is the mixer interface of a base station.
    pub fn is_match(info: &HidDeviceInfo) -> (r: bool)
        ensures
            r == NovaProWireless::accepts(*info),
    {
        info.vendor_id == NovaProWireless::VID && info.product_id == NovaProWireless::PID
            && info.interface_number == NovaProWireless::INTERFACE
    }

    /// The control message that carries `bytes`.
    pub fn write_msg(bytes: &[u8]) -> (r: Vec<u8>)
        ensures
            r@ == NovaProWireless::framed(bytes@),
    {
        let mut data: Vec<u8> = Vec::new();
        let mut i: usize = 0;
        while i < NovaProWireless::MSGLEN
            invariant
                i <= NovaProWireless::MSGLEN,
                data@.len() == i,
                forall|j: int|
                    0 <= j < i ==> data@[j] == (if j < bytes@.len() {
                        bytes@[j]
                    } else {
                        0u8
                    }),
            decreases NovaProWireless::MSGLEN - i,
        {
            let b: u8 = if i < bytes.len() {
                bytes[i]
            } else {
                0
            };
            data.push(b);
            i += 1;
        }
        proof {
            assert(data@ =~= NovaProWireless::framed(bytes@));
        }
        data
    }

    /// The message that sets `switch` to `state`.
    fn set_switch(switch: u8, state: bool) -> (r: Vec<u8>)
        ensures
            r@ == NovaProWireless::switch_message(switch, state),
    {
        let mut bytes: Vec<u8> = Vec::new();
        bytes.push(NovaProWireless::TX);
        bytes.push(switch);
        bytes.push(if state {
            1
        } else {
            0
        });
        proof {
            assert(bytes@ =~= seq![NovaProWireless::TX, switch, if state {
                1u8
            } else {
                0u8
            }]);
        }
        NovaProWireless::write_msg(bytes.as_slice())
    }

    /// The message that switches the mixer reports on or off.
    pub fn set_chatmix(state: bool) -> (r: Vec<u8>)
        ensures
            r@ == NovaProWireless::switch_message(NovaProWireless::OPT_CHATMIX_ENABLE, state),
    {
        NovaProWireless::set_switch(NovaProWireless::OPT_CHATMIX_ENABLE, state)
    }

    /// The message that switches the icon on the base station on or off.
    pub fn set_sonar_icon(state: bool) -> (r: Vec<u8>)
        ensures
            r@ == NovaProWireless::switch_message(NovaProWireless::OPT_SONAR_ICON, state),
    {
        NovaProWireless::set_switch(NovaProWireless::OPT_SONAR_ICON, state)
    }

    /// The messages that set both switches to `state`.
    fn set_both(state: bool) -> (r: Vec<Vec<u8>>)
        ensures
            texts(r@) == NovaProWireless::messages(state),
    {
        let mut r: Vec<Vec<u8>> = Vec::new();
        r.push(NovaProWireless::set_sonar_icon(state));
        r.push(NovaProWireless::set_chatmix(state));
        proof {
            assert(texts(r@) =~= NovaProWireless::messages(state));
        }
        r
    }
}

impl Device for NovaProWireless {
    open spec fn kind(&self) -> DeviceKind {
        DeviceKind::NovaProWireless
    }

    closed spec fn spec_bus_index(&self) -> usize {
        self.index
    }

    closed spec fn spec_product_id(&self) -> u16 {
        self.product_id
    }

    fn new(devices: &[HidDeviceInfo]) -> (r: Result<NovaProWireless, DeviceError>)
        ensures
            match r {
                Ok(dev) => {
                    &&& dev.spec_bus_index() < devices@.len()
                    &&& NovaProWireless::accepts(devices@[dev.spec_bus_index() as int])
                    &&& forall|k: int|
                        0 <= k < dev.spec_bus_index() ==> !NovaProWireless::accepts(
                            #[trigger] devices@[k],
                        )
                    &&& dev.spec_product_id() == devices@[dev.spec_bus_index() as int].product_id
                },
                Err(e) => {
                    &&& e == DeviceError::NotFound
                    &&& forall|k: int|
                        0 <= k < devices@.len() ==> !NovaProWireless::accepts(
                            #[trigger] devices@[k],
                        )
                },
            },
    {
        match find_accepted(DeviceKind::NovaProWireless, devices) {
            Some(index) => Ok(NovaProWireless { index, product_id: devices[index].product_id }),
            None => Err(DeviceError::NotFound),
        }
    }

    /// The icon is switched on first, then the mixer reports.
    fn enable(&self) -> (r: Vec<Vec<u8>>) {
        NovaProWireless::set_both(true)
    }

    /// The icon is switched off first, then the mixer reports.
    fn disable(&self) -> (r: Vec<Vec<u8>>) {
        NovaProWireless::set_both(false)
    }

    fn poll_volumes(&self, report: &[u8]) -> (r: Option<(u8, u8)>) {
        if report.len() == 0 || report_byte(report, 1) != OPT_CHATMIX {
            return None;
        }
        let gamevol = report_byte(report, 2);
        let chatvol = report_byte(report, 3);
        Some((gamevol, chatvol))
    }

    fn output_name(&self) -> (r: &'static str) {
        NovaProWireless::OUTPUT_NAME
    }

    fn display_name(&self) -> (r: String) {
        display_name_of(self.output_name())
    }

    fn report_len(&self) -> (r: usize) {
        NovaProWireless::MSGLEN
    }

    fn read_timeout(&self) -> (r: i32) {
        READ_TIMEOUT
    }

    fn bus_index(&self) -> (r: usize) {
        self.index
    }

    fn product_id(&self) -> (r: u16) {
        self.product_id
    }
}

} // verus!
