//! The Arctis Nova 7 family: several products with one report format.
//!
//! Mixer reports are always on, so there is nothing to switch. A report is
//! eight bytes long: the tag, then the game and the chat volume.

use crate::device::{
    display_name_of, find_accepted, report_byte, Device, DeviceKind, HidDeviceInfo,
    ReportLayout, OPT_CHATMIX, READ_TIMEOUT,
};
use crate::error::DeviceError;
use vstd::prelude::*;

verus! {

/// A Nova 7 that was found on the bus.
#[derive(Debug, Clone, Copy, PartialEq, Eq)]
pub struct Nova7 {
    index: usize,
    product_id: u16,
}

impl Nova7 {
    pub const VID: u16 = 0x1038;

    /// Arctis Nova 7.
    pub const PID_NOVA_7: u16 = 0x2202;

    /// Arctis Nova 7X.
    pub const PID_NOVA_7X: u16 = 0x2206;

    /// Arctis Nova 7X, second revision.
    pub const PID_NOVA_7X_V2: u16 = 0x2258;

    /// Arctis Nova 7P.
    pub const PID_NOVA_7P: u16 = 0x220a;

    /// Arctis Nova 7 Diablo IV.
    pub const PID_NOVA_7_DIABLO: u16 = 0x223a;

    /// Arctis Nova 7 WoW Edition.
    pub const PID_NOVA_7_WOW: u16 = 0x227a;

    pub const INTERFACE: i32 = 0x5;

    pub const MSGLEN: usize = 8;

    /// The products of the family.
    pub open spec fn is_product(product_id: u16) -> bool {
        ||| product_id == Nova7::PID_NOVA_7
        ||| product_id == Nova7::PID_NOVA_7X
        ||| product_id == Nova7::PID_NOVA_7X_V2
        ||| product_id == Nova7::PID_NOVA_7P
        ||| product_id == Nova7::PID_NOVA_7_DIABLO
        ||| product_id == Nova7::PID_NOVA_7_WOW
    }

    /// The bus entries that are the mixer interface of a Nova 7.
    pub open spec fn accepts(info: HidDeviceInfo) -> bool {
        &&& info.vendor_id == Nova7::VID
        &&& Nova7::is_product(info.product_id)
        &&& info.interface_number == Nova7::INTERFACE
    }

    /// The tag stands first, the volumes follow it.
    pub open spec fn layout() -> ReportLayout {
        ReportLayout { len: Nova7::MSGLEN, tag: 0, game: 1, chat: 2 }
    }

    /// The output name by product: the X and the P variant have names of
    /// their own, so that two headsets of different variants can be told
    /// apart.
    pub open spec fn output_name_of(product_id: u16) -> &'static str {
        if product_id == Nova7::PID_NOVA_7X || product_id == Nova7::PID_NOVA_7X_V2 {
            "SteelSeries_Arctis_Nova_7X"
        } else if product_id == Nova7::PID_NOVA_7P {
            "SteelSeries_Arctis_Nova_7P"
        } else {
            "SteelSeries_Arctis_Nova_7"
        }
    }

    /// Whether a bus entry is the mixer interface of a Nova 7.
    pub fn is_match(info: &HidDeviceInfo) -> (r: bool)
        ensures
            r == Nova7::accepts(*info),
    {
        let product = info.product_id;
        info.vendor_id == Nova7::VID && (product == Nova7::PID_NOVA_7 || product
            == Nova7::PID_NOVA_7X || product == Nova7::PID_NOVA_7X_V2 || product
            == Nova7::PID_NOVA_7P || product == Nova7::PID_NOVA_7_DIABLO || product
            == Nova7::PID_NOVA_7_WOW) && info.interface_number == Nova7::INTERFACE
    }
}

impl Device for Nova7 {
    open spec fn kind(&self) -> DeviceKind {
        DeviceKind::Nova7
    }

    closed spec fn spec_bus_index(&self) -> usize {
        self.index
    }

    closed spec fn spec_product_id(&self) -> u16 {
        self.product_id
    }

    fn new(devices: &[HidDeviceInfo]) -> (r: Result<Nova7, DeviceError>)
        ensures
            match r {
                Ok(dev) => {
                    &&& dev.spec_bus_index() < devices@.len()
                    &&& Nova7::accepts(devices@[dev.spec_bus_index() as int])
                    &&& forall|k: int|
                        0 <= k < dev.spec_bus_index() ==> !Nova7::accepts(#[trigger] devices@[k])
                    &&& dev.spec_product_id() == devices@[dev.spec_bus_index() as int].product_id
                },
                Err(e) => {
                    &&& e == DeviceError::NotFound
                    &&& forall|k: int| 0 <= k < devices@.len() ==> !Nova7::accepts(#[trigger] devices@[k])
                },
            },
    {
        match find_accepted(DeviceKind::Nova7, devices) {
            Some(index) => Ok(Nova7 { index, product_id: devices[index].product_id }),
            None => Err(DeviceError::NotFound),
        }
    }

    /// Nothing is to be written: the family reports without being asked.
    fn enable(&self) -> (r: Vec<Vec<u8>>) {
        let r: Vec<Vec<u8>> = Vec::new();
        proof {
            assert(crate::text::texts(r@) =~= Seq::<Seq<u8>>::empty());
        }
        r
    }

    /// Nothing is to be written.
    fn disable(&self) -> (r: Vec<Vec<u8>>) {
        let r: Vec<Vec<u8>> = Vec::new();
        proof {
            assert(crate::text::texts(r@) =~= Seq::<Seq<u8>>::empty());
        }
        r
    }

    fn poll_volumes(&self, report: &[u8]) -> (r: Option<(u8, u8)>) {
        if report.len() == 0 || report_byte(report, 0) != OPT_CHATMIX {
            return None;
        }
        let gamevol = report_byte(report, 1);
        let chatvol = report_byte(report, 2);
        Some((gamevol, chatvol))
    }

    fn output_name(&self) -> (r: &'static str) {
        if self.product_id == Nova7::PID_NOVA_7X || self.product_id == Nova7::PID_NOVA_7X_V2 {
            "SteelSeries_Arctis_Nova_7X"
        } else if self.product_id == Nova7::PID_NOVA_7P {
            "SteelSeries_Arctis_Nova_7P"
        } else {
            "SteelSeries_Arctis_Nova_7"
        }
    }

    fn display_name(&self) -> (r: String) {
        display_name_of(self.output_name())
    }

    fn report_len(&self) -> (r: usize) {
        Nova7::MSGLEN
    }

    fn read_timeout(&self) -> (r: i32) {
        READ_TIMEOUT
    }

    fn bus_index(&self) -> (r: usize) {
        self.index
    }

    fn product_id(&self) -> (r: u16) {
        self.product_id
    }
}

} // verus!
