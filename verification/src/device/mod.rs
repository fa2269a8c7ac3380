//! Headsets: how each family is told apart on the bus, which control
//! messages switch its reporting on and off, and how its reports are read.
//!
//! A device here is a headset that was found on the bus, as far as the
//! decisions need it: its family, its place in the enumeration and its
//! product identifier. The transport handle stays with the caller, who writes
//! the messages that `enable` and `disable` return and hands each report it
//! reads to `poll_volumes`.

use crate::error::DeviceError;
use crate::text::texts;
use vstd::prelude::*;

pub mod nova_7;
pub mod nova_pro_wireless;

use nova_7::Nova7;
use nova_pro_wireless::NovaProWireless;

verus! {

/// The tag of a report that carries the two mixer volumes.
pub const OPT_CHATMIX: u8 = 0x45;

/// How long one read waits for a report, in milliseconds.
pub const READ_TIMEOUT: i32 = 1000;

/// What the vendor prefixes its output names with.
pub const VENDOR_PREFIX: &'static str = "SteelSeries_";

/// One interface of one device, as the bus enumeration lists it.
#[derive(Debug, Clone, Copy, PartialEq, Eq, Structural)]
pub struct HidDeviceInfo {
    pub vendor_id: u16,
    pub product_id: u16,
    pub interface_number: i32,
}

/// Where a family's reports hold what: the length of a report, and the
/// offsets of the tag and of the two volumes.
#[derive(Debug, Clone, Copy, PartialEq, Eq, Structural)]
pub struct ReportLayout {
    pub len: usize,
    pub tag: usize,
    pub game: usize,
    pub chat: usize,
}

/// The switches of a headset that control messages set.
#[derive(Debug, Clone, Copy, PartialEq, Eq, Structural)]
pub struct Features {
    pub chatmix: bool,
    pub sonar_icon: bool,
}

/// The supported families, in the order in which they are probed.
#[derive(Debug, Clone, Copy, PartialEq, Eq, Structural)]
pub enum DeviceKind {
    NovaProWireless,
    Nova7,
}

/// The byte at `offset` of a report. A report is read into a zeroed buffer,
/// so what lies behind its end reads as zero.
pub open spec fn byte_at(report: Seq<u8>, offset: int) -> u8 {
    if 0 <= offset < report.len() {
        report[offset]
    } else {
        0
    }
}

/// The volumes that a report carries: none when nothing was read or when
/// the tag is not that of a mixer report; else the two bytes as they are.
pub open spec fn decode(report: Seq<u8>, layout: ReportLayout) -> Option<(u8, u8)> {
    if report.len() == 0 || byte_at(report, layout.tag as int) != OPT_CHATMIX {
        None
    } else {
        Some((byte_at(report, layout.game as int), byte_at(report, layout.chat as int)))
    }
}

/// A report that carries the tag at the tag's offset yields the two bytes at
/// the volume offsets, as they are: any byte is a volume.
pub proof fn lemma_tagged_report_yields_its_bytes(report: Seq<u8>, layout: ReportLayout)
    requires
        layout.tag < report.len(),
        layout.game < report.len(),
        layout.chat < report.len(),
        report[layout.tag as int] == OPT_CHATMIX,
    ensures
        decode(report, layout) == Some((report[layout.game as int], report[layout.chat as int])),
{
}

/// A report that carries another tag yields nothing, and so does a read
/// that returned no byte.
pub proof fn lemma_other_report_yields_nothing(report: Seq<u8>, layout: ReportLayout)
    requires
        report.len() == 0 || byte_at(report, layout.tag as int) != OPT_CHATMIX,
    ensures
        decode(report, layout) is None,
{
}

/// The byte at `offset` of a report, zero behind its end.
pub fn report_byte(report: &[u8], offset: usize) -> (r: u8)
    ensures
        r == byte_at(report@, offset as int),
{
    if offset < report.len() {
        report[offset]
    } else {
        0
    }
}

/// `s` begins with `prefix`.
pub open spec fn starts_with(s: Seq<char>, prefix: Seq<char>) -> bool {
    prefix.len() <= s.len() && s.subrange(0, prefix.len() as int) == prefix
}

/// An output name made readable: without the vendor prefix, and with a
/// space for each underscore.
pub open spec fn pretty(name: Seq<char>) -> Seq<char> {
    let bare = if starts_with(name, VENDOR_PREFIX@) {
        name.subrange(VENDOR_PREFIX@.len() as int, name.len() as int)
    } else {
        name
    };
    Seq::new(
        bare.len(),
        |i: int|
            if bare[i] == '_' {
                ' '
            } else {
                bare[i]
            },
    )
}

/// Whether `name` begins with `prefix`.
pub fn has_prefix(name: &str, prefix: &str) -> (r: bool)
    ensures
        r == starts_with(name@, prefix@),
{
    let n = name.unicode_len();
    let p = prefix.unicode_len();
    if p > n {
        return false;
    }
    let mut k: usize = 0;
    while k < p
        invariant
            k <= p <= n,
            n == name@.len(),
            p == prefix@.len(),
            forall|j: int| 0 <= j < k ==> name@[j] == prefix@[j],
        decreases p - k,
    {
        if name.get_char(k) != prefix.get_char(k) {
            proof {
                assert(name@.subrange(0, p as int)[k as int] == name@[k as int]);
            }
            return false;
        }
        k += 1;
    }
    proof {
        assert(name@.subrange(0, p as int) =~= prefix@);
    }
    true
}

/// Makes an output name readable.
pub fn display_name_of(name: &str) -> (r: String)
    ensures
        r@ == pretty(name@),
{
    let n = name.unicode_len();
    let start: usize = if has_prefix(name, VENDOR_PREFIX) {
        VENDOR_PREFIX.unicode_len()
    } else {
        0
    };
    let ghost bare = name@.subrange(start as int, n as int);
    let mut out = String::new();
    let mut i: usize = start;
    while i < n
        invariant
            start <= i <= n,
            n == name@.len(),
            bare == name@.subrange(start as int, n as int),
            out@.len() == i - start,
            forall|j: int|
                0 <= j < i - start ==> out@[j] == (if bare[j] == '_' {
                    ' '
                } else {
                    bare[j]
                }),
        decreases n - i,
    {
        let c = name.get_char(i);
        if c == '_' {
            proof {
                reveal_strlit(" ");
            }
            out.append(" ");
        } else {
            out.append(name.substring_char(i, i + 1));
        }
        i += 1;
    }
    proof {
        if start == 0 {
            assert(bare =~= name@);
        }
        assert(out@ =~= pretty(name@));
    }
    out
}

impl DeviceKind {
    /// The families in probe order.
    pub open spec fn spec_all() -> Seq<DeviceKind> {
        seq![DeviceKind::NovaProWireless, DeviceKind::Nova7]
    }

    /// The families in probe order.
    pub fn all() -> (r: Vec<DeviceKind>)
        ensures
            r@ == DeviceKind::spec_all(),
    {
        let mut r: Vec<DeviceKind> = Vec::new();
        r.push(DeviceKind::NovaProWireless);
        r.push(DeviceKind::Nova7);
        proof {
            assert(r@ =~= DeviceKind::spec_all());
        }
        r
    }

    /// The family that is probed after this one, if one is left.
    pub open spec fn spec_next(self) -> Option<DeviceKind> {
        match self {
            DeviceKind::NovaProWireless => Some(DeviceKind::Nova7),
            DeviceKind::Nova7 => None,
        }
    }

    /// The family that is probed after this one, if one is left.
    pub fn next(self) -> (r: Option<DeviceKind>)
        ensures
            r == self.spec_next(),
    {
        match self {
            DeviceKind::NovaProWireless => Some(DeviceKind::Nova7),
            DeviceKind::Nova7 => None,
        }
    }

    /// Whether a bus entry is the mixer interface of a headset of this
    /// family: the vendor, one of the family's products, and the one
    /// interface that carries the mixer reports.
    pub open spec fn accepts(self, info: HidDeviceInfo) -> bool {
        match self {
            DeviceKind::NovaProWireless => NovaProWireless::accepts(info),
            DeviceKind::Nova7 => Nova7::accepts(info),
        }
    }

    /// Where the family's reports hold what.
    pub open spec fn layout(self) -> ReportLayout {
        match self {
            DeviceKind::NovaProWireless => NovaProWireless::layout(),
            DeviceKind::Nova7 => Nova7::layout(),
        }
    }

    /// The control messages that switch mixer reporting on, in the order in
    /// which they are written.
    pub open spec fn enable_messages(self) -> Seq<Seq<u8>> {
        match self {
            DeviceKind::NovaProWireless => NovaProWireless::messages(true),
            DeviceKind::Nova7 => Seq::empty(),
        }
    }

    /// The control messages that switch mixer reporting off.
    pub open spec fn disable_messages(self) -> Seq<Seq<u8>> {
        match self {
            DeviceKind::NovaProWireless => NovaProWireless::messages(false),
            DeviceKind::Nova7 => Seq::empty(),
        }
    }

    /// The name of the output of a headset of this family with the given
    /// product identifier.
    pub open spec fn spec_output_name(self, product_id: u16) -> &'static str {
        match self {
            DeviceKind::NovaProWireless => NovaProWireless::OUTPUT_NAME,
            DeviceKind::Nova7 => Nova7::output_name_of(product_id),
        }
    }

    /// What one control message does to the switches of a headset of this
    /// family. A message that the family does not know changes nothing.
    pub open spec fn effect(self, before: Features, message: Seq<u8>) -> Features {
        match self {
            DeviceKind::NovaProWireless => NovaProWireless::effect(before, message),
            DeviceKind::Nova7 => before,
        }
    }

    /// What a run of control messages does to the switches.
    pub open spec fn effect_all(self, before: Features, messages: Seq<Seq<u8>>) -> Features
        decreases messages.len(),
    {
        if messages.len() == 0 {
            before
        } else {
            self.effect(self.effect_all(before, messages.drop_last()), messages.last())
        }
    }

    /// Looks for a headset of this family among the bus entries, and takes
    /// the first entry that the family accepts.
    pub fn probe(&self, devices: &[HidDeviceInfo]) -> (r: Result<Box<dyn Device>, DeviceError>)
        ensures
            match r {
                Ok(dev) => {
                    &&& dev.kind() == *self
                    &&& dev.spec_bus_index() < devices@.len()
                    &&& self.accepts(devices@[dev.spec_bus_index() as int])
                    &&& forall|k: int|
                        0 <= k < dev.spec_bus_index() ==> !self.accepts(#[trigger] devices@[k])
                    &&& dev.spec_product_id() == devices@[dev.spec_bus_index() as int].product_id
                },
                Err(e) => {
                    &&& e == DeviceError::NotFound
                    &&& forall|k: int| 0 <= k < devices@.len() ==> !self.accepts(#[trigger] devices@[k])
                },
            },
    {
        match self {
            DeviceKind::NovaProWireless => match NovaProWireless::new(devices) {
                Ok(dev) => Ok(Box::new(dev)),
                Err(e) => Err(e),
            },
            DeviceKind::Nova7 => match Nova7::new(devices) {
                Ok(dev) => Ok(Box::new(dev)),
                Err(e) => Err(e),
            },
        }
    }
}

/// Enabling is setting, not toggling: writing the enable messages a second
/// time leaves every switch as the first time left it.
pub proof fn lemma_enable_idempotent(kind: DeviceKind, before: Features)
    ensures
        kind.effect_all(kind.effect_all(before, kind.enable_messages()), kind.enable_messages())
            == kind.effect_all(before, kind.enable_messages()),
{
    lemma_switching(kind, before, true);
    lemma_switching(kind, kind.effect_all(before, kind.enable_messages()), true);
}

/// Disabling is setting too: a second run of the disable messages changes
/// nothing.
pub proof fn lemma_disable_idempotent(kind: DeviceKind, before: Features)
    ensures
        kind.effect_all(kind.effect_all(before, kind.disable_messages()), kind.disable_messages())
            == kind.effect_all(before, kind.disable_messages()),
{
    lemma_switching(kind, before, false);
    lemma_switching(kind, kind.effect_all(before, kind.disable_messages()), false);
}

/// What the enable messages (`state` true) and the disable messages (`state`
/// false) come to: a base station has both switches in that state, whatever
/// they were; a headset without switches is as it was.
pub proof fn lemma_switching(kind: DeviceKind, before: Features, state: bool)
    ensures
        kind.effect_all(
            before,
            if state {
                kind.enable_messages()
            } else {
                kind.disable_messages()
            },
        ) == match kind {
            DeviceKind::NovaProWireless => Features { chatmix: state, sonar_icon: state },
            DeviceKind::Nova7 => before,
        },
{
    let messages = if state {
        kind.enable_messages()
    } else {
        kind.disable_messages()
    };
    reveal_with_fuel(DeviceKind::effect_all, 3);
    match kind {
        DeviceKind::NovaProWireless => {
            let icon = NovaProWireless::switch_message(NovaProWireless::OPT_SONAR_ICON, state);
            let mixer = NovaProWireless::switch_message(
                NovaProWireless::OPT_CHATMIX_ENABLE,
                state,
            );
            assert(messages.drop_last() =~= seq![icon]);
            assert(messages.drop_last().drop_last() =~= Seq::<Seq<u8>>::empty());
            assert(messages.last() == mixer);
            assert(messages.drop_last().last() == icon);
            assert(icon[0] == NovaProWireless::TX && icon[1] == NovaProWireless::OPT_SONAR_ICON);
            assert(mixer[0] == NovaProWireless::TX && mixer[1]
                == NovaProWireless::OPT_CHATMIX_ENABLE);
            assert(icon[2] == (if state {
                1u8
            } else {
                0u8
            }));
            assert(mixer[2] == (if state {
                1u8
            } else {
                0u8
            }));
        },
        DeviceKind::Nova7 => {},
    }
}

/// What every supported headset offers, whatever its family.
pub trait Device {
    /// The family of the headset.
    spec fn kind(&self) -> DeviceKind;

    /// The place of the headset's mixer interface in the enumeration that it
    /// was found in.
    spec fn spec_bus_index(&self) -> usize;

    /// The product identifier that the enumeration gave.
    spec fn spec_product_id(&self) -> u16;

    /// Takes the first of `devices` that the family accepts; `NotFound` when
    /// it accepts none.
    fn new(devices: &[HidDeviceInfo]) -> Result<Self, DeviceError> where Self: Sized;

    /// The control messages that switch mixer reporting on, to be written in
    /// this order. A write that fails ends the session; none is repeated.
    fn enable(&self) -> (r: Vec<Vec<u8>>)
        ensures
            texts(r@) == self.kind().enable_messages(),
    ;

    /// The control messages that switch mixer reporting off.
    fn disable(&self) -> (r: Vec<Vec<u8>>)
        ensures
            texts(r@) == self.kind().disable_messages(),
    ;

    /// The volumes that a report carries, game first. `report` holds the
    /// bytes that one read returned: none when the read timed out.
    fn poll_volumes(&self, report: &[u8]) -> (r: Option<(u8, u8)>)
        ensures
            r == decode(report@, self.kind().layout()),
    ;

    /// The name of the headset's output, which the routing is resolved
    /// against.
    fn output_name(&self) -> (r: &'static str)
        ensures
            r == self.kind().spec_output_name(self.spec_product_id()),
    ;

    /// The output name made readable.
    fn display_name(&self) -> (r: String)
        ensures
            r@ == pretty(self.kind().spec_output_name(self.spec_product_id())@),
    ;

    /// The length of the buffer that a report is read into.
    fn report_len(&self) -> (r: usize)
        ensures
            r == self.kind().layout().len,
    ;

    /// How long one read waits for a report, in milliseconds.
    fn read_timeout(&self) -> (r: i32)
        ensures
            r == READ_TIMEOUT,
    ;

    /// The place of the headset's mixer interface in the enumeration.
    fn bus_index(&self) -> (r: usize)
        ensures
            r == self.spec_bus_index(),
    ;

    /// The product identifier that the enumeration gave.
    fn product_id(&self) -> (r: u16)
        ensures
            r == self.spec_product_id(),
    ;
}

/// The place of the first of `devices` that `kind` accepts.
pub fn find_accepted(kind: DeviceKind, devices: &[HidDeviceInfo]) -> (r: Option<usize>)
    ensures
        match r {
            Some(at) => {
                &&& at < devices@.len()
                &&& kind.accepts(devices@[at as int])
                &&& forall|k: int| 0 <= k < at ==> !kind.accepts(#[trigger] devices@[k])
            },
            None => forall|k: int| 0 <= k < devices@.len() ==> !kind.accepts(#[trigger] devices@[k]),
        },
{
    let mut at: usize = 0;
    while at < devices.len()
        invariant
            at <= devices.len(),
            forall|k: int| 0 <= k < at ==> !kind.accepts(#[trigger] devices@[k]),
        decreases devices.len() - at,
    {
        let accepted = match kind {
            DeviceKind::NovaProWireless => NovaProWireless::is_match(&devices[at]),
            DeviceKind::Nova7 => Nova7::is_match(&devices[at]),
        };
        if accepted {
            return Some(at);
        }
        at += 1;
    }
    None
}

/// `kind` accepts none of `devices`.
pub open spec fn absent(kind: DeviceKind, devices: Seq<HidDeviceInfo>) -> bool {
    forall|k: int| 0 <= k < devices.len() ==> !kind.accepts(#[trigger] devices[k])
}

/// The probe order is the order of `all`: each family is followed by the one
/// that stands after it, and the last by none.
pub proof fn lemma_probe_order(i: int)
    requires
        0 <= i < DeviceKind::spec_all().len(),
    ensures
        DeviceKind::spec_all()[i].spec_next() == if i + 1 < DeviceKind::spec_all().len() {
            Some(DeviceKind::spec_all()[i + 1])
        } else {
            None
        },
{
}

/// Probes the families in order and stops at the first that has a headset
/// on the bus. `None` when no family has one.
pub fn try_probe(devices: &[HidDeviceInfo]) -> (r: Option<(Box<dyn Device>, DeviceKind)>)
    ensures
        match r {
            Some((dev, kind)) => {
                &&& dev.kind() == kind
                &&& dev.spec_bus_index() < devices@.len()
                &&& kind.accepts(devices@[dev.spec_bus_index() as int])
                &&& forall|k: int|
                    0 <= k < dev.spec_bus_index() ==> !kind.accepts(#[trigger] devices@[k])
                &&& dev.spec_product_id() == devices@[dev.spec_bus_index() as int].product_id
                &&& exists|i: int|
                    0 <= i < DeviceKind::spec_all().len() && DeviceKind::spec_all()[i] == kind
                        && forall|j: int|
                        0 <= j < i ==> absent(#[trigger] DeviceKind::spec_all()[j], devices@)
            },
            None => forall|j: int|
                0 <= j < DeviceKind::spec_all().len() ==> absent(
                    #[trigger] DeviceKind::spec_all()[j],
                    devices@,
                ),
        },
{
    let kinds = DeviceKind::all();
    let mut i: usize = 0;
    while i < kinds.len()
        invariant
            i <= kinds.len(),
            kinds@ == DeviceKind::spec_all(),
            forall|j: int| 0 <= j < i ==> absent(#[trigger] DeviceKind::spec_all()[j], devices@),
        decreases kinds.len() - i,
    {
        let kind = kinds[i];
        match kind.probe(devices) {
            Ok(dev) => {
                let found = Some((dev, kind));
                proof {
                    // What the probe promised of the device, said again of
                    // the pair that holds it now.
                    assert(DeviceKind::spec_all()[i as int] == kind);
                    assert(found matches Some((d, k)) && d.kind() == k && d.spec_bus_index()
                        < devices@.len() && k.accepts(devices@[d.spec_bus_index() as int])
                        && d.spec_product_id() == devices@[d.spec_bus_index() as int].product_id
                        && forall|n: int|
                        0 <= n < d.spec_bus_index() ==> !k.accepts(#[trigger] devices@[n]));
                }
                return found;
            },
            Err(_) => {},
        }
        i += 1;
    }
    None
}

} // verus!
