//! Input reports: checking the raw reports of each controller kind and turning
//! them into the canonical frame and a battery level.
use vstd::prelude::*;

use crate::device::{is_first_family, is_wireless, DSType};
use crate::output::zeroed;

verus! {

/// Length of a wired input report, and of the canonical frame.
pub const PACKET_LEN_USB: usize = 64;

/// Length of a wireless input report.
pub const PACKET_LEN_BT: usize = 78;

/// Why a raw input report was refused.
#[derive(Clone, Copy, Debug, PartialEq, Eq, Structural)]
pub enum DecodeError {
    /// The report does not have the length of its kind.
    WrongLength,
    /// The signature byte is not the one of its kind.
    InvalidFrame,
    /// The charging-status field of a second-family report holds an unknown value.
    BadChargingStatus,
}

/// Length of the input reports of a controller kind.
pub open spec fn report_len(t: DSType) -> nat {
    if is_wireless(t) {
        PACKET_LEN_BT as nat
    } else {
        PACKET_LEN_USB as nat
    }
}

/// The first byte of a well-formed input report of a controller kind.
pub open spec fn signature(t: DSType) -> u8 {
    match t {
        DSType::DS4BT => 0x11,
        DSType::DS4USB => 0x01,
        DSType::SenseBT => 0x31,
        DSType::SenseUSB => 0x01,
    }
}

/// Where a controller kind reports its battery.
pub open spec fn battery_offset(t: DSType) -> int {
    match t {
        DSType::DS4BT => 32,
        DSType::DS4USB => 30,
        DSType::SenseBT => 54,
        DSType::SenseUSB => 53,
    }
}

/// The battery level carried by a byte of the first family: a tenth in the low nibble.
pub open spec fn ds4_battery(b: u8) -> u8 {
    ((b % 16) * 10) as u8
}

/// The charging status of a second-family battery byte: its high nibble.
pub open spec fn charging_status(b: u8) -> u8 {
    b / 16
}

/// Whether a second-family battery byte holds a known charging status.
pub open spec fn known_status(b: u8) -> bool {
    charging_status(b) <= 2
}

/// The battery level carried by a second-family byte: a tenth in the low nibble
/// while status is 0 or 1, full when status is 2.
pub open spec fn dsense_battery(b: u8) -> u8 {
    if charging_status(b) == 2 {
        100
    } else {
        ((b % 16) * 10) as u8
    }
}

/// Whether a raw report carries a battery reading that can be decoded.
pub open spec fn battery_readable(t: DSType, raw: Seq<u8>) -> bool {
    is_first_family(t) || known_status(raw[battery_offset(t)])
}

/// The battery level of a raw report.
pub open spec fn battery_level(t: DSType, raw: Seq<u8>) -> u8 {
    if is_first_family(t) {
        ds4_battery(raw[battery_offset(t)])
    } else {
        dsense_battery(raw[battery_offset(t)])
    }
}

/// The canonical frame of a second-family report whose stick bytes start at `d + 1`.
pub open spec fn dsense_frame(raw: Seq<u8>, d: int) -> Seq<u8> {
    Seq::new(
        PACKET_LEN_USB as nat,
        |i: int|
            if 1 <= i <= 4 {
                raw[i + d]
            } else if i == 5 {
                raw[8 + d]
            } else if i == 6 {
                raw[9 + d]
            } else if i == 8 {
                raw[5 + d]
            } else if i == 9 {
                raw[6 + d]
            } else {
                0u8
            },
    )
}

/// The canonical frame of a raw report: the first family's wired layout.
pub open spec fn canonical_frame(t: DSType, raw: Seq<u8>) -> Seq<u8> {
    match t {
        DSType::DS4BT => raw.subrange(2, 2 + PACKET_LEN_USB as int),
        DSType::DS4USB => raw,
        DSType::SenseBT => dsense_frame(raw, 1),
        DSType::SenseUSB => dsense_frame(raw, 0),
    }
}

/// The length of the input reports of a controller kind.
pub fn input_report_len(t: DSType) -> (r: usize)
    ensures
        r == report_len(t),
{
    match t {
        DSType::DS4BT | DSType::SenseBT => PACKET_LEN_BT,
        DSType::DS4USB | DSType::SenseUSB => PACKET_LEN_USB,
    }
}

/// Copies `data[start..end]`.
fn copy_range(data: &[u8], start: usize, end: usize) -> (r: Vec<u8>)
    requires
        start <= end <= data@.len(),
    ensures
        r@ == data@.subrange(start as int, end as int),
{
    let mut v: Vec<u8> = Vec::with_capacity(end - start);
    let mut i: usize = start;
    while i < end
        invariant
            start <= i <= end <= data@.len(),
            v@ == data@.subrange(start as int, i as int),
        decreases end - i,
    {
        v.push(data[i]);
        i = i + 1;
        assert(v@ =~= data@.subrange(start as int, i as int));
    }
    v
}

/// Builds the canonical frame of a second-family report.
fn dsense_to_frame(inner: &Vec<u8>, d: usize) -> (r: Vec<u8>)
    requires
        d <= 1,
        inner@.len() >= 64,
    ensures
        r@ == dsense_frame(inner@, d as int),
{
    let mut p = zeroed(PACKET_LEN_USB);
    p.set(1, inner[1 + d]);
    p.set(2, inner[2 + d]);
    p.set(3, inner[3 + d]);
    p.set(4, inner[4 + d]);
    p.set(5, inner[8 + d]);
    p.set(6, inner[9 + d]);
    p.set(8, inner[5 + d]);
    p.set(9, inner[6 + d]);
    assert(p@ =~= dsense_frame(inner@, d as int));
    p
}

/// Reads the battery level of a second-family battery byte.
fn dsense_battery_of(b: u8) -> (r: Result<u8, DecodeError>)
    ensures
        r == (if known_status(b) {
            Ok::<u8, DecodeError>(dsense_battery(b))
        } else {
            Err::<u8, DecodeError>(DecodeError::BadChargingStatus)
        }),
{
    assert(b >> 4u8 == b / 16 && b & 0xFu8 == b % 16) by (bit_vector);
    match b >> 4 {
        0x00 | 0x01 => Ok((b & 0xF) * 10),
        0x02 => Ok(100),
        _ => Err(DecodeError::BadChargingStatus),
    }
}

/// An input report of a wireless first-family controller.
pub struct DS4PacketBT {
    inner: Vec<u8>,
}

impl View for DS4PacketBT {
    type V = Seq<u8>;

    closed spec fn view(&self) -> Seq<u8> {
        self.inner@
    }
}

impl DS4PacketBT {
    #[verifier::type_invariant]
    spec fn inv(self) -> bool {
        self.inner@.len() == PACKET_LEN_BT
    }

    /// An all-zero report.
    pub fn new() -> (r: DS4PacketBT)
        ensures
            r@ == Seq::new(PACKET_LEN_BT as nat, |_i: int| 0u8),
    {
        DS4PacketBT { inner: zeroed(PACKET_LEN_BT) }
    }

    /// Takes a report as read from the device. One of another length, or with
    /// another signature byte, is refused and leaves the packet as it was.
    pub fn read(&mut self, data: &[u8]) -> (r: Result<(), DecodeError>)
        ensures
            data@.len() != PACKET_LEN_BT ==> r == Err::<(), DecodeError>(DecodeError::WrongLength),
            data@.len() == PACKET_LEN_BT && data@[0] != signature(DSType::DS4BT) ==> r == Err::<
                (),
                DecodeError,
            >(DecodeError::InvalidFrame),
            data@.len() == PACKET_LEN_BT && data@[0] == signature(DSType::DS4BT) ==> r is Ok,
            r is Ok ==> final(self)@ == data@,
            r is Err ==> final(self)@ == old(self)@,
    {
        if data.len() != PACKET_LEN_BT {
            return Err(DecodeError::WrongLength);
        }
        if data[0] != 0x11 {
            return Err(DecodeError::InvalidFrame);
        }
        self.inner = copy_range(data, 0, PACKET_LEN_BT);
        Ok(())
    }

    /// The battery level, in percent.
    pub fn battery_capacity(&self) -> (r: u8)
        ensures
            r == battery_level(DSType::DS4BT, self@),
    {
        proof {
            use_type_invariant(self);
        }
        let b = self.inner[32];
        assert(b & 0xFu8 == b % 16) by (bit_vector);
        (b & 0xF) * 10
    }
    /// The report in the canonical layout.
    pub fn to_ds4_packet(&self) -> (r: Vec<u8>)
        ensures
            r@ == canonical_frame(DSType::DS4BT, self@),
    {
        proof {
            use_type_invariant(self);
        }
        copy_range(self.inner.as_slice(), 2, 2 + PACKET_LEN_USB)
    }

    /// Whether the report starts with the signature byte of its kind.
    pub fn is_valid(&self) -> (r: bool)
        ensures
            r == (self@[0] == signature(DSType::DS4BT)),
    {
        proof {
            use_type_invariant(self);
        }
        self.inner[0] == 0x11
    }

    /// The length of the reports of this kind.
    pub fn get_size(&self) -> (r: usize)
        ensures
            r == report_len(DSType::DS4BT),
    {
        PACKET_LEN_BT
    }
}

/// An input report of a wired first-family controller.
pub struct DS4PacketUSB {
    inner: Vec<u8>,
}

impl View for DS4PacketUSB {
    type V = Seq<u8>;

    closed spec fn view(&self) -> Seq<u8> {
        self.inner@
    }
}

impl DS4PacketUSB {
    #[verifier::type_invariant]
    spec fn inv(self) -> bool {
        self.inner@.len() == PACKET_LEN_USB
    }

    /// An all-zero report.
    pub fn new() -> (r: DS4PacketUSB)
        ensures
            r@ == Seq::new(PACKET_LEN_USB as nat, |_i: int| 0u8),
    {
        DS4PacketUSB { inner: zeroed(PACKET_LEN_USB) }
    }

    /// Takes a report as read from the device. One of another length, or with
    /// another signature byte, is refused and leaves the packet as it was.
    pub fn read(&mut self, data: &[u8]) -> (r: Result<(), DecodeError>)
        ensures
            data@.len() != PACKET_LEN_USB ==> r == Err::<(), DecodeError>(DecodeError::WrongLength),
            data@.len() == PACKET_LEN_USB && data@[0] != signature(DSType::DS4USB) ==> r == Err::<
                (),
                DecodeError,
            >(DecodeError::InvalidFrame),
            data@.len() == PACKET_LEN_USB && data@[0] == signature(DSType::DS4USB) ==> r is Ok,
            r is Ok ==> final(self)@ == data@,
            r is Err ==> final(self)@ == old(self)@,
    {
        if data.len() != PACKET_LEN_USB {
            return Err(DecodeError::WrongLength);
        }
        if data[0] != 0x01 {
            return Err(DecodeError::InvalidFrame);
        }
        self.inner = copy_range(data, 0, PACKET_LEN_USB);
        Ok(())
    }

    /// The battery level, in percent.
    pub fn battery_capacity(&self) -> (r: u8)
        ensures
            r == battery_level(DSType::DS4USB, self@),
    {
        proof {
            use_type_invariant(self);
        }
        let b = self.inner[30];
        assert(b & 0xFu8 == b % 16) by (bit_vector);
        (b & 0xF) * 10
    }
    /// The report in the canonical layout.
    pub fn to_ds4_packet(&self) -> (r: Vec<u8>)
        ensures
            r@ == canonical_frame(DSType::DS4USB, self@),
    {
        proof {
            use_type_invariant(self);
        }
        copy_range(self.inner.as_slice(), 0, PACKET_LEN_USB)
    }

    /// Whether the report starts with the signature byte of its kind.
    pub fn is_valid(&self) -> (r: bool)
        ensures
            r == (self@[0] == signature(DSType::DS4USB)),
    {
        proof {
            use_type_invariant(self);
        }
        self.inner[0] == 0x01
    }

    /// The length of the reports of this kind.
    pub fn get_size(&self) -> (r: usize)
        ensures
            r == report_len(DSType::DS4USB),
    {
        PACKET_LEN_USB
    }
}

/// An input report of a wireless second-family controller.
pub struct DSensePacketBT {
    inner: Vec<u8>,
}

impl View for DSensePacketBT {
    type V = Seq<u8>;

    closed spec fn view(&self) -> Seq<u8> {
        self.inner@
    }
}

impl DSensePacketBT {
    #[verifier::type_invariant]
    spec fn inv(self) -> bool {
        self.inner@.len() == PACKET_LEN_BT
    }

    /// An all-zero report.
    pub fn new() -> (r: DSensePacketBT)
        ensures
            r@ == Seq::new(PACKET_LEN_BT as nat, |_i: int| 0u8),
    {
        DSensePacketBT { inner: zeroed(PACKET_LEN_BT) }
    }

    /// Takes a report as read from the device. One of another length, or with
    /// another signature byte, is refused and leaves the packet as it was.
    pub fn read(&mut self, data: &[u8]) -> (r: Result<(), DecodeError>)
        ensures
            data@.len() != PACKET_LEN_BT ==> r == Err::<(), DecodeError>(DecodeError::WrongLength),
            data@.len() == PACKET_LEN_BT && data@[0] != signature(DSType::SenseBT) ==> r == Err::<
                (),
                DecodeError,
            >(DecodeError::InvalidFrame),
            data@.len() == PACKET_LEN_BT && data@[0] == signature(DSType::SenseBT) ==> r is Ok,
            r is Ok ==> final(self)@ == data@,
            r is Err ==> final(self)@ == old(self)@,
    {
        if data.len() != PACKET_LEN_BT {
            return Err(DecodeError::WrongLength);
        }
        if data[0] != 0x31 {
            return Err(DecodeError::InvalidFrame);
        }
        self.inner = copy_range(data, 0, PACKET_LEN_BT);
        Ok(())
    }

    /// The battery level, in percent.
    pub fn battery_capacity(&self) -> (r: Result<u8, DecodeError>)
        ensures
            battery_readable(DSType::SenseBT, self@) ==> r == Ok::<u8, DecodeError>(
                battery_level(DSType::SenseBT, self@),
            ),
            !battery_readable(DSType::SenseBT, self@) ==> r == Err::<u8, DecodeError>(
                DecodeError::BadChargingStatus,
            ),
    {
        proof {
            use_type_invariant(self);
        }
        dsense_battery_of(self.inner[54])
    }
    /// The report in the canonical layout.
    pub fn to_ds4_packet(&self) -> (r: Vec<u8>)
        ensures
            r@ == canonical_frame(DSType::SenseBT, self@),
    {
        proof {
            use_type_invariant(self);
        }
        dsense_to_frame(&self.inner, 1)
    }

    /// Whether the report starts with the signature byte of its kind.
    pub fn is_valid(&self) -> (r: bool)
        ensures
            r == (self@[0] == signature(DSType::SenseBT)),
    {
        proof {
            use_type_invariant(self);
        }
        self.inner[0] == 0x31
    }

    /// The length of the reports of this kind.
    pub fn get_size(&self) -> (r: usize)
        ensures
            r == report_len(DSType::SenseBT),
    {
        PACKET_LEN_BT
    }
}

impl Default for DSensePacketBT {
    fn default() -> (r: DSensePacketBT)
        ensures
            r@ == Seq::new(PACKET_LEN_BT as nat, |_i: int| 0u8),
    {
        DSensePacketBT::new()
    }
}

/// An input report of a wired second-family controller.
pub struct DSensePacketUSB {
    inner: Vec<u8>,
}

impl View for DSensePacketUSB {
    type V = Seq<u8>;

    closed spec fn view(&self) -> Seq<u8> {
        self.inner@
    }
}

impl DSensePacketUSB {
    #[verifier::type_invariant]
    spec fn inv(self) -> bool {
        self.inner@.len() == PACKET_LEN_USB
    }

    /// An all-zero report.
    pub fn new() -> (r: DSensePacketUSB)
        ensures
            r@ == Seq::new(PACKET_LEN_USB as nat, |_i: int| 0u8),
    {
        DSensePacketUSB { inner: zeroed(PACKET_LEN_USB) }
    }

    /// Takes a report as read from the device. One of another length, or with
    /// another signature byte, is refused and leaves the packet as it was.
    pub fn read(&mut self, data: &[u8]) -> (r: Result<(), DecodeError>)
        ensures
            data@.len() != PACKET_LEN_USB ==> r == Err::<(), DecodeError>(DecodeError::WrongLength),
            data@.len() == PACKET_LEN_USB && data@[0] != signature(DSType::SenseUSB) ==> r == Err::<
                (),
                DecodeError,
            >(DecodeError::InvalidFrame),
            data@.len() == PACKET_LEN_USB && data@[0] == signature(DSType::SenseUSB) ==> r is Ok,
            r is Ok ==> final(self)@ == data@,
            r is Err ==> final(self)@ == old(self)@,
    {
        if data.len() != PACKET_LEN_USB {
            return Err(DecodeError::WrongLength);
        }
        if data[0] != 0x01 {
            return Err(DecodeError::InvalidFrame);
        }
        self.inner = copy_range(data, 0, PACKET_LEN_USB);
        Ok(())
    }

    /// The battery level, in percent.
    pub fn battery_capacity(&self) -> (r: Result<u8, DecodeError>)
        ensures
            battery_readable(DSType::SenseUSB, self@) ==> r == Ok::<u8, DecodeError>(
                battery_level(DSType::SenseUSB, self@),
            ),
            !battery_readable(DSType::SenseUSB, self@) ==> r == Err::<u8, DecodeError>(
                DecodeError::BadChargingStatus,
            ),
    {
        proof {
            use_type_invariant(self);
        }
        dsense_battery_of(self.inner[53])
    }
    /// The report in the canonical layout.
    pub fn to_ds4_packet(&self) -> (r: Vec<u8>)
        ensures
            r@ == canonical_frame(DSType::SenseUSB, self@),
    {
        proof {
            use_type_invariant(self);
        }
        dsense_to_frame(&self.inner, 0)
    }

    /// Whether the report starts with the signature byte of its kind.
    pub fn is_valid(&self) -> (r: bool)
        ensures
            r == (self@[0] == signature(DSType::SenseUSB)),
    {
        proof {
            use_type_invariant(self);
        }
        self.inner[0] == 0x01
    }

    /// The length of the reports of this kind.
    pub fn get_size(&self) -> (r: usize)
        ensures
            r == report_len(DSType::SenseUSB),
    {
        PACKET_LEN_USB
    }
}

impl Default for DSensePacketUSB {
    fn default() -> (r: DSensePacketUSB)
        ensures
            r@ == Seq::new(PACKET_LEN_USB as nat, |_i: int| 0u8),
    {
        DSensePacketUSB::new()
    }
}

/// A decoded input report.
#[derive(Debug)]
pub struct Decoded {
    /// The canonical frame that goes to the peer.
    pub frame: Vec<u8>,
    /// The battery level, in percent.
    pub battery: u8,
}

/// Whether a raw report of a controller kind decodes.
pub open spec fn decodable(t: DSType, raw: Seq<u8>) -> bool {
    &&& raw.len() == report_len(t)
    &&& raw[0] == signature(t)
    &&& battery_readable(t, raw)
}

/// The error that a raw report that does not decode gives.
pub open spec fn decode_error(t: DSType, raw: Seq<u8>) -> DecodeError {
    if raw.len() != report_len(t) {
        DecodeError::WrongLength
    } else if raw[0] != signature(t) {
        DecodeError::InvalidFrame
    } else {
        DecodeError::BadChargingStatus
    }
}

/// Checks a raw report of a controller kind and turns it into the canonical
/// frame and the battery level.
pub fn decode(t: DSType, raw: &[u8]) -> (r: Result<Decoded, DecodeError>)
    ensures
        decodable(t, raw@) <==> r is Ok,
        r is Ok ==> r->Ok_0.frame@ == canonical_frame(t, raw@) && r->Ok_0.battery == battery_level(
            t,
            raw@,
        ),
        r is Err ==> r->Err_0 == decode_error(t, raw@),
{
    match t {
        DSType::DS4BT => {
            let mut p = DS4PacketBT::new();
            match p.read(raw) {
                Ok(()) => Ok(Decoded { battery: p.battery_capacity(), frame: p.to_ds4_packet() }),
                Err(e) => Err(e),
            }
        },
        DSType::DS4USB => {
            let mut p = DS4PacketUSB::new();
            match p.read(raw) {
                Ok(()) => Ok(Decoded { battery: p.battery_capacity(), frame: p.to_ds4_packet() }),
                Err(e) => Err(e),
            }
        },
        DSType::SenseBT => {
            let mut p = DSensePacketBT::new();
            match p.read(raw) {
                Ok(()) => match p.battery_capacity() {
                    Ok(battery) => Ok(Decoded { battery, frame: p.to_ds4_packet() }),
                    Err(e) => Err(e),
                },
                Err(e) => Err(e),
            }
        },
        DSType::SenseUSB => {
            let mut p = DSensePacketUSB::new();
            match p.read(raw) {
                Ok(()) => match p.battery_capacity() {
                    Ok(battery) => Ok(Decoded { battery, frame: p.to_ds4_packet() }),
                    Err(e) => Err(e),
                },
                Err(e) => Err(e),
            }
        },
    }
}

/// Where a controller kind reports stick `k` (left x, left y, right x, right y).
pub open spec fn axis_offset(t: DSType, k: int) -> int {
    match t {
        DSType::DS4BT => 3 + k,
        DSType::DS4USB => 1 + k,
        DSType::SenseBT => 2 + k,
        DSType::SenseUSB => 1 + k,
    }
}

/// Where a controller kind reports trigger `k` (left, right).
pub open spec fn trigger_offset(t: DSType, k: int) -> int {
    match t {
        DSType::DS4BT => 10 + k,
        DSType::DS4USB => 8 + k,
        DSType::SenseBT => 6 + k,
        DSType::SenseUSB => 5 + k,
    }
}

/// Where a controller kind reports button byte `k` (the first holds the hat).
pub open spec fn button_offset(t: DSType, k: int) -> int {
    match t {
        DSType::DS4BT => 7 + k,
        DSType::DS4USB => 5 + k,
        DSType::SenseBT => 9 + k,
        DSType::SenseUSB => 8 + k,
    }
}

/// Stick `k` of a canonical frame.
pub open spec fn frame_axis(frame: Seq<u8>, k: int) -> u8 {
    frame[1 + k]
}

/// Trigger `k` of a canonical frame.
pub open spec fn frame_trigger(frame: Seq<u8>, k: int) -> u8 {
    frame[8 + k]
}

/// Button byte `k` of a canonical frame.
pub open spec fn frame_buttons(frame: Seq<u8>, k: int) -> u8 {
    frame[5 + k]
}

/// For every controller kind, the sticks, triggers and buttons read back from the
/// canonical frame of a report are the bytes at that kind's offsets, and the
/// frame has the canonical length.
pub proof fn lemma_frame_reproduces_layout(t: DSType, raw: Seq<u8>)
    requires
        raw.len() == report_len(t),
    ensures
        canonical_frame(t, raw).len() == PACKET_LEN_USB,
        forall|k: int| 0 <= k < 4 ==> frame_axis(canonical_frame(t, raw), k) == raw[axis_offset(t, k)],
        forall|k: int|
            0 <= k < 2 ==> frame_trigger(canonical_frame(t, raw), k) == raw[trigger_offset(t, k)],
        forall|k: int|
            0 <= k < 2 ==> frame_buttons(canonical_frame(t, raw), k) == raw[button_offset(t, k)],
{
}

} // verus!
