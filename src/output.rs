//! Output reports: the accumulated force-feedback, light and battery state of a
//! session, and the per-family, per-transport reports built from it.
use vstd::prelude::*;

use crate::checksum::{bt_checksum, calculate_checksum_bt, BT_CRC_COVERED};
use crate::device::{is_first_family, is_wireless, DSType};

verus! {

/// Latency field of the first family's wireless output report.
pub const DEFAULT_LATENCY: u8 = 4;

/// Length of the first family's wired output report.
pub const DS4_USB_REPORT_LEN: usize = 32;

/// Length of the second family's wired output report.
pub const DSENSE_USB_REPORT_LEN: usize = 63;

/// Length of every wireless output report, checksum included.
pub const BT_REPORT_LEN: usize = 78;

/// A command for the device of one session.
#[derive(Clone, Copy, Debug, PartialEq, Eq, Structural)]
pub enum ControlType {
    Rumble { large: u8, small: u8 },
    Color { r: u8, g: u8, b: u8 },
    Battery(u8),
}

/// A buffer of `n` zero bytes.
pub(crate) fn zeroed(n: usize) -> (r: Vec<u8>)
    ensures
        r@ == Seq::new(n as nat, |_i: int| 0u8),
{
    let mut v: Vec<u8> = Vec::with_capacity(n);
    let mut i: usize = 0;
    while i < n
        invariant
            i <= n,
            v@ == Seq::new(i as nat, |_i: int| 0u8),
        decreases n - i,
    {
        v.push(0u8);
        i = i + 1;
        assert(v@ =~= Seq::new(i as nat, |_i: int| 0u8));
    }
    v
}

/// A wireless report: its first 74 bytes followed by their checksum.
pub open spec fn with_bt_checksum(body: Seq<u8>) -> Seq<u8> {
    body.subrange(0, BT_CRC_COVERED as int) + bt_checksum(body.subrange(0, BT_CRC_COVERED as int))
}

/// Replaces the last four bytes of a 78-byte report by the checksum of the rest.
fn seal_bt_report(pkt: &mut Vec<u8>)
    requires
        old(pkt)@.len() == BT_REPORT_LEN,
    ensures
        final(pkt)@ == with_bt_checksum(old(pkt)@),
{
    let crc = calculate_checksum_bt(&pkt.as_slice()[0..BT_CRC_COVERED]);
    let ghost body = pkt@;
    pkt.set(74, crc[0]);
    pkt.set(75, crc[1]);
    pkt.set(76, crc[2]);
    pkt.set(77, crc[3]);
    assert(pkt@ =~= with_bt_checksum(body));
}

/// Output state of a first-family controller.
#[derive(Debug)]
pub struct DS4Controls {
    pub large: u8,
    pub small: u8,
    pub red: u8,
    pub green: u8,
    pub blue: u8,
    pub battery: u8,
}

/// The light colour that a first-family report carries: red when the battery is
/// empty, else the colour that was set.
pub open spec fn ds4_led(c: DS4Controls) -> (u8, u8, u8) {
    if c.battery == 0 {
        (255u8, 0u8, 0u8)
    } else {
        (c.red, c.green, c.blue)
    }
}

/// The rumble and light block shared by both first-family reports.
pub open spec fn ds4_fill(c: DS4Controls) -> Seq<u8> {
    seq![c.small, c.large, ds4_led(c).0, ds4_led(c).1, ds4_led(c).2, 0u8, 0u8]
}

/// The first family's wired output report.
pub open spec fn ds4_usb_report(c: DS4Controls) -> Seq<u8> {
    Seq::new(
        DS4_USB_REPORT_LEN as nat,
        |i: int|
            if i == 0 {
                0x05u8
            } else if i == 1 {
                0x07u8
            } else if 4 <= i < 11 {
                ds4_fill(c)[i - 4]
            } else {
                0u8
            },
    )
}

/// The first family's wireless output report before its checksum.
pub open spec fn ds4_bt_body(c: DS4Controls) -> Seq<u8> {
    Seq::new(
        BT_REPORT_LEN as nat,
        |i: int|
            if i == 0 {
                0x11u8
            } else if i == 1 {
                0xC0u8 | DEFAULT_LATENCY
            } else if i == 3 {
                0x07u8
            } else if 6 <= i < 13 {
                ds4_fill(c)[i - 6]
            } else if i == 23 {
                0x49u8
            } else if i == 25 {
                0x85u8
            } else {
                0u8
            },
    )
}

/// The first family's wireless output report.
pub open spec fn ds4_bt_report(c: DS4Controls) -> Seq<u8> {
    with_bt_checksum(ds4_bt_body(c))
}

impl DS4Controls {
    /// No rumble, blue light, full battery.
    pub fn new() -> (r: DS4Controls)
        ensures
            r == (DS4Controls { large: 0, small: 0, red: 0, green: 0, blue: 255, battery: 100 }),
    {
        DS4Controls { large: 0, small: 0, red: 0, green: 0, blue: 255, battery: 100 }
    }

    pub fn set_color(&mut self, r: u8, g: u8, b: u8)
        ensures
            *final(self) == (DS4Controls { red: r, green: g, blue: b, ..*old(self) }),
    {
        self.red = r;
        self.green = g;
        self.blue = b;
    }

    pub fn set_rumble(&mut self, large: u8, small: u8)
        ensures
            *final(self) == (DS4Controls { large: large, small: small, ..*old(self) }),
    {
        self.large = large;
        self.small = small;
    }

    pub fn set_battery(&mut self, level: u8)
        ensures
            *final(self) == (DS4Controls { battery: level, ..*old(self) }),
    {
        self.battery = level;
    }

    /// The rumble and light block of both reports.
    pub fn fill_packet(&self) -> (r: Vec<u8>)
        ensures
            r@ == ds4_fill(*self),
    {
        let (mut red, mut green, mut blue) = (self.red, self.green, self.blue);
        if self.battery == 0 {
            red = 255;
            green = 0;
            blue = 0;
        }
        let mut pkt: Vec<u8> = Vec::with_capacity(7);
        pkt.push(self.small);
        pkt.push(self.large);
        pkt.push(red);
        pkt.push(green);
        pkt.push(blue);
        pkt.push(0u8);
        pkt.push(0u8);
        assert(pkt@ =~= ds4_fill(*self));
        pkt
    }

    /// The wired output report.
    pub fn make_packet_usb(&self) -> (r: Vec<u8>)
        ensures
            r@ == ds4_usb_report(*self),
    {
        let fill = self.fill_packet();
        let mut pkt = zeroed(DS4_USB_REPORT_LEN);
        let mut i: usize = 0;
        while i < 7
            invariant
                i <= 7,
                fill@ == ds4_fill(*self),
                pkt@.len() == DS4_USB_REPORT_LEN,
                forall|j: int| 4 <= j < 4 + i ==> pkt@[j] == fill@[j - 4],
                forall|j: int| 4 + i <= j < DS4_USB_REPORT_LEN ==> pkt@[j] == 0u8,
                forall|j: int| 0 <= j < 4 ==> pkt@[j] == 0u8,
            decreases 7 - i,
        {
            pkt.set(4 + i, fill[i]);
            i = i + 1;
        }
        pkt.set(0, 0x05);
        pkt.set(1, 0x07);
        assert(pkt@ =~= ds4_usb_report(*self));
        pkt
    }

    /// The wireless output report, checksum included.
    pub fn make_packet_with_checksum(&self) -> (r: Vec<u8>)
        ensures
            r@ == ds4_bt_report(*self),
    {
        let fill = self.fill_packet();
        let mut pkt = zeroed(BT_REPORT_LEN);
        let mut i: usize = 0;
        while i < 7
            invariant
                i <= 7,
                fill@ == ds4_fill(*self),
                pkt@.len() == BT_REPORT_LEN,
                forall|j: int| 6 <= j < 6 + i ==> pkt@[j] == fill@[j - 6],
                forall|j: int| 0 <= j < BT_REPORT_LEN && !(6 <= j < 6 + i) ==> pkt@[j] == 0u8,
            decreases 7 - i,
        {
            pkt.set(6 + i, fill[i]);
            i = i + 1;
        }
        pkt.set(0, 0x11);
        pkt.set(1, 0xC0 | DEFAULT_LATENCY);
        pkt.set(3, 0x07);
        pkt.set(23, 0x49);
        pkt.set(25, 0x85);
        assert(pkt@ =~= ds4_bt_body(*self));
        seal_bt_report(&mut pkt);
        pkt
    }
}

impl Default for DS4Controls {
    fn default() -> (r: DS4Controls)
        ensures
            r == (DS4Controls { large: 0, small: 0, red: 0, green: 0, blue: 255, battery: 100 }),
    {
        DS4Controls::new()
    }
}

/// The player-indicator pattern that the second family shows for a battery level.
pub open spec fn player_led_for(battery: u8) -> u8 {
    if battery >= 90 {
        0x1F
    } else if battery >= 70 {
        0x1B
    } else if battery >= 50 {
        0x15
    } else if battery >= 20 {
        0x06
    } else if battery >= 10 {
        0x04
    } else {
        0
    }
}

pub fn get_player_led_from_battery(battery: u8) -> (r: u8)
    ensures
        r == player_led_for(battery),
{
    if battery >= 90 {
        return 0x1F;
    }
    if battery >= 70 {
        return 0x1B;
    }
    if battery >= 50 {
        return 0x15;
    }
    if battery >= 20 {
        return 0x06;
    }
    if battery >= 10 {
        return 0x04;
    }
    0
}

/// Output state of a second-family controller. Its wireless reports carry a
/// sequence number, taken modulo 16, that advances with every report.
#[derive(Debug)]
pub struct DSenseControls {
    pub large: u8,
    pub small: u8,
    pub red: u8,
    pub green: u8,
    pub blue: u8,
    pub battery: u8,
    pub seq: u8,
}

/// The block shared by both second-family reports.
pub open spec fn dsense_fill(c: DSenseControls) -> Seq<u8> {
    Seq::new(
        47,
        |i: int|
            if i == 0 {
                0x0Fu8
            } else if i == 1 {
                0x55u8
            } else if i == 2 {
                c.small
            } else if i == 3 {
                c.large
            } else if i == 38 {
                0x05u8
            } else if i == 42 {
                0x02u8
            } else if i == 43 {
                player_led_for(c.battery)
            } else if i == 44 {
                c.red
            } else if i == 45 {
                c.green
            } else if i == 46 {
                c.blue
            } else {
                0u8
            },
    )
}

/// The second family's wired output report.
pub open spec fn dsense_usb_report(c: DSenseControls) -> Seq<u8> {
    Seq::new(
        DSENSE_USB_REPORT_LEN as nat,
        |i: int|
            if i == 0 {
                0x02u8
            } else if 1 <= i < 48 {
                dsense_fill(c)[i - 1]
            } else {
                0u8
            },
    )
}

/// The sequence byte of a second-family wireless report: the number in the high nibble.
pub open spec fn sequence_byte(n: u8) -> u8 {
    ((n % 16) * 16) as u8
}

/// The sequence number that follows `n`.
pub open spec fn next_sequence(n: u8) -> u8 {
    ((n % 16 + 1) % 16) as u8
}

/// The second family's wireless output report before its checksum.
pub open spec fn dsense_bt_body(c: DSenseControls) -> Seq<u8> {
    Seq::new(
        BT_REPORT_LEN as nat,
        |i: int|
            if i == 0 {
                0x31u8
            } else if i == 1 {
                sequence_byte(c.seq)
            } else if i == 2 {
                0x10u8
            } else if 3 <= i < 50 {
                dsense_fill(c)[i - 3]
            } else {
                0u8
            },
    )
}

/// The second family's wireless output report.
pub open spec fn dsense_bt_report(c: DSenseControls) -> Seq<u8> {
    with_bt_checksum(dsense_bt_body(c))
}

/// Whether two second-family states agree on everything but the sequence number.
pub open spec fn same_output(a: DSenseControls, b: DSenseControls) -> bool {
    &&& a.large == b.large
    &&& a.small == b.small
    &&& a.red == b.red
    &&& a.green == b.green
    &&& a.blue == b.blue
    &&& a.battery == b.battery
}

impl DSenseControls {
    /// No rumble, blue light, full battery, sequence number zero.
    pub fn new() -> (r: DSenseControls)
        ensures
            r == (DSenseControls {
                large: 0,
                small: 0,
                red: 0,
                green: 0,
                blue: 255,
                battery: 100,
                seq: 0,
            }),
    {
        DSenseControls { large: 0, small: 0, red: 0, green: 0, blue: 255, battery: 100, seq: 0 }
    }

    pub fn set_color(&mut self, r: u8, g: u8, b: u8)
        ensures
            *final(self) == (DSenseControls { red: r, green: g, blue: b, ..*old(self) }),
    {
        self.red = r;
        self.green = g;
        self.blue = b;
    }

    pub fn set_rumble(&mut self, large: u8, small: u8)
        ensures
            *final(self) == (DSenseControls { large: large, small: small, ..*old(self) }),
    {
        self.large = large;
        self.small = small;
    }

    pub fn set_battery(&mut self, level: u8)
        ensures
            *final(self) == (DSenseControls { battery: level, ..*old(self) }),
    {
        self.battery = level;
    }

    /// The block shared by both reports.
    pub fn fill_packet(&self) -> (r: Vec<u8>)
        ensures
            r@ == dsense_fill(*self),
    {
        let mut pkt = zeroed(47);
        pkt.set(0, 0x0F);
        pkt.set(1, 0x55);
        pkt.set(2, self.small);
        pkt.set(3, self.large);
        pkt.set(38, 0x05);
        pkt.set(42, 0x02);
        pkt.set(43, get_player_led_from_battery(self.battery));
        pkt.set(44, self.red);
        pkt.set(45, self.green);
        pkt.set(46, self.blue);
        assert(pkt@ =~= dsense_fill(*self));
        pkt
    }

    /// The wired output report.
    pub fn make_packet_usb(&self) -> (r: Vec<u8>)
        ensures
            r@ == dsense_usb_report(*self),
    {
        let fill = self.fill_packet();
        let mut pkt = zeroed(DSENSE_USB_REPORT_LEN);
        let mut i: usize = 0;
        while i < 47
            invariant
                i <= 47,
                fill@ == dsense_fill(*self),
                pkt@.len() == DSENSE_USB_REPORT_LEN,
                forall|j: int| 1 <= j < 1 + i ==> pkt@[j] == fill@[j - 1],
                forall|j: int| 0 <= j < DSENSE_USB_REPORT_LEN && !(1 <= j < 1 + i) ==> pkt@[j] == 0u8,
            decreases 47 - i,
        {
            pkt.set(1 + i, fill[i]);
            i = i + 1;
        }
        pkt.set(0, 0x02);
        assert(pkt@ =~= dsense_usb_report(*self));
        pkt
    }

    /// The wireless output report, checksum included; the sequence number advances.
    pub fn make_packet_with_checksum(&mut self) -> (r: Vec<u8>)
        ensures
            r@ == dsense_bt_report(*old(self)),
            same_output(*final(self), *old(self)),
            final(self).seq == next_sequence(old(self).seq),
    {
        let fill = self.fill_packet();
        let mut pkt = zeroed(BT_REPORT_LEN);
        let mut i: usize = 0;
        while i < 47
            invariant
                i <= 47,
                fill@ == dsense_fill(*self),
                pkt@.len() == BT_REPORT_LEN,
                forall|j: int| 3 <= j < 3 + i ==> pkt@[j] == fill@[j - 3],
                forall|j: int| 0 <= j < BT_REPORT_LEN && !(3 <= j < 3 + i) ==> pkt@[j] == 0u8,
            decreases 47 - i,
        {
            pkt.set(3 + i, fill[i]);
            i = i + 1;
        }
        let n: u8 = self.seq % 16;
        pkt.set(0, 0x31);
        pkt.set(1, n * 16);
        pkt.set(2, 0x10);
        assert(pkt@ =~= dsense_bt_body(*self));
        self.seq = if n == 15 { 0 } else { n + 1 };
        seal_bt_report(&mut pkt);
        pkt
    }
}

impl Default for DSenseControls {
    fn default() -> (r: DSenseControls)
        ensures
            r == (DSenseControls {
                large: 0,
                small: 0,
                red: 0,
                green: 0,
                blue: 255,
                battery: 100,
                seq: 0,
            }),
    {
        DSenseControls::new()
    }
}

/// The output state of a session's controller, by family.
#[derive(Debug)]
pub enum OutputControls {
    DS4(DS4Controls),
    DSense(DSenseControls),
}

/// A first-family state with one command folded in.
pub open spec fn ds4_apply(c: DS4Controls, cmd: ControlType) -> DS4Controls {
    match cmd {
        ControlType::Rumble { large, small } => DS4Controls { large: large, small: small, ..c },
        ControlType::Color { r, g, b } => DS4Controls { red: r, green: g, blue: b, ..c },
        ControlType::Battery(level) => DS4Controls { battery: level, ..c },
    }
}

/// A second-family state with one command folded in.
pub open spec fn dsense_apply(c: DSenseControls, cmd: ControlType) -> DSenseControls {
    match cmd {
        ControlType::Rumble { large, small } => DSenseControls { large: large, small: small, ..c },
        ControlType::Color { r, g, b } => DSenseControls { red: r, green: g, blue: b, ..c },
        ControlType::Battery(level) => DSenseControls { battery: level, ..c },
    }
}

/// An output state with one command folded in: the command overwrites its fields.
pub open spec fn apply_command(s: OutputControls, cmd: ControlType) -> OutputControls {
    match s {
        OutputControls::DS4(c) => OutputControls::DS4(ds4_apply(c, cmd)),
        OutputControls::DSense(c) => OutputControls::DSense(dsense_apply(c, cmd)),
    }
}

/// The report that encodes an output state for the given transport.
pub open spec fn encode(s: OutputControls, is_bt: bool) -> Seq<u8> {
    match s {
        OutputControls::DS4(c) => if is_bt {
            ds4_bt_report(c)
        } else {
            ds4_usb_report(c)
        },
        OutputControls::DSense(c) => if is_bt {
            dsense_bt_report(c)
        } else {
            dsense_usb_report(c)
        },
    }
}

/// The state after a report was encoded: only the second family's wireless
/// sequence number moves.
pub open spec fn after_encode(s: OutputControls, is_bt: bool) -> OutputControls {
    match s {
        OutputControls::DSense(c) => if is_bt {
            OutputControls::DSense(DSenseControls { seq: next_sequence(c.seq), ..c })
        } else {
            s
        },
        _ => s,
    }
}

/// The control side of a session: the accumulated output state and the transport
/// that the reports go over.
#[derive(Debug)]
pub struct ControlRelay {
    pub is_bt: bool,
    pub controls: OutputControls,
}

/// The default output state of a controller kind.
pub open spec fn initial_controls(t: DSType) -> OutputControls {
    if is_first_family(t) {
        OutputControls::DS4(DS4Controls { large: 0, small: 0, red: 0, green: 0, blue: 255, battery: 100 })
    } else {
        OutputControls::DSense(
            DSenseControls { large: 0, small: 0, red: 0, green: 0, blue: 255, battery: 100, seq: 0 },
        )
    }
}

impl ControlRelay {
    pub fn new(t: DSType) -> (r: ControlRelay)
        ensures
            r.is_bt == is_wireless(t),
            r.controls == initial_controls(t),
    {
        let controls = match t {
            DSType::DS4BT | DSType::DS4USB => OutputControls::DS4(DS4Controls::new()),
            DSType::SenseBT | DSType::SenseUSB => OutputControls::DSense(DSenseControls::new()),
        };
        ControlRelay { is_bt: t.is_bt(), controls }
    }

    /// Folds a command into the output state and returns the report to write.
    pub fn apply_command(&mut self, cmd: ControlType) -> (r: Vec<u8>)
        ensures
            final(self).is_bt == old(self).is_bt,
            r@ == encode(apply_command(old(self).controls, cmd), old(self).is_bt),
            final(self).controls == after_encode(
                apply_command(old(self).controls, cmd),
                old(self).is_bt,
            ),
    {
        let is_bt = self.is_bt;
        match &mut self.controls {
            OutputControls::DS4(c) => {
                match cmd {
                    ControlType::Rumble { large, small } => c.set_rumble(large, small),
                    ControlType::Color { r, g, b } => c.set_color(r, g, b),
                    ControlType::Battery(level) => c.set_battery(level),
                }
                if is_bt {
                    c.make_packet_with_checksum()
                } else {
                    c.make_packet_usb()
                }
            },
            OutputControls::DSense(c) => {
                match cmd {
                    ControlType::Rumble { large, small } => c.set_rumble(large, small),
                    ControlType::Color { r, g, b } => c.set_color(r, g, b),
                    ControlType::Battery(level) => c.set_battery(level),
                }
                if is_bt {
                    c.make_packet_with_checksum()
                } else {
                    c.make_packet_usb()
                }
            },
        }
    }
}

/// Encoding is a function of the output state: encoding a state again gives the
/// same report, but for the second family's wireless report, whose sequence
/// number, and nothing else before the checksum, advances by one modulo 16.
pub proof fn lemma_encode_again(s: OutputControls, is_bt: bool)
    ensures
        !(is_bt && s is DSense) ==> after_encode(s, is_bt) == s && encode(after_encode(s, is_bt), is_bt)
            == encode(s, is_bt),
        is_bt && s is DSense ==> {
            let c = s->DSense_0;
            let c2 = after_encode(s, is_bt)->DSense_0;
            &&& same_output(c2, c)
            &&& c2.seq % 16 == (c.seq % 16 + 1) % 16
            &&& dsense_bt_body(c2) == dsense_bt_body(c).update(1, sequence_byte(c2.seq))
        },
{
    if is_bt && s is DSense {
        let c = s->DSense_0;
        let c2 = after_encode(s, is_bt)->DSense_0;
        assert(dsense_fill(c2) =~= dsense_fill(c));
        assert(dsense_bt_body(c2) =~= dsense_bt_body(c).update(1, sequence_byte(c2.seq)));
    }
}

} // verus!
