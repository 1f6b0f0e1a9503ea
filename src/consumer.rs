//! The consumer side: turning a canonical frame into the report of a virtual
//! Xbox 360 pad.
use vstd::prelude::*;

verus! {

/// Half-width of the stick dead zone around the centre.
pub const DEADZONE: u8 = 7;

/// Upper bound (exclusive) of the dead zone.
pub const HIGH_DZ: u8 = (255 / 2) + DEADZONE;

/// Lower bound (exclusive) of the dead zone.
pub const LOW_DZ: u8 = (255 / 2) - DEADZONE;

/// Button bits of the canonical frame (its bytes 5 and 6, little-endian).
pub const DS4_BUTTON_SQUARE: u16 = 0x0010;
pub const DS4_BUTTON_CROSS: u16 = 0x0020;
pub const DS4_BUTTON_CIRCLE: u16 = 0x0040;
pub const DS4_BUTTON_TRIANGLE: u16 = 0x0080;
pub const DS4_BUTTON_SHOULDER_LEFT: u16 = 0x0100;
pub const DS4_BUTTON_SHOULDER_RIGHT: u16 = 0x0200;
pub const DS4_BUTTON_SHARE: u16 = 0x1000;
pub const DS4_BUTTON_OPTIONS: u16 = 0x2000;
pub const DS4_BUTTON_THUMB_LEFT: u16 = 0x4000;
pub const DS4_BUTTON_THUMB_RIGHT: u16 = 0x8000;

/// Button bits of the Xbox 360 report.
pub const XUSB_GAMEPAD_START: u16 = 0x0010;
pub const XUSB_GAMEPAD_BACK: u16 = 0x0020;
pub const XUSB_GAMEPAD_LEFT_THUMB: u16 = 0x0040;
pub const XUSB_GAMEPAD_RIGHT_THUMB: u16 = 0x0080;
pub const XUSB_GAMEPAD_LEFT_SHOULDER: u16 = 0x0100;
pub const XUSB_GAMEPAD_RIGHT_SHOULDER: u16 = 0x0200;
pub const XUSB_GAMEPAD_A: u16 = 0x1000;
pub const XUSB_GAMEPAD_B: u16 = 0x2000;
pub const XUSB_GAMEPAD_X: u16 = 0x4000;
pub const XUSB_GAMEPAD_Y: u16 = 0x8000;

/// The report of a virtual Xbox 360 pad.
#[derive(Clone, Copy, Debug, PartialEq, Eq, Structural)]
pub struct XUsbReport {
    pub buttons: u16,
    pub left_trigger: u8,
    pub right_trigger: u8,
    pub thumb_lx: i16,
    pub thumb_ly: i16,
    pub thumb_rx: i16,
    pub thumb_ry: i16,
}

/// A stick byte (0 to 255) stretched over the signed 16-bit range, upside down
/// when `neg` holds.
pub open spec fn axis_value(v: u8, neg: bool) -> int {
    if neg {
        32767 - v * 257
    } else {
        v * 257 - 32768
    }
}

pub fn scale_axis(v: u8, neg: bool) -> (r: i32)
    ensures
        r == axis_value(v, neg),
        -32768 <= r <= 32767,
{
    let temp: i32 = (v as i32) * 65535 / 255;
    assert(temp == v * 257) by (nonlinear_arith)
        requires
            temp == (v as i32) * 65535 / 255,
            0 <= v <= 255,
    ;
    if neg {
        return 32767 - temp;
    }
    temp - 32768
}

/// Whether both coordinates of a stick lie strictly inside the dead zone.
pub open spec fn in_deadzone(x: u8, y: u8) -> bool {
    LOW_DZ < x < HIGH_DZ && LOW_DZ < y < HIGH_DZ
}

pub fn inside_deadzone(x: u8, y: u8) -> (r: bool)
    ensures
        r == in_deadzone(x, y),
{
    if ((x < HIGH_DZ) && (x > LOW_DZ)) && ((y < HIGH_DZ) && (y > LOW_DZ)) {
        return true;
    }
    false
}

/// `bit` when `ds` has the bit `mask` set, else nothing.
pub open spec fn button_if(ds: u16, mask: u16, bit: u16) -> u16 {
    if ds & mask != 0 {
        bit
    } else {
        0
    }
}

fn exec_button_if(ds: u16, mask: u16, bit: u16) -> (r: u16)
    ensures
        r == button_if(ds, mask, bit),
{
    if ds & mask != 0 {
        bit
    } else {
        0
    }
}

/// The Xbox 360 buttons that the pressed buttons of a frame stand for.
pub open spec fn xusb_buttons(ds: u16) -> u16 {
    button_if(ds, DS4_BUTTON_CROSS, XUSB_GAMEPAD_A) | button_if(ds, DS4_BUTTON_SQUARE, XUSB_GAMEPAD_X)
        | button_if(ds, DS4_BUTTON_CIRCLE, XUSB_GAMEPAD_B) | button_if(
        ds,
        DS4_BUTTON_TRIANGLE,
        XUSB_GAMEPAD_Y,
    ) | button_if(ds, DS4_BUTTON_THUMB_LEFT, XUSB_GAMEPAD_LEFT_THUMB) | button_if(
        ds,
        DS4_BUTTON_THUMB_RIGHT,
        XUSB_GAMEPAD_RIGHT_THUMB,
    ) | button_if(ds, DS4_BUTTON_SHOULDER_LEFT, XUSB_GAMEPAD_LEFT_SHOULDER) | button_if(
        ds,
        DS4_BUTTON_SHOULDER_RIGHT,
        XUSB_GAMEPAD_RIGHT_SHOULDER,
    ) | button_if(ds, DS4_BUTTON_SHARE, XUSB_GAMEPAD_BACK) | button_if(
        ds,
        DS4_BUTTON_OPTIONS,
        XUSB_GAMEPAD_START,
    )
}

pub fn map_buttons(ds: u16) -> (r: u16)
    ensures
        r == xusb_buttons(ds),
{
    exec_button_if(ds, DS4_BUTTON_CROSS, XUSB_GAMEPAD_A) | exec_button_if(
        ds,
        DS4_BUTTON_SQUARE,
        XUSB_GAMEPAD_X,
    ) | exec_button_if(ds, DS4_BUTTON_CIRCLE, XUSB_GAMEPAD_B) | exec_button_if(
        ds,
        DS4_BUTTON_TRIANGLE,
        XUSB_GAMEPAD_Y,
    ) | exec_button_if(ds, DS4_BUTTON_THUMB_LEFT, XUSB_GAMEPAD_LEFT_THUMB) | exec_button_if(
        ds,
        DS4_BUTTON_THUMB_RIGHT,
        XUSB_GAMEPAD_RIGHT_THUMB,
    ) | exec_button_if(ds, DS4_BUTTON_SHOULDER_LEFT, XUSB_GAMEPAD_LEFT_SHOULDER) | exec_button_if(
        ds,
        DS4_BUTTON_SHOULDER_RIGHT,
        XUSB_GAMEPAD_RIGHT_SHOULDER,
    ) | exec_button_if(ds, DS4_BUTTON_SHARE, XUSB_GAMEPAD_BACK) | exec_button_if(
        ds,
        DS4_BUTTON_OPTIONS,
        XUSB_GAMEPAD_START,
    )
}

/// The directional-pad bits (up 1, down 2, left 4, right 8) of a hat position,
/// clockwise from north; 8 is the centre.
pub open spec fn dpad_bits(hat: u8) -> u16 {
    match hat {
        0 => 0x1,
        1 => 0x9,
        2 => 0x8,
        3 => 0xA,
        4 => 0x2,
        5 => 0x6,
        6 => 0x4,
        7 => 0x5,
        _ => 0,
    }
}

fn dpad(hat: u8) -> (r: u16)
    requires
        hat <= 8,
    ensures
        r == dpad_bits(hat),
{
    match hat {
        0 => 0x1,
        1 => 0x9,
        2 => 0x8,
        3 => 0xA,
        4 => 0x2,
        5 => 0x6,
        6 => 0x4,
        7 => 0x5,
        _ => 0,
    }
}

/// The stick values of a frame: centred when both coordinates of the stick are
/// inside the dead zone.
pub open spec fn stick(x: u8, y: u8) -> (int, int) {
    if in_deadzone(x, y) {
        (0, 0)
    } else {
        (axis_value(x, false), axis_value(y, true))
    }
}

/// The Xbox 360 report that a canonical frame stands for.
pub open spec fn x360_report(p: Seq<u8>) -> XUsbReport {
    XUsbReport {
        buttons: dpad_bits(p[5] % 16) | xusb_buttons((p[5] + p[6] * 256) as u16),
        left_trigger: p[8],
        right_trigger: p[9],
        thumb_lx: stick(p[1], p[2]).0 as i16,
        thumb_ly: stick(p[1], p[2]).1 as i16,
        thumb_rx: stick(p[3], p[4]).0 as i16,
        thumb_ry: stick(p[3], p[4]).1 as i16,
    }
}

/// Turns a canonical frame into an Xbox 360 report.
pub fn ds4_to_x360_packet_map(packet: &[u8]) -> (r: XUsbReport)
    requires
        packet@.len() >= 10,
        packet@[5] % 16 <= 8,
    ensures
        r == x360_report(packet@),
{
    let mut axis_lx: i32 = 0;
    let mut axis_ly: i32 = 0;
    let mut axis_rx: i32 = 0;
    let mut axis_ry: i32 = 0;
    let lx = packet[1];
    let ly = packet[2];
    let rx = packet[3];
    let ry = packet[4];
    if !inside_deadzone(lx, ly) {
        axis_lx = scale_axis(lx, false);
        axis_ly = scale_axis(ly, true);
    }
    if !inside_deadzone(rx, ry) {
        axis_rx = scale_axis(rx, false);
        axis_ry = scale_axis(ry, true);
    }
    let b5 = packet[5];
    let b6 = packet[6];
    assert(b5 & 0xFu8 == b5 % 16) by (bit_vector);
    let hat_index: u8 = b5 & 0xF;
    let ds_buttons: u16 = (b5 as u16) | ((b6 as u16) << 8u16);
    assert(ds_buttons == (b5 + b6 * 256) as u16) by (bit_vector)
        requires
            ds_buttons == (b5 as u16) | ((b6 as u16) << 8u16),
    ;
    let buttons = dpad(hat_index) | map_buttons(ds_buttons);
    XUsbReport {
        buttons,
        left_trigger: packet[8],
        right_trigger: packet[9],
        thumb_lx: axis_lx as i16,
        thumb_ly: axis_ly as i16,
        thumb_rx: axis_rx as i16,
        thumb_ry: axis_ry as i16,
    }
}

} // verus!
