use dsrelay::consumer::{ds4_to_x360_packet_map, inside_deadzone, map_buttons, scale_axis};

#[test]
fn axis_scaling_covers_the_signed_range() {
    assert_eq!(scale_axis(0, false), -32768);
    assert_eq!(scale_axis(255, false), 32767);
    assert_eq!(scale_axis(0, true), 32767);
    assert_eq!(scale_axis(255, true), -32768);
    assert_eq!(scale_axis(128, false), 128 * 257 - 32768);
}

#[test]
fn deadzone_is_open_around_the_centre() {
    assert!(inside_deadzone(127, 127));
    assert!(inside_deadzone(121, 133));
    assert!(!inside_deadzone(120, 127));
    assert!(!inside_deadzone(127, 134));
}

#[test]
fn buttons_map_to_xbox_bits() {
    assert_eq!(map_buttons(0x0020), 0x1000);
    assert_eq!(map_buttons(0x0010 | 0x0080), 0x4000 | 0x8000);
    assert_eq!(map_buttons(0x1000 | 0x2000), 0x0020 | 0x0010);
    assert_eq!(map_buttons(0x0008), 0);
}

#[test]
fn frame_maps_to_report() {
    let mut frame = vec![0u8; 64];
    frame[1] = 127;
    frame[2] = 127;
    frame[3] = 255;
    frame[4] = 0;
    frame[5] = 0x20 | 2;
    frame[6] = 0x01;
    frame[8] = 10;
    frame[9] = 20;
    let r = ds4_to_x360_packet_map(&frame);
    assert_eq!(r.thumb_lx, 0);
    assert_eq!(r.thumb_ly, 0);
    assert_eq!(r.thumb_rx, 32767);
    assert_eq!(r.thumb_ry, 32767);
    assert_eq!(r.buttons, 0x8 | 0x1000 | 0x0100);
    assert_eq!(r.left_trigger, 10);
    assert_eq!(r.right_trigger, 20);
}
