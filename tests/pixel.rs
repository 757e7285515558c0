use dotstar_chart::pixel::{format_led, lane_code, Frames, MARKER};

#[test]
fn frame_marker_words() {
    assert_eq!(Frames::StartFrame.word(), 0x0000_0000);
    assert_eq!(Frames::EndFrame.word(), 0xFFFF_FFFF);
}

#[test]
fn lane_code_places_level_in_its_byte() {
    assert_eq!(lane_code(0xAB, 0), 0x0000_00AB);
    assert_eq!(lane_code(0xAB, 1), 0x0000_AB00);
    assert_eq!(lane_code(0xAB, 2), 0x00AB_0000);
    assert_eq!(lane_code(0xAB, 3), 0xAB00_0000);
    assert_eq!(lane_code(0, 2), 0);
    assert_eq!(lane_code(255, 0), 255);
}

#[test]
fn disjoint_lanes_compose_by_or() {
    let w = lane_code(0x11, 0) | lane_code(0x22, 1) | lane_code(0x33, 2);
    assert_eq!(w, 0x0033_2211);
}

#[test]
fn format_led_big_endian_bytes() {
    let w = format_led(0x12, 0x34, 0x56, 0x1F);
    assert_eq!(w.to_be_bytes(), [0xFF, 0x56, 0x34, 0x12]);
    let w = format_led(1, 2, 3, 4);
    assert_eq!(w, 0xE403_0201);
}

#[test]
fn format_led_masks_brightness_to_five_bits() {
    let w = format_led(0, 0, 0, 0xFF);
    assert_eq!(w, 0xFF00_0000);
    let w = format_led(0, 0, 0, 0x20);
    assert_eq!(w, 0xE000_0000);
    assert_eq!(w & MARKER, MARKER);
}
