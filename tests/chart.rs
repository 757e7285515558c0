use dotstar_chart::chart::{Chart, Endian};
use dotstar_chart::pixel::lane_code;

fn lanes(level: u8, channel: usize, n: usize) -> Vec<u32> {
    (0..n).map(|_| lane_code(level, channel)).collect()
}

#[test]
fn new_chart_is_enabled_advancing_and_empty() {
    let c = Chart::<3, 4>::new();
    for j in 0..3 {
        assert!(c.is_enabled(j));
        assert!(c.advances_time(j));
    }
    assert!(!c.is_enabled(3));
    assert!(!c.advances_time(3));
    assert_eq!(c.mapped(), &[0u32, 0, 0, 0][..]);
    assert_eq!(c.bytes(), vec![0u8; 16]);
}

#[test]
fn map_ors_codes_into_buffer() {
    let mut c = Chart::<3, 3>::new();
    c.map(0, &[0x01, 0x02, 0x04]);
    c.map(1, &[0x0100, 0x0200, 0x0400]);
    assert_eq!(c.mapped(), &[0x0101u32, 0x0202, 0x0404][..]);
    c.map(2, &[0x01, 0x10, 0x0100]);
    assert_eq!(c.mapped(), &[0x0101u32, 0x0212, 0x0504][..]);
}

#[test]
fn map_with_short_codes_keeps_remaining_points() {
    let mut c = Chart::<1, 3>::new();
    c.map(0, &[7]);
    assert_eq!(c.mapped(), &[7u32, 0, 0][..]);
}

#[test]
fn map_order_does_not_matter() {
    let mut ab = Chart::<2, 5>::new();
    let mut ba = Chart::<2, 5>::new();
    let a = lanes(0x80, 0, 5);
    let b = lanes(0x40, 1, 5);
    ab.map(0, &a);
    ab.map(1, &b);
    ba.map(1, &b);
    ba.map(0, &a);
    assert_eq!(ab.mapped(), ba.mapped());
    assert_eq!(ab.mapped()[2], 0x4080);
}

#[test]
fn clear_then_map_starts_from_zero() {
    let mut c = Chart::<2, 2>::new();
    c.map(0, &[0xFF, 0xFF]);
    c.finalize(Endian::Little);
    c.clear_mapped();
    assert_eq!(c.mapped(), &[0u32, 0][..]);
    c.map(1, &[0x0100, 0x0200]);
    let mut fresh = Chart::<2, 2>::new();
    fresh.map(1, &[0x0100, 0x0200]);
    assert_eq!(c.mapped(), fresh.mapped());
}

#[test]
fn disabled_or_missing_channel_is_not_mapped() {
    let mut c = Chart::<2, 2>::new();
    c.set_enabled(1, false);
    assert!(!c.is_enabled(1));
    c.map(1, &[5, 5]);
    c.map(2, &[5, 5]);
    c.map(usize::MAX, &[5, 5]);
    assert_eq!(c.mapped(), &[0u32, 0][..]);
    c.set_enabled(1, true);
    c.map(1, &[5, 5]);
    assert_eq!(c.mapped(), &[5u32, 5][..]);
}

#[test]
fn out_of_range_configuration_changes_nothing() {
    let mut c = Chart::<2, 2>::new();
    c.map(0, &[3, 4]);
    c.set_enabled(2, false);
    c.set_time_advance(9, false);
    assert!(c.is_enabled(0) && c.is_enabled(1));
    assert!(c.advances_time(0) && c.advances_time(1));
    assert_eq!(c.mapped(), &[3u32, 4][..]);
}

#[test]
fn time_advance_switch() {
    let mut c = Chart::<2, 1>::new();
    c.set_time_advance(1, false);
    assert!(c.advances_time(0));
    assert!(!c.advances_time(1));
    assert!(c.is_enabled(1));
}

#[test]
fn finalize_little_endian_marks_and_orders() {
    let mut c = Chart::<1, 2>::new();
    c.map(0, &[0x00AB_CDEF, 0]);
    c.finalize(Endian::Little);
    assert_eq!(c.mapped(), &[0xE0AB_CDEFu32, 0xE000_0000][..]);
    assert_eq!(c.bytes(), vec![0xEF, 0xCD, 0xAB, 0xE0, 0x00, 0x00, 0x00, 0xE0]);
}

#[test]
fn finalize_big_endian_marks_and_orders() {
    let mut c = Chart::<1, 2>::new();
    c.map(0, &[0x00AB_CDEF, 0x0102_0304]);
    c.finalize(Endian::Big);
    assert_eq!(c.bytes(), vec![0xE0, 0xAB, 0xCD, 0xEF, 0xE1, 0x02, 0x03, 0x04]);
}

#[test]
fn finalize_sets_marker_bits_on_every_word() {
    for endian in [Endian::Big, Endian::Little] {
        let mut c = Chart::<1, 4>::new();
        c.map(0, &[0, 0x1FFF_FFFF, 0xFFFF_FFFF, 0x1234_5678]);
        c.finalize(endian);
        let b = c.bytes();
        for i in 0..4 {
            let marker = match endian {
                Endian::Big => b[4 * i],
                Endian::Little => b[4 * i + 3],
            };
            assert_eq!(marker & 0xE0, 0xE0);
        }
    }
}

#[test]
fn finalize_twice_in_big_endian_does_not_restore() {
    let mut c = Chart::<1, 1>::new();
    c.map(0, &[0x0000_0011]);
    c.finalize(Endian::Big);
    assert_eq!(c.mapped(), &[0x1100_00E0u32][..]);
    c.finalize(Endian::Big);
    assert_eq!(c.mapped(), &[0xE000_00F1u32][..]);
}

#[test]
fn mapped_from_copies_into_front() {
    let mut c = Chart::<1, 3>::new();
    c.map(0, &[1, 2, 3]);
    let mut out = [9u32; 5];
    c.mapped_from(&mut out);
    assert_eq!(out, [1, 2, 3, 9, 9]);
}

#[test]
fn byte_lane_composition_of_three_channels() {
    let mut c = Chart::<3, 2>::new();
    c.map(0, &lanes(0x10, 0, 2));
    c.map(1, &lanes(0x20, 1, 2));
    c.map(2, &lanes(0x30, 2, 2));
    c.finalize(Endian::Little);
    assert_eq!(c.mapped(), &[0xE030_2010u32, 0xE030_2010][..]);
}
