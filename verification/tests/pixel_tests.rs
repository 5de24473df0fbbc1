use panel_core::pixel::{pack_rgb565, wire_encode, Rgb565Pixel};

#[test]
fn pack_full_scale_components() {
    assert_eq!(pack_rgb565(31, 63, 31).0, 0xffff);
    assert_eq!(pack_rgb565(31, 0, 0).0, 0xf800);
    assert_eq!(pack_rgb565(0, 63, 0).0, 0x07e0);
    assert_eq!(pack_rgb565(0, 0, 31).0, 0x001f);
    assert_eq!(pack_rgb565(0, 0, 0).0, 0x0000);
}

#[test]
fn pack_mixed_components() {
    // 10 << 11 | 20 << 5 | 5
    assert_eq!(pack_rgb565(10, 20, 5).0, 0x5285);
}

#[test]
fn wire_encode_is_most_significant_byte_first() {
    assert_eq!(wire_encode(Rgb565Pixel(0x1234)), (0x12, 0x34));
    assert_eq!(wire_encode(Rgb565Pixel(0x00ff)), (0x00, 0xff));
    assert_eq!(wire_encode(Rgb565Pixel(0xff00)), (0xff, 0x00));
}

#[test]
fn wire_encode_reassembles_losslessly() {
    for &raw in &[0x0000u16, 0x0001, 0x8000, 0xa5c3, 0xffff] {
        let (hi, lo) = wire_encode(Rgb565Pixel(raw));
        assert_eq!(((hi as u16) << 8) | lo as u16, raw);
    }
}
