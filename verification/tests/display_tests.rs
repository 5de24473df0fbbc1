use panel_core::display::{
    init_display, ColorOrder, DisplayConfig, DisplayTransport, Rotation,
};
use panel_core::pixel::Rgb565Pixel;

fn reference_config() -> DisplayConfig {
    DisplayConfig {
        width: 206,
        height: 320,
        rotation: Rotation::Deg90,
        invert_colors: true,
        color_order: ColorOrder::Rgb,
        reset_hold_micros: 500,
    }
}

#[test]
fn init_orients_panel_and_keeps_settings() {
    let t = init_display(&reference_config());
    // a quarter turn swaps the reported dimensions
    assert_eq!(t.width, 320);
    assert_eq!(t.height, 206);
    assert!(t.invert_colors);
    assert_eq!(t.color_order, ColorOrder::Rgb);
    assert_eq!(t.reset_hold_micros, 500);
}

#[test]
fn init_without_rotation_keeps_dimensions() {
    let mut cfg = reference_config();
    cfg.rotation = Rotation::Deg0;
    let t = init_display(&cfg);
    assert_eq!(t.width, 206);
    assert_eq!(t.height, 320);
}

#[test]
fn init_clears_full_panel_to_background() {
    let cfg = DisplayConfig {
        width: 4,
        height: 3,
        rotation: Rotation::Deg0,
        invert_colors: false,
        color_order: ColorOrder::Bgr,
        reset_hold_micros: 10,
    };
    let t = init_display(&cfg);
    assert_eq!(t.writes.len(), 3);
    for (row, w) in t.writes.iter().enumerate() {
        assert_eq!(w.row as usize, row);
        assert_eq!(w.col_start, 0);
        assert_eq!(w.col_end, 4);
        assert_eq!(w.bytes, vec![0u8; 8]);
    }
}

#[test]
fn set_pixels_streams_exact_window_in_order() {
    let mut t = DisplayTransport {
        width: 8,
        height: 8,
        invert_colors: false,
        color_order: ColorOrder::Rgb,
        reset_hold_micros: 10,
        writes: Vec::new(),
    };
    let pixels = vec![Rgb565Pixel(0x1234), Rgb565Pixel(0xabcd), Rgb565Pixel(0x00ff)];
    t.set_pixels(5, 2, 5, &pixels);
    assert_eq!(t.writes.len(), 1);
    let w = &t.writes[0];
    assert_eq!(w.row, 5);
    assert_eq!(w.col_start, 2);
    assert_eq!(w.col_end, 5);
    // two bytes per pixel, most significant first, no reorder, drop or
    // duplication
    assert_eq!(w.bytes, vec![0x12, 0x34, 0xab, 0xcd, 0x00, 0xff]);
}

#[test]
fn set_pixels_accepts_empty_window() {
    let mut t = DisplayTransport {
        width: 8,
        height: 8,
        invert_colors: false,
        color_order: ColorOrder::Rgb,
        reset_hold_micros: 10,
        writes: Vec::new(),
    };
    t.set_pixels(0, 3, 3, &Vec::new());
    assert_eq!(t.writes.len(), 1);
    assert_eq!(t.writes[0].bytes, Vec::<u8>::new());
}
