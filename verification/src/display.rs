//! The display transport: exclusive owner of the panel connection.
//!
//! The transport programs an addressed window (one row, a half-open column
//! range) and streams the pixel payload into it, two bytes per pixel with
//! the most significant byte first.  What leaves for the device is modeled
//! as a log of windowed writes; the bus driver drains that log.
//!
//! Initialization consumes an explicit configuration value (panel
//! dimensions, rotation, color inversion, color order, reset hold time),
//! computes the oriented dimensions, and clears the whole panel to the
//! black background before the first real frame.

use vstd::prelude::*;

verus! {

use crate::pixel::{lemma_wire_stream_push, wire_stream, Rgb565Pixel};

/// The minimum time the reset line must be held asserted, in microseconds.
pub const MIN_RESET_HOLD_MICROS: u32 = 10;

/// The mounting orientation of the panel, in quarter turns.
#[derive(Clone, Copy, PartialEq, Eq, Structural, Debug)]
pub enum Rotation {
    Deg0,
    Deg90,
    Deg180,
    Deg270,
}

/// The order in which the panel wires its color channels.
#[derive(Clone, Copy, PartialEq, Eq, Structural, Debug)]
pub enum ColorOrder {
    Rgb,
    Bgr,
}

/// The explicit panel configuration consumed by initialization.
#[derive(Clone, Copy, PartialEq, Eq, Structural, Debug)]
pub struct DisplayConfig {
    /// Panel columns before rotation.
    pub width: u16,
    /// Panel rows before rotation.
    pub height: u16,
    /// Mounting orientation.
    pub rotation: Rotation,
    /// Whether the panel wants inverted colors.
    pub invert_colors: bool,
    /// The panel's color channel order.
    pub color_order: ColorOrder,
    /// How long to hold the reset line asserted, in microseconds.
    pub reset_hold_micros: u32,
}

impl DisplayConfig {
    /// A usable configuration: a real panel and a long enough reset hold.
    pub open spec fn wf(self) -> bool {
        &&& self.width >= 1
        &&& self.height >= 1
        &&& self.reset_hold_micros >= MIN_RESET_HOLD_MICROS
    }
}

/// Columns visible after rotation.
pub open spec fn oriented_width(cfg: DisplayConfig) -> u16 {
    match cfg.rotation {
        Rotation::Deg0 | Rotation::Deg180 => cfg.width,
        Rotation::Deg90 | Rotation::Deg270 => cfg.height,
    }
}

/// Rows visible after rotation.
pub open spec fn oriented_height(cfg: DisplayConfig) -> u16 {
    match cfg.rotation {
        Rotation::Deg0 | Rotation::Deg180 => cfg.height,
        Rotation::Deg90 | Rotation::Deg270 => cfg.width,
    }
}

/// One windowed write as it leaves for the device: a single row, a
/// half-open column range, and the wire payload for exactly those columns.
pub struct DeviceWrite {
    /// The addressed row.
    pub row: u16,
    /// First column of the window.
    pub col_start: u16,
    /// One past the last column of the window.
    pub col_end: u16,
    /// The payload: two bytes per pixel, most significant byte first.
    pub bytes: Vec<u8>,
}

/// The write addresses exactly the given window and carries exactly the
/// wire encoding of the given pixels.
pub open spec fn write_covers(
    w: DeviceWrite,
    row: u16,
    col_start: u16,
    col_end: u16,
    pixels: Seq<Rgb565Pixel>,
) -> bool {
    &&& w.row == row
    &&& w.col_start == col_start
    &&& w.col_end == col_end
    &&& w.bytes@ == wire_stream(pixels)
}

/// A full row of the black background color.
pub open spec fn black_row(n: nat) -> Seq<Rgb565Pixel> {
    Seq::new(n, |i: int| Rgb565Pixel(0))
}

/// The display transport.  It owns the connection: every transaction on
/// the bus originates here, serialized through `&mut self`.
pub struct DisplayTransport {
    /// Columns after rotation.
    pub width: u16,
    /// Rows after rotation.
    pub height: u16,
    /// Whether the init sequence selected inverted colors.
    pub invert_colors: bool,
    /// The color channel order the init sequence selected.
    pub color_order: ColorOrder,
    /// The reset hold time the init sequence used, in microseconds.
    pub reset_hold_micros: u32,
    /// The windowed writes issued so far, oldest first.
    pub writes: Vec<DeviceWrite>,
}

impl DisplayTransport {
    /// A transport driving a real panel.
    pub open spec fn wf(self) -> bool {
        self.width >= 1 && self.height >= 1
    }

    /// The panel settings, which no write may change.
    pub open spec fn same_panel(self, other: DisplayTransport) -> bool {
        &&& self.width == other.width
        &&& self.height == other.height
        &&& self.invert_colors == other.invert_colors
        &&& self.color_order == other.color_order
        &&& self.reset_hold_micros == other.reset_hold_micros
    }

    /// Programs the addressed window — row `row`, columns
    /// `[col_start, col_end)` — and streams the pixels into it.  Exactly
    /// one write leaves for the device: the wire encoding of `pixels`, in
    /// order, nothing more and nothing less.
    pub fn set_pixels(
        &mut self,
        row: u16,
        col_start: u16,
        col_end: u16,
        pixels: &Vec<Rgb565Pixel>,
    )
        requires
            row < old(self).height,
            col_start <= col_end,
            col_end <= old(self).width,
            pixels@.len() == col_end - col_start,
        ensures
            final(self).same_panel(*old(self)),
            final(self).writes@.len() == old(self).writes@.len() + 1,
            final(self).writes@.drop_last() == old(self).writes@,
            write_covers(final(self).writes@.last(), row, col_start, col_end, pixels@),
    {
        let mut bytes: Vec<u8> = Vec::new();
        let mut i: usize = 0;
        while i < pixels.len()
            invariant
                i <= pixels@.len(),
                bytes@ == wire_stream(pixels@.take(i as int)),
            decreases pixels@.len() - i,
        {
            let p = pixels[i];
            bytes.push((p.0 >> 8) as u8);
            bytes.push((p.0 & 0xff) as u8);
            proof {
                lemma_wire_stream_push(pixels@.take(i as int), pixels@[i as int]);
                assert(pixels@.take(i + 1) =~= pixels@.take(i as int).push(pixels@[i as int]));
            }
            i = i + 1;
        }
        proof {
            assert(pixels@.take(pixels@.len() as int) =~= pixels@);
        }
        self.writes.push(DeviceWrite { row, col_start, col_end, bytes });
        proof {
            assert(final(self).writes@.drop_last() =~= old(self).writes@);
        }
    }
}

/// Initializes the display from an explicit configuration: holds reset for
/// the configured time, issues the init sequence (color order, inversion,
/// orientation), and clears the full oriented panel to the black
/// background, one row per write, before the first real frame.
pub fn init_display(cfg: &DisplayConfig) -> (t: DisplayTransport)
    requires
        cfg.wf(),
    ensures
        t.wf(),
        t.width == oriented_width(*cfg),
        t.height == oriented_height(*cfg),
        t.invert_colors == cfg.invert_colors,
        t.color_order == cfg.color_order,
        t.reset_hold_micros == cfg.reset_hold_micros,
        t.writes@.len() == t.height,
        forall|r: int|
            0 <= r < t.height ==> write_covers(
                #[trigger] t.writes@[r],
                r as u16,
                0,
                t.width,
                black_row(t.width as nat),
            ),
{
    let (w, h) = match cfg.rotation {
        Rotation::Deg0 | Rotation::Deg180 => (cfg.width, cfg.height),
        Rotation::Deg90 | Rotation::Deg270 => (cfg.height, cfg.width),
    };
    let mut t = DisplayTransport {
        width: w,
        height: h,
        invert_colors: cfg.invert_colors,
        color_order: cfg.color_order,
        reset_hold_micros: cfg.reset_hold_micros,
        writes: Vec::new(),
    };

    let mut row_pixels: Vec<Rgb565Pixel> = Vec::new();
    let mut c: usize = 0;
    while c < w as usize
        invariant
            c <= w as nat,
            row_pixels@ == black_row(c as nat),
        decreases w - c,
    {
        row_pixels.push(Rgb565Pixel(0));
        proof {
            assert(row_pixels@ =~= black_row((c + 1) as nat));
        }
        c = c + 1;
    }

    let mut r: u16 = 0;
    while r < h
        invariant
            r <= h,
            t.width == w,
            t.height == h,
            t.invert_colors == cfg.invert_colors,
            t.color_order == cfg.color_order,
            t.reset_hold_micros == cfg.reset_hold_micros,
            row_pixels@ == black_row(w as nat),
            t.writes@.len() == r,
            forall|j: int|
                0 <= j < r ==> write_covers(
                    #[trigger] t.writes@[j],
                    j as u16,
                    0,
                    w,
                    black_row(w as nat),
                ),
        decreases h - r,
    {
        t.set_pixels(r, 0, w, &row_pixels);
        proof {
            assert forall|j: int| 0 <= j < r + 1 implies write_covers(
                #[trigger] t.writes@[j],
                j as u16,
                0,
                w,
                black_row(w as nat),
            ) by {
                if j < r {
                    assert(t.writes@[j] == t.writes@.drop_last()[j]);
                } else {
                    assert(t.writes@[j] == t.writes@.last());
                }
            }
        }
        r = r + 1;
    }
    t
}

} // verus!
