//! The line buffer provider: per-scanline storage between the renderer
//! and the display transport.
//!
//! The renderer produces one damaged scanline segment at a time.  The
//! provider stores it in the single reused scanline buffer and flushes it
//! to the transport only once the whole segment is in place, so no partial
//! line ever reaches the device, and the device write covers exactly the
//! columns the renderer filled.

use vstd::prelude::*;

verus! {

use vstd::pervasive::VecAdditionalExecFns;

use crate::display::{black_row, write_covers, DisplayTransport};
use crate::pixel::Rgb565Pixel;

/// The line buffer provider: the display transport plus the single
/// scanline buffer, whose capacity is the panel width.  The buffer is
/// allocated once at startup and reused for every line, never resized.
pub struct DrawBuffer {
    /// The transport the finished lines are flushed to.
    pub display: DisplayTransport,
    /// The scanline buffer; its length always equals the panel width.
    pub buffer: Vec<Rgb565Pixel>,
}

impl DrawBuffer {
    /// The scanline buffer spans exactly the panel width.
    pub open spec fn wf(self) -> bool {
        self.display.wf() && self.buffer@.len() == self.display.width
    }

    /// Allocates the scanline buffer, one black entry per panel column.
    pub fn new(display: DisplayTransport) -> (r: DrawBuffer)
        requires
            display.wf(),
        ensures
            r.wf(),
            r.display == display,
            r.buffer@ == black_row(display.width as nat),
    {
        let width = display.width as usize;
        let mut buffer: Vec<Rgb565Pixel> = Vec::new();
        let mut i: usize = 0;
        while i < width
            invariant
                i <= width,
                buffer@ == black_row(i as nat),
            decreases width - i,
        {
            buffer.push(Rgb565Pixel(0));
            proof {
                assert(buffer@ =~= black_row((i + 1) as nat));
            }
            i = i + 1;
        }
        DrawBuffer { display, buffer }
    }

    /// One step of the rendering pipeline.  The renderer has produced
    /// `rendered` for columns `[col_start, col_end)` of row `line`; the
    /// provider stores it in the scanline buffer and only then converts
    /// and transmits exactly those columns on that row — one device
    /// write, the wire encoding of the rendered pixels, in order, with
    /// nothing reordered, dropped or duplicated.
    pub fn process_line(
        &mut self,
        line: u16,
        col_start: u16,
        col_end: u16,
        rendered: &Vec<Rgb565Pixel>,
    )
        requires
            old(self).wf(),
            line < old(self).display.height,
            col_start <= col_end,
            col_end <= old(self).display.width,
            rendered@.len() == col_end - col_start,
        ensures
            final(self).wf(),
            final(self).display.same_panel(old(self).display),
            final(self).buffer@.len() == old(self).buffer@.len(),
            forall|i: int|
                col_start <= i < col_end ==> final(self).buffer@[i] == rendered@[i - col_start],
            forall|i: int|
                0 <= i < old(self).buffer@.len() && !(col_start <= i < col_end)
                    ==> final(self).buffer@[i] == old(self).buffer@[i],
            final(self).display.writes@.len() == old(self).display.writes@.len() + 1,
            final(self).display.writes@.drop_last() == old(self).display.writes@,
            write_covers(
                final(self).display.writes@.last(),
                line,
                col_start,
                col_end,
                rendered@,
            ),
    {
        let count = rendered.len();

        let mut i: usize = 0;
        while i < count
            invariant
                i <= count,
                count == col_end - col_start,
                col_end <= self.buffer@.len(),
                rendered@.len() == count,
                self.buffer@.len() == old(self).buffer@.len(),
                forall|k: int| col_start <= k < col_start + i ==> self.buffer@[k] == rendered@[k - col_start],
                forall|k: int|
                    0 <= k < old(self).buffer@.len() && !(col_start <= k < col_start + i)
                        ==> self.buffer@[k] == old(self).buffer@[k],
                self.display == old(self).display,
            decreases count - i,
        {
            self.buffer.set(col_start as usize + i, rendered[i]);
            i = i + 1;
        }

        let mut segment: Vec<Rgb565Pixel> = Vec::new();
        let mut j: usize = 0;
        while j < count
            invariant
                j <= count,
                count == col_end - col_start,
                col_end <= self.buffer@.len(),
                rendered@.len() == count,
                forall|k: int| col_start <= k < col_end ==> self.buffer@[k] == rendered@[k - col_start],
                segment@.len() == j,
                forall|k: int| 0 <= k < j ==> segment@[k] == rendered@[k],
            decreases count - j,
        {
            segment.push(self.buffer[col_start as usize + j]);
            j = j + 1;
        }
        proof {
            assert(segment@ =~= rendered@);
        }

        self.display.set_pixels(line, col_start, col_end, &segment);
    }
}

} // verus!
