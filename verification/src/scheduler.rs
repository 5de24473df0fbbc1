//! The frame scheduler: the single-threaded cooperative main loop's
//! decisions.
//!
//! Each iteration, in this fixed order: advance the virtual clock and fire
//! the due timers; poll the shared menu selection and propagate a change
//! into the scene exactly once; redraw only when damage is pending,
//! flushing exactly the damaged lines; idle only when no animation is
//! active.  Timer effects land in the scene before the redraw decision,
//! so a value a timer changed is visible in the same frame's redraw.

use vstd::prelude::*;

verus! {

use crate::display::write_covers;
use crate::line_buffer::DrawBuffer;
use crate::pixel::Rgb565Pixel;
use crate::scene::{init_success_text, SceneState};
use crate::timers::{
    fired_callbacks, no_due_overflow, updated_entry, TimerCallback, TimerList,
};

/// How many LED effect ticks a fired-callback sequence asks for.
pub open spec fn led_tick_count(s: Seq<TimerCallback>) -> nat
    decreases s.len(),
{
    if s.len() == 0 {
        0
    } else {
        (if s[0] == TimerCallback::LedTick {
            1nat
        } else {
            0nat
        }) + led_tick_count(s.drop_first())
    }
}

/// Whether a fired-callback sequence announces finished initialization.
pub open spec fn has_init_done(s: Seq<TimerCallback>) -> bool
    decreases s.len(),
{
    if s.len() == 0 {
        false
    } else {
        s[0] == TimerCallback::InitDone || has_init_done(s.drop_first())
    }
}

/// Appending a callback adds one LED tick exactly when it is a tick.
pub proof fn lemma_led_tick_count_push(s: Seq<TimerCallback>, x: TimerCallback)
    ensures
        led_tick_count(s.push(x)) == led_tick_count(s) + (if x == TimerCallback::LedTick {
            1nat
        } else {
            0nat
        }),
    decreases s.len(),
{
    if s.len() == 0 {
        assert(s.push(x)[0] == x);
        assert(s.push(x).drop_first() =~= Seq::<TimerCallback>::empty());
        assert(led_tick_count(s.push(x).drop_first()) == 0);
    } else {
        lemma_led_tick_count_push(s.drop_first(), x);
        assert(s.push(x).drop_first() =~= s.drop_first().push(x));
        assert(s.push(x)[0] == s[0]);
        assert(led_tick_count(s.push(x)) == (if s[0] == TimerCallback::LedTick {
            1nat
        } else {
            0nat
        }) + led_tick_count(s.drop_first().push(x)));
    }
}

/// A sequence asks for at most one LED tick per fired callback.
pub proof fn lemma_led_tick_count_le_len(s: Seq<TimerCallback>)
    ensures
        led_tick_count(s) <= s.len(),
    decreases s.len(),
{
    if s.len() > 0 {
        lemma_led_tick_count_le_len(s.drop_first());
    }
}

/// Appending a callback announces initialization exactly when it is the
/// announcement or the prefix already had one.
pub proof fn lemma_has_init_done_push(s: Seq<TimerCallback>, x: TimerCallback)
    ensures
        has_init_done(s.push(x)) == (has_init_done(s) || x == TimerCallback::InitDone),
    decreases s.len(),
{
    if s.len() == 0 {
        assert(s.push(x)[0] == x);
        assert(s.push(x).drop_first() =~= Seq::<TimerCallback>::empty());
        assert(!has_init_done(s.push(x).drop_first()));
    } else {
        lemma_has_init_done_push(s.drop_first(), x);
        assert(s.push(x).drop_first() =~= s.drop_first().push(x));
        assert(s.push(x)[0] == s[0]);
        assert(has_init_done(s.push(x)) == (s[0] == TimerCallback::InitDone
            || has_init_done(s.drop_first().push(x))));
    }
}

/// What one frame pass asks of the surroundings.
pub struct FrameActions {
    /// How many LED effect ticks to perform this frame.
    pub led_ticks: usize,
    /// Whether the scene's selection-changed callback must be invoked;
    /// raised exactly once per change of the polled selection.
    pub selection_changed: bool,
    /// Whether damage is pending, so the damaged lines must be rendered
    /// and handed to `draw_if_needed`.
    pub redraw: bool,
}

/// One scanline segment the renderer produced: a row, the first damaged
/// column, and the pixels for the damaged columns.
pub struct RenderedLine {
    /// The row the segment belongs to.
    pub line: u16,
    /// The first column the renderer filled.
    pub col_start: u16,
    /// The pixels for columns `[col_start, col_start + pixels.len())`.
    pub pixels: Vec<Rgb565Pixel>,
}

/// The segment lies within a panel of the given dimensions.
pub open spec fn line_fits(l: RenderedLine, width: u16, height: u16) -> bool {
    l.line < height && l.col_start + l.pixels@.len() <= width
}

/// The cooperative frame scheduler: timers, the scene model, the last
/// polled menu selection, and the line-buffered drawing pipeline.
pub struct Scheduler {
    /// The registered timers and the virtual clock.
    pub timers: TimerList,
    /// The scene fields the core drives.
    pub scene: SceneState,
    /// The menu selection seen at the previous pass.
    pub last_menu_index: usize,
    /// The line buffer provider and, through it, the display transport.
    pub draw: DrawBuffer,
}

impl Scheduler {
    /// The parts keep their own invariants.
    pub open spec fn wf(self) -> bool {
        self.timers.wf() && self.draw.wf()
    }

    /// A scheduler over a freshly initialized display: no timers yet, the
    /// given initial scene text, and the menu selection at its initial
    /// value.
    pub fn new(
        draw: DrawBuffer,
        start_ms: u64,
        initial_text: &str,
        initial_menu_index: usize,
    ) -> (r: Scheduler)
        requires
            draw.wf(),
        ensures
            r.wf(),
            r.timers.now_ms == start_ms,
            r.timers.entries@.len() == 0,
            r.scene.status_text@ == initial_text@,
            r.scene.selected_menu_item == initial_menu_index,
            r.scene.damage_pending,
            r.last_menu_index == initial_menu_index,
            r.draw == draw,
    {
        Scheduler {
            timers: TimerList::new(start_ms),
            scene: SceneState::new(initial_text, initial_menu_index),
            last_menu_index: initial_menu_index,
            draw,
        }
    }

    /// Steps one and two of a loop iteration, and the redraw decision.
    /// Advances the virtual clock to `now`, fires the due timers and
    /// applies their scene effects; then propagates a changed menu
    /// selection into the scene, exactly once per change.  Performs zero
    /// device writes: the write happens, if at all, in `draw_if_needed`.
    pub fn advance_frame(&mut self, now: u64, menu_index: usize) -> (r: FrameActions)
        requires
            old(self).wf(),
            old(self).timers.now_ms <= now,
            no_due_overflow(old(self).timers.entries@, now),
        ensures
            final(self).wf(),
            final(self).timers.now_ms == now,
            final(self).timers.entries@.len() == old(self).timers.entries@.len(),
            forall|i: int|
                0 <= i < old(self).timers.entries@.len()
                    ==> final(self).timers.entries@[i] == updated_entry(
                    #[trigger] old(self).timers.entries@[i],
                    now,
                ),
            ({
                let fired = fired_callbacks(old(self).timers.entries@, now);
                let changed = menu_index != old(self).last_menu_index;
                &&& final(self).scene.status_text@ == (if has_init_done(fired) {
                    init_success_text()
                } else {
                    old(self).scene.status_text@
                })
                &&& r.led_ticks == led_tick_count(fired)
                &&& r.selection_changed == changed
                &&& final(self).last_menu_index == menu_index
                &&& final(self).scene.selected_menu_item == (if changed {
                    menu_index as int
                } else {
                    old(self).scene.selected_menu_item as int
                })
                &&& final(self).scene.damage_pending == (old(self).scene.damage_pending
                    || has_init_done(fired) || changed)
                &&& r.redraw == final(self).scene.damage_pending
            }),
            final(self).draw == old(self).draw,
    {
        let fired = self.timers.update_timers(now);
        let ghost fired_seq = fired_callbacks(old(self).timers.entries@, now);
        let ghost timers_after = self.timers;

        let mut led_ticks: usize = 0;
        let count = fired.len();
        let mut i: usize = 0;
        while i < count
            invariant
                i <= count,
                count == fired_seq.len(),
                fired@ == fired_seq,
                led_ticks == led_tick_count(fired_seq.take(i as int)),
                self.scene.status_text@ == (if has_init_done(fired_seq.take(i as int)) {
                    init_success_text()
                } else {
                    old(self).scene.status_text@
                }),
                self.scene.selected_menu_item == old(self).scene.selected_menu_item,
                self.scene.damage_pending == (old(self).scene.damage_pending
                    || has_init_done(fired_seq.take(i as int))),
                self.timers == timers_after,
                self.draw == old(self).draw,
                self.last_menu_index == old(self).last_menu_index,
            decreases count - i,
        {
            proof {
                lemma_led_tick_count_push(fired_seq.take(i as int), fired_seq[i as int]);
                lemma_has_init_done_push(fired_seq.take(i as int), fired_seq[i as int]);
                assert(fired_seq.take(i + 1) =~= fired_seq.take(i as int).push(fired_seq[i as int]));
                lemma_led_tick_count_le_len(fired_seq.take(i as int));
            }
            match fired[i] {
                TimerCallback::InitDone => {
                    self.scene.set_init_done();
                },
                TimerCallback::LedTick => {
                    led_ticks = led_ticks + 1;
                },
            }
            i = i + 1;
        }
        proof {
            assert(fired_seq.take(fired_seq.len() as int) =~= fired_seq);
        }

        let changed = menu_index != self.last_menu_index;
        if changed {
            self.scene.set_selected(menu_index);
        }
        self.last_menu_index = menu_index;

        let redraw = self.scene.damage_pending;
        FrameActions { led_ticks, selection_changed: changed, redraw }
    }

    /// Step three of a loop iteration.  With damage pending, flushes
    /// exactly the rendered damaged lines, in order, through the line
    /// buffer, and consumes the damage; with no damage pending, performs
    /// zero device writes and ignores `lines`.
    pub fn draw_if_needed(&mut self, lines: &Vec<RenderedLine>)
        requires
            old(self).wf(),
            forall|i: int|
                0 <= i < lines@.len() ==> line_fits(
                    #[trigger] lines@[i],
                    old(self).draw.display.width,
                    old(self).draw.display.height,
                ),
        ensures
            final(self).wf(),
            final(self).timers == old(self).timers,
            final(self).last_menu_index == old(self).last_menu_index,
            final(self).scene.status_text@ == old(self).scene.status_text@,
            final(self).scene.selected_menu_item == old(self).scene.selected_menu_item,
            !final(self).scene.damage_pending,
            final(self).draw.display.same_panel(old(self).draw.display),
            !old(self).scene.damage_pending ==> final(self).draw == old(self).draw,
            old(self).scene.damage_pending ==> ({
                let before = old(self).draw.display.writes@;
                let after = final(self).draw.display.writes@;
                &&& after.len() == before.len() + lines@.len()
                &&& after.subrange(0, before.len() as int) == before
                &&& forall|j: int|
                    0 <= j < lines@.len() ==> write_covers(
                        #[trigger] after[before.len() + j],
                        lines@[j].line,
                        lines@[j].col_start,
                        (lines@[j].col_start + lines@[j].pixels@.len()) as u16,
                        lines@[j].pixels@,
                    )
            }),
    {
        if !self.scene.damage_pending {
            return ;
        }
        let ghost before = self.draw.display.writes@;
        let count = lines.len();
        let mut i: usize = 0;
        while i < count
            invariant
                i <= count,
                count == lines@.len(),
                self.draw.wf(),
                self.draw.display.same_panel(old(self).draw.display),
                forall|k: int|
                    0 <= k < lines@.len() ==> line_fits(
                        #[trigger] lines@[k],
                        self.draw.display.width,
                        self.draw.display.height,
                    ),
                self.draw.display.writes@.len() == before.len() + i,
                self.draw.display.writes@.subrange(0, before.len() as int) == before,
                forall|j: int|
                    0 <= j < i ==> write_covers(
                        #[trigger] self.draw.display.writes@[before.len() + j],
                        lines@[j].line,
                        lines@[j].col_start,
                        (lines@[j].col_start + lines@[j].pixels@.len()) as u16,
                        lines@[j].pixels@,
                    ),
                self.timers == old(self).timers,
                self.scene == old(self).scene,
                self.last_menu_index == old(self).last_menu_index,
            decreases count - i,
        {
            let ghost prev = self.draw.display.writes@;
            let l = &lines[i];
            let width = l.pixels.len() as u16;
            self.draw.process_line(l.line, l.col_start, l.col_start + width, &l.pixels);
            proof {
                assert(self.draw.display.writes@.drop_last() == prev);
                assert(self.draw.display.writes@.subrange(0, before.len() as int)
                    =~= prev.subrange(0, before.len() as int));
                assert forall|j: int| 0 <= j < i + 1 implies write_covers(
                    #[trigger] self.draw.display.writes@[before.len() + j],
                    lines@[j].line,
                    lines@[j].col_start,
                    (lines@[j].col_start + lines@[j].pixels@.len()) as u16,
                    lines@[j].pixels@,
                ) by {
                    if j < i {
                        assert(self.draw.display.writes@[before.len() + j]
                            == self.draw.display.writes@.drop_last()[before.len() + j]);
                    } else {
                        assert(self.draw.display.writes@[before.len() + j]
                            == self.draw.display.writes@.last());
                    }
                }
            }
            i = i + 1;
        }
        self.scene.damage_pending = false;
    }

    /// Step four of a loop iteration: the loop may idle until the next
    /// interrupt or timer tick exactly when no animation is active;
    /// otherwise it must run the next iteration immediately.
    pub fn should_idle(&self, animation_active: bool) -> (r: bool)
        ensures
            r == !animation_active,
    {
        !animation_active
    }
}

} // verus!
