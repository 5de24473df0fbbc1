use panel_core::display::{init_display, ColorOrder, DisplayConfig, Rotation};
use panel_core::line_buffer::DrawBuffer;
use panel_core::pixel::Rgb565Pixel;
use panel_core::platform::ticks_to_millis;
use panel_core::scheduler::{RenderedLine, Scheduler};
use panel_core::timers::{TimerCallback, TimerMode};

fn small_scheduler() -> Scheduler {
    let cfg = DisplayConfig {
        width: 8,
        height: 4,
        rotation: Rotation::Deg0,
        invert_colors: false,
        color_order: ColorOrder::Rgb,
        reset_hold_micros: 10,
    };
    let draw = DrawBuffer::new(init_display(&cfg));
    Scheduler::new(draw, 0, "Starting", 0)
}

fn drain_initial_damage(s: &mut Scheduler) {
    let actions = s.advance_frame(0, 0);
    assert!(actions.redraw);
    s.draw_if_needed(&Vec::new());
}

#[test]
fn redraw_without_damage_performs_zero_device_writes() {
    let mut s = small_scheduler();
    drain_initial_damage(&mut s);
    let before = s.draw.display.writes.len();

    // nothing fired, nothing changed: no damage, no writes
    let actions = s.advance_frame(10, 0);
    assert!(!actions.redraw);
    s.draw_if_needed(&Vec::new());
    assert_eq!(s.draw.display.writes.len(), before);

    let actions = s.advance_frame(20, 0);
    assert!(!actions.redraw);
    s.draw_if_needed(&Vec::new());
    assert_eq!(s.draw.display.writes.len(), before);
}

#[test]
fn damaged_lines_are_flushed_exactly_once_in_order() {
    let mut s = small_scheduler();
    drain_initial_damage(&mut s);
    let before = s.draw.display.writes.len();

    let actions = s.advance_frame(5, 1);
    assert!(actions.selection_changed);
    assert!(actions.redraw);

    let lines = vec![
        RenderedLine { line: 1, col_start: 2, pixels: vec![Rgb565Pixel(0x0a0b)] },
        RenderedLine {
            line: 2,
            col_start: 0,
            pixels: vec![Rgb565Pixel(0x0102), Rgb565Pixel(0x0304)],
        },
    ];
    s.draw_if_needed(&lines);

    assert_eq!(s.draw.display.writes.len(), before + 2);
    let w1 = &s.draw.display.writes[before];
    assert_eq!((w1.row, w1.col_start, w1.col_end), (1, 2, 3));
    assert_eq!(w1.bytes, vec![0x0a, 0x0b]);
    let w2 = &s.draw.display.writes[before + 1];
    assert_eq!((w2.row, w2.col_start, w2.col_end), (2, 0, 2));
    assert_eq!(w2.bytes, vec![0x01, 0x02, 0x03, 0x04]);

    // the damage was consumed: the next frame writes nothing
    let actions = s.advance_frame(6, 1);
    assert!(!actions.redraw);
    s.draw_if_needed(&Vec::new());
    assert_eq!(s.draw.display.writes.len(), before + 2);
}

#[test]
fn status_text_transitions_to_init_success_exactly_once() {
    let mut s = small_scheduler();
    s.timers.start(TimerMode::SingleShot, 1000, TimerCallback::InitDone);
    drain_initial_damage(&mut s);

    assert_eq!(s.scene.status_text, "Starting");
    s.advance_frame(500, 0);
    assert_eq!(s.scene.status_text, "Starting");

    let actions = s.advance_frame(1000, 0);
    assert_eq!(s.scene.status_text, "Init Success");
    // the change raised damage, so it is visible in this same frame
    assert!(actions.redraw);
    s.draw_if_needed(&Vec::new());

    // never reverts
    s.advance_frame(2000, 0);
    assert_eq!(s.scene.status_text, "Init Success");
    s.advance_frame(50_000, 0);
    assert_eq!(s.scene.status_text, "Init Success");
    assert_eq!(s.timers.entries[0].fired_count, 1);
}

#[test]
fn selection_change_notifies_exactly_once_per_change() {
    let mut s = small_scheduler();
    drain_initial_damage(&mut s);

    let a = s.advance_frame(1, 0);
    assert!(!a.selection_changed);

    let a = s.advance_frame(2, 3);
    assert!(a.selection_changed);
    assert_eq!(s.scene.selected_menu_item, 3);
    assert!(a.redraw);
    s.draw_if_needed(&Vec::new());

    let a = s.advance_frame(3, 3);
    assert!(!a.selection_changed);
    assert!(!a.redraw);
}

#[test]
fn led_ticks_follow_the_repeating_timer() {
    let mut s = small_scheduler();
    s.timers.start(TimerMode::Repeated, 50, TimerCallback::LedTick);
    drain_initial_damage(&mut s);

    let mut total = 0;
    for now in (0..=500u64).step_by(25) {
        let a = s.advance_frame(now, 0);
        total += a.led_ticks;
        // an LED tick touches no scene field, so alone it raises no damage
        assert!(!a.redraw);
    }
    assert_eq!(total, 10);
}

#[test]
fn idles_only_without_active_animation() {
    let s = small_scheduler();
    assert!(!s.should_idle(true));
    assert!(s.should_idle(false));
}

#[test]
fn tick_conversion_matches_reference_rate() {
    // 16 MHz system timer: 16000 ticks to the millisecond
    assert_eq!(ticks_to_millis(16_000_000, 16_000_000), 1000);
    assert_eq!(ticks_to_millis(15_999, 16_000_000), 0);
    assert_eq!(ticks_to_millis(160_000, 16_000_000), 10);
    assert_eq!(ticks_to_millis(0, 1000), 0);
    assert_eq!(ticks_to_millis(123, 1000), 123);
}
