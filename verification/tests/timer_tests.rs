use panel_core::timers::{TimerCallback, TimerList, TimerMode};

#[test]
fn one_shot_fires_once_at_first_pass_past_due() {
    let mut t = TimerList::new(0);
    t.start(TimerMode::SingleShot, 1000, TimerCallback::InitDone);

    assert!(t.update_timers(500).is_empty());
    assert!(t.update_timers(999).is_empty());

    let fired = t.update_timers(1000);
    assert_eq!(fired, vec![TimerCallback::InitDone]);
    assert_eq!(t.entries[0].fired_count, 1);
    assert!(!t.entries[0].armed);

    // never again, however far the clock advances
    assert!(t.update_timers(1500).is_empty());
    assert!(t.update_timers(100_000).is_empty());
    assert_eq!(t.entries[0].fired_count, 1);
}

#[test]
fn one_shot_with_zero_delay_fires_at_next_pass() {
    let mut t = TimerList::new(7);
    t.start(TimerMode::SingleShot, 0, TimerCallback::LedTick);
    let fired = t.update_timers(7);
    assert_eq!(fired, vec![TimerCallback::LedTick]);
    assert!(t.update_timers(8).is_empty());
}

#[test]
fn repeating_fires_floor_t_over_p_times() {
    let mut t = TimerList::new(0);
    t.start(TimerMode::Repeated, 50, TimerCallback::LedTick);

    let mut total = 0;
    for now in (0..=1000u64).step_by(10) {
        total += t.update_timers(now).len();
    }
    assert_eq!(total, 1000 / 50);
    assert_eq!(t.entries[0].fired_count, 20);
    assert!(t.entries[0].armed);
}

#[test]
fn repeating_rearms_for_due_plus_period() {
    let mut t = TimerList::new(100);
    t.start(TimerMode::Repeated, 50, TimerCallback::LedTick);
    assert_eq!(t.entries[0].due_ms, 150);
    t.update_timers(160);
    assert_eq!(t.entries[0].due_ms, 200);
    t.update_timers(160);
    assert_eq!(t.entries[0].due_ms, 200);
}

#[test]
fn repeating_catches_up_one_fire_per_pass() {
    let mut t = TimerList::new(0);
    t.start(TimerMode::Repeated, 50, TimerCallback::LedTick);
    // the clock jumped three periods ahead: one fire per pass until settled
    assert_eq!(t.update_timers(160).len(), 1);
    assert_eq!(t.update_timers(160).len(), 1);
    assert_eq!(t.update_timers(160).len(), 1);
    assert_eq!(t.update_timers(160).len(), 0);
    assert_eq!(t.entries[0].fired_count, 3);
}

#[test]
fn due_timers_fire_in_registration_order() {
    let mut t = TimerList::new(0);
    t.start(TimerMode::SingleShot, 100, TimerCallback::InitDone);
    t.start(TimerMode::Repeated, 30, TimerCallback::LedTick);
    let fired = t.update_timers(100);
    assert_eq!(fired, vec![TimerCallback::InitDone, TimerCallback::LedTick]);
}

#[test]
fn timer_not_due_is_untouched() {
    let mut t = TimerList::new(0);
    t.start(TimerMode::Repeated, 1000, TimerCallback::LedTick);
    let before = t.entries[0];
    assert!(t.update_timers(999).is_empty());
    assert_eq!(t.entries[0], before);
}
