//! Virtual-time timers for the cooperative main loop.
//!
//! A timer entry is registered once and then polled: each scheduler pass
//! advances the virtual clock and fires every due entry once, in
//! registration order.  A fired one-shot entry disarms itself; a fired
//! repeating entry re-arms for `due + period`.  Nothing here blocks: the
//! main loop calls `update_timers` once per iteration.

use vstd::prelude::*;

verus! {

use vstd::arithmetic::div_mod::lemma_fundamental_div_mod_converse_div;
use vstd::pervasive::VecAdditionalExecFns;

/// What a timer does when it fires.
#[derive(Clone, Copy, PartialEq, Eq, Structural, Debug)]
pub enum TimerCallback {
    /// Announce that initialization finished: the scene's status text
    /// becomes the init-success message.
    InitDone,
    /// One tick of the LED effect.
    LedTick,
}

/// Whether a timer fires once or once per period.
#[derive(Clone, Copy, PartialEq, Eq, Structural, Debug)]
pub enum TimerMode {
    SingleShot,
    Repeated,
}

/// One timer entry: mode, period (the delay, for a one-shot), due time,
/// and callback, plus the registration time and a fire counter that the
/// contracts are stated over.
#[derive(Clone, Copy, PartialEq, Eq, Structural, Debug)]
pub struct TimerEntry {
    /// One-shot or repeating.
    pub mode: TimerMode,
    /// The period of a repeating timer; the delay of a one-shot.
    pub period_ms: u64,
    /// The virtual time at or after which the entry fires next.
    pub due_ms: u64,
    /// The virtual time the entry was registered at.
    pub started_ms: u64,
    /// Whether the entry can still fire.
    pub armed: bool,
    /// How many times the entry has fired so far.
    pub fired_count: u64,
    /// What firing does.
    pub callback: TimerCallback,
}

/// The entry fires during a pass at virtual time `now`.
pub open spec fn timer_fires(e: TimerEntry, now: u64) -> bool {
    e.armed && e.due_ms <= now
}

/// The entry after one scheduler pass at virtual time `now`: fired
/// entries count the fire and disarm (one-shot) or re-arm for
/// `due + period` (repeating); entries that are not due are untouched.
pub open spec fn updated_entry(e: TimerEntry, now: u64) -> TimerEntry {
    if timer_fires(e, now) {
        match e.mode {
            TimerMode::SingleShot => TimerEntry {
                armed: false,
                fired_count: (e.fired_count + 1) as u64,
                ..e
            },
            TimerMode::Repeated => TimerEntry {
                due_ms: (e.due_ms + e.period_ms) as u64,
                fired_count: (e.fired_count + 1) as u64,
                ..e
            },
        }
    } else {
        e
    }
}

/// A freshly registered entry: due one period (or delay) from now,
/// armed, never fired.
pub open spec fn fresh_entry(
    mode: TimerMode,
    period_ms: u64,
    now: u64,
    callback: TimerCallback,
) -> TimerEntry {
    TimerEntry {
        mode,
        period_ms,
        due_ms: (now + period_ms) as u64,
        started_ms: now,
        armed: true,
        fired_count: 0,
        callback,
    }
}

/// The entry's bookkeeping invariant at virtual time `now`.  A repeating
/// entry has a nonzero period, its due time accounts for every fire so
/// far, and it has been serviced within the last period; a one-shot entry
/// is due one delay after registration and fires at most once.
pub open spec fn timer_entry_wf(e: TimerEntry, now: u64) -> bool {
    e.started_ms <= now && match e.mode {
        TimerMode::Repeated => {
            &&& e.period_ms >= 1
            &&& e.due_ms == e.started_ms + (e.fired_count + 1) * e.period_ms
            &&& e.due_ms <= now + e.period_ms
        },
        TimerMode::SingleShot => {
            &&& e.due_ms == e.started_ms + e.period_ms
            &&& (e.armed ==> e.fired_count == 0)
            &&& (!e.armed ==> e.fired_count <= 1)
        },
    }
}

/// No due entry would push its due time past the clock's range when
/// re-armed: the one machine limit the caller must respect.
pub open spec fn no_due_overflow(s: Seq<TimerEntry>, now: u64) -> bool {
    forall|i: int|
        0 <= i < s.len() && timer_fires(#[trigger] s[i], now)
            ==> s[i].due_ms + s[i].period_ms <= u64::MAX
}

/// The callbacks of the entries that fire during a pass at `now`, in
/// registration order.
pub open spec fn fired_callbacks(s: Seq<TimerEntry>, now: u64) -> Seq<TimerCallback>
    decreases s.len(),
{
    if s.len() == 0 {
        Seq::empty()
    } else {
        let head: Seq<TimerCallback> = if timer_fires(s[0], now) {
            seq![s[0].callback]
        } else {
            Seq::empty()
        };
        head + fired_callbacks(s.drop_first(), now)
    }
}

/// Appending an entry appends its callback to the fired list exactly when
/// it fires.
pub proof fn lemma_fired_callbacks_push(s: Seq<TimerEntry>, x: TimerEntry, now: u64)
    ensures
        fired_callbacks(s.push(x), now) == fired_callbacks(s, now) + (if timer_fires(x, now) {
            seq![x.callback]
        } else {
            Seq::<TimerCallback>::empty()
        }),
    decreases s.len(),
{
    let tail: Seq<TimerCallback> = if timer_fires(x, now) {
        seq![x.callback]
    } else {
        Seq::empty()
    };
    if s.len() == 0 {
        assert(s.push(x)[0] == x);
        assert(s.push(x).drop_first() =~= Seq::<TimerEntry>::empty());
        assert(fired_callbacks(s.push(x).drop_first(), now) == Seq::<TimerCallback>::empty());
        assert(fired_callbacks(s.push(x), now) =~= fired_callbacks(s, now) + tail);
    } else {
        lemma_fired_callbacks_push(s.drop_first(), x, now);
        assert(s.push(x).drop_first() =~= s.drop_first().push(x));
        assert(s.push(x)[0] == s[0]);
        let head: Seq<TimerCallback> = if timer_fires(s[0], now) {
            seq![s[0].callback]
        } else {
            Seq::empty()
        };
        assert(fired_callbacks(s.push(x), now)
            == head + (fired_callbacks(s.drop_first(), now) + tail));
        assert(head + (fired_callbacks(s.drop_first(), now) + tail)
            =~= (head + fired_callbacks(s.drop_first(), now)) + tail);
    }
}

/// One pass preserves an entry's invariant.
proof fn lemma_pass_preserves_entry_wf(e: TimerEntry, old_now: u64, now: u64)
    requires
        timer_entry_wf(e, old_now),
        old_now <= now,
        timer_fires(e, now) ==> e.due_ms + e.period_ms <= u64::MAX,
    ensures
        timer_entry_wf(updated_entry(e, now), now),
{
    if timer_fires(e, now) {
        match e.mode {
            TimerMode::Repeated => {
                assert((e.fired_count + 1 + 1) * e.period_ms
                    == (e.fired_count + 1) * e.period_ms + e.period_ms) by (nonlinear_arith);
                assert(e.fired_count + 1 <= (e.fired_count + 1) * e.period_ms) by (nonlinear_arith)
                    requires
                        e.period_ms >= 1,
                ;
            },
            TimerMode::SingleShot => {},
        }
    }
}

/// The registry: the virtual clock and the entries, in registration
/// order.
pub struct TimerList {
    /// The virtual time of the latest pass, in milliseconds.
    pub now_ms: u64,
    /// The registered entries, oldest first.
    pub entries: Vec<TimerEntry>,
}

impl TimerList {
    /// Every entry satisfies its bookkeeping invariant at the current
    /// virtual time.
    pub open spec fn wf(self) -> bool {
        forall|i: int|
            0 <= i < self.entries@.len() ==> timer_entry_wf(#[trigger] self.entries@[i], self.now_ms)
    }

    /// An empty registry starting at virtual time `now_ms`.
    pub fn new(now_ms: u64) -> (r: TimerList)
        ensures
            r.wf(),
            r.now_ms == now_ms,
            r.entries@.len() == 0,
    {
        TimerList { now_ms, entries: Vec::new() }
    }

    /// Registers a timer: due one period (for a one-shot, one delay)
    /// from now.  Returns its position in registration order.
    pub fn start(
        &mut self,
        mode: TimerMode,
        period_ms: u64,
        callback: TimerCallback,
    ) -> (idx: usize)
        requires
            old(self).wf(),
            old(self).now_ms + period_ms <= u64::MAX,
            mode == TimerMode::Repeated ==> period_ms >= 1,
        ensures
            final(self).wf(),
            final(self).now_ms == old(self).now_ms,
            idx == old(self).entries@.len(),
            final(self).entries@ == old(self).entries@.push(
                fresh_entry(mode, period_ms, old(self).now_ms, callback),
            ),
    {
        let idx = self.entries.len();
        let e = TimerEntry {
            mode,
            period_ms,
            due_ms: self.now_ms + period_ms,
            started_ms: self.now_ms,
            armed: true,
            fired_count: 0,
            callback,
        };
        self.entries.push(e);
        proof {
            let f = fresh_entry(mode, period_ms, old(self).now_ms, callback);
            assert(1 * (period_ms as int) == period_ms as int) by (nonlinear_arith);
            assert(timer_entry_wf(f, self.now_ms));
            assert forall|i: int| 0 <= i < self.entries@.len() implies timer_entry_wf(
                #[trigger] self.entries@[i],
                self.now_ms,
            ) by {
                if i < old(self).entries@.len() {
                    assert(self.entries@[i] == old(self).entries@[i]);
                }
            }
        }
        idx
    }

    /// One scheduler pass: advances the virtual clock to `now` and fires
    /// every due entry once, in registration order.  A fired one-shot
    /// disarms itself; a fired repeating entry re-arms for `due + period`.
    /// Returns the callbacks of the fired entries, in that order.
    pub fn update_timers(&mut self, now: u64) -> (fired: Vec<TimerCallback>)
        requires
            old(self).wf(),
            old(self).now_ms <= now,
            no_due_overflow(old(self).entries@, now),
        ensures
            final(self).wf(),
            final(self).now_ms == now,
            final(self).entries@.len() == old(self).entries@.len(),
            forall|i: int|
                0 <= i < old(self).entries@.len()
                    ==> final(self).entries@[i] == updated_entry(#[trigger] old(self).entries@[i], now),
            fired@ == fired_callbacks(old(self).entries@, now),
    {
        let ghost orig = self.entries@;
        let mut fired: Vec<TimerCallback> = Vec::new();
        let count = self.entries.len();
        let mut i: usize = 0;
        while i < count
            invariant
                i <= count,
                count == orig.len(),
                self.entries@.len() == orig.len(),
                self.now_ms == old(self).now_ms,
                old(self).now_ms <= now,
                no_due_overflow(orig, now),
                forall|j: int| 0 <= j < orig.len() ==> timer_entry_wf(#[trigger] orig[j], old(self).now_ms),
                forall|j: int| i <= j < orig.len() ==> self.entries@[j] == orig[j],
                forall|j: int| 0 <= j < i ==> self.entries@[j] == updated_entry(#[trigger] orig[j], now),
                fired@ == fired_callbacks(orig.take(i as int), now),
            decreases count - i,
        {
            let e = self.entries[i];
            proof {
                lemma_fired_callbacks_push(orig.take(i as int), orig[i as int], now);
                assert(orig.take(i + 1) =~= orig.take(i as int).push(orig[i as int]));
            }
            if e.armed && e.due_ms <= now {
                proof {
                    if e.mode == TimerMode::Repeated {
                        assert(e.fired_count + 1 <= (e.fired_count + 1) * e.period_ms)
                            by (nonlinear_arith)
                            requires
                                e.period_ms >= 1,
                        ;
                    }
                }
                let updated = match e.mode {
                    TimerMode::SingleShot => TimerEntry {
                        armed: false,
                        fired_count: e.fired_count + 1,
                        ..e
                    },
                    TimerMode::Repeated => TimerEntry {
                        due_ms: e.due_ms + e.period_ms,
                        fired_count: e.fired_count + 1,
                        ..e
                    },
                };
                self.entries.set(i, updated);
                fired.push(e.callback);
            }
            i = i + 1;
        }
        proof {
            assert(orig.take(orig.len() as int) =~= orig);
            assert forall|j: int| 0 <= j < self.entries@.len() implies timer_entry_wf(
                #[trigger] self.entries@[j],
                now,
            ) by {
                lemma_pass_preserves_entry_wf(orig[j], old(self).now_ms, now);
            }
        }
        self.now_ms = now;
        fired
    }
}

/// A one-shot timer fires its callback exactly once: not before its due
/// time, once at the first pass whose virtual time has reached it, and
/// never at any pass after that.
pub proof fn lemma_single_shot_fires_once(e: TimerEntry, t1: u64, t2: u64)
    requires
        e.mode == TimerMode::SingleShot,
        e.armed,
        e.fired_count < u64::MAX,
    ensures
        t1 < e.due_ms ==> updated_entry(e, t1) == e,
        t1 >= e.due_ms ==> updated_entry(e, t1).fired_count == e.fired_count + 1
            && !updated_entry(e, t1).armed,
        t1 >= e.due_ms ==> updated_entry(updated_entry(e, t1), t2) == updated_entry(e, t1),
{
}

/// A repeating timer with period `p`, registered at `s` and observed
/// settled at virtual time `now` — it is not due, having been serviced
/// within its last period — has fired exactly `(now - s) / p` times
/// (integer division).
pub proof fn lemma_repeating_fire_count(e: TimerEntry, now: u64)
    requires
        e.mode == TimerMode::Repeated,
        e.armed,
        timer_entry_wf(e, now),
        !timer_fires(e, now),
    ensures
        e.fired_count as int == (now - e.started_ms) / (e.period_ms as int),
{
    let d = (now - e.started_ms) as int;
    let p = e.period_ms as int;
    let q = e.fired_count as int;
    assert((q + 1) * p == q * p + p) by (nonlinear_arith);
    // due > now and due <= now + p pin now - s between q*p and (q+1)*p
    let r = d - q * p;
    assert(0 <= r < p);
    lemma_fundamental_div_mod_converse_div(d, p, q, r);
}

} // verus!
