//! Timers. `AlarmToTimer` turns a single hardware alarm into a timer that
//! fires once or repeatedly; `TimerDriver` lets each process start a timer
//! and schedules its upcall when the timer has run out.
use vstd::prelude::*;
use crate::process::{upcall_of, Callback, Upcall};

verus! {

/// `a + b` on 32-bit counters, wrapping round.
pub open spec fn wrap_add(a: u32, b: u32) -> u32 {
    vstd::wrapping::u32_specs::wrapping_add(a, b)
}

/// `a - b` on 32-bit counters, wrapping round.
pub open spec fn wrap_sub(a: u32, b: u32) -> u32 {
    vstd::wrapping::u32_specs::wrapping_sub(a, b)
}

/// How the timer behaves when its alarm fires.
#[derive(Clone, Copy, PartialEq, Eq, Structural, Debug)]
pub enum Schedule {
    /// Fire once, then stop.
    Oneshot,
    /// Fire every `interval` ticks.
    Repeating { interval: u32 },
}

/// What to do to the hardware alarm.
#[derive(Clone, Copy, PartialEq, Eq, Structural, Debug)]
pub enum AlarmRequest {
    /// Arm the alarm to fire when the counter reaches this value.
    Arm(u32),
    /// Stop the alarm.
    Disable,
}

/// A timer built on one hardware alarm; `C` identifies the client told when
/// the timer fires.
pub struct AlarmToTimer<C> {
    pub schedule: Schedule,
    pub client: Option<C>,
}

impl<C: Copy> AlarmToTimer<C> {
    /// A one-shot timer with no client.
    pub fn new() -> (t: Self)
        ensures
            t.schedule == Schedule::Oneshot,
            t.client is None,
    {
        AlarmToTimer { schedule: Schedule::Oneshot, client: None }
    }

    /// Makes `client` the one told when the timer fires.
    pub fn set_client(&mut self, client: C)
        ensures
            final(self).client == Some(client),
            final(self).schedule == old(self).schedule,
    {
        self.client = Some(client);
    }

    /// Starts the timer to fire once, `interval` ticks after `now` (the
    /// alarm's counter): the alarm is armed for `interval + now`, wrapping.
    pub fn oneshot(&mut self, interval: u32, now: u32) -> (r: AlarmRequest)
        ensures
            final(self).schedule == Schedule::Oneshot,
            final(self).client == old(self).client,
            r == AlarmRequest::Arm(wrap_add(interval, now)),
    {
        self.schedule = Schedule::Oneshot;
        AlarmRequest::Arm(interval.wrapping_add(now))
    }

    /// Starts the timer to fire every `interval` ticks, first `interval`
    /// ticks after `now`.
    pub fn repeat(&mut self, interval: u32, now: u32) -> (r: AlarmRequest)
        ensures
            final(self).schedule == (Schedule::Repeating { interval }),
            final(self).client == old(self).client,
            r == AlarmRequest::Arm(wrap_add(interval, now)),
    {
        self.schedule = Schedule::Repeating { interval };
        AlarmRequest::Arm(interval.wrapping_add(now))
    }

    /// The alarm fired with its counter at `now`. A one-shot timer stops the
    /// alarm; a repeating one re-arms it `interval` ticks after `now`. The
    /// client, if any, is told `now`.
    pub fn fired(&self, now: u32) -> (r: (AlarmRequest, Option<(C, u32)>))
        ensures
            r.0 == fired_request(self.schedule, now),
            r.1 == (match self.client {
                Some(c) => Some((c, now)),
                None => None,
            }),
    {
        let req = match self.schedule {
            Schedule::Oneshot => AlarmRequest::Disable,
            Schedule::Repeating { interval } => AlarmRequest::Arm(interval.wrapping_add(now)),
        };
        let note = match self.client {
            Some(c) => Some((c, now)),
            None => None,
        };
        (req, note)
    }
}

/// What the alarm is told when it fires at `now` under `schedule`.
pub open spec fn fired_request(schedule: Schedule, now: u32) -> AlarmRequest {
    match schedule {
        Schedule::Oneshot => AlarmRequest::Disable,
        Schedule::Repeating { interval } => AlarmRequest::Arm(wrap_add(interval, now)),
    }
}

/// The counter value at which a repeating timer of `interval` ticks, started
/// at `t`, is armed for its `k`-th firing when every earlier firing happened
/// on time.
pub open spec fn armed_at(k: nat, interval: u32, t: u32) -> u32
    decreases k,
{
    if k == 0 {
        t
    } else {
        wrap_add(interval, armed_at((k - 1) as nat, interval, t))
    }
}

/// Law: a repeating timer keeps its period. Started with `repeat(interval,
/// t)` and fired each time exactly when armed, its `k`-th arming is at
/// `t + k * interval`, modulo 2^32; a one-shot timer stops the alarm when it
/// fires.
pub proof fn lemma_repeat_keeps_period(interval: u32, t: u32, k: nat)
    ensures
        armed_at(k, interval, t) as int == (t as int + k * interval as int) % 0x1_0000_0000,
        fired_request(Schedule::Repeating { interval }, armed_at(k, interval, t))
            == AlarmRequest::Arm(armed_at(k + 1, interval, t)),
        forall|now: u32| fired_request(Schedule::Oneshot, now) == AlarmRequest::Disable,
    decreases k,
{
    if k > 0 {
        lemma_repeat_keeps_period(interval, t, (k - 1) as nat);
        let prev = armed_at((k - 1) as nat, interval, t);
        let m = 0x1_0000_0000int;
        let a = t as int + (k - 1) * interval as int;
        assert(prev as int == a % m);
        vstd::arithmetic::div_mod::lemma_add_mod_noop_right(interval as int, a, m);
        assert(interval as int + a == t as int + k * interval as int) by (nonlinear_arith)
            requires
                a == t as int + (k - 1) * interval as int,
        ;
        let x = interval as int + prev as int;
        assert(0 <= x && x < 2 * m);
        if x >= m {
            vstd::arithmetic::div_mod::lemma_mod_add_multiples_vanish(x - m, m);
            vstd::arithmetic::div_mod::lemma_small_mod((x - m) as nat, m as nat);
        } else {
            vstd::arithmetic::div_mod::lemma_small_mod(x as nat, m as nat);
        }
        assert(armed_at(k, interval, t) as int == x % m);
        assert(x % m == (interval as int + a) % m);
    } else {
        vstd::arithmetic::div_mod::lemma_small_mod(t as nat, 0x1_0000_0000nat);
    }
}

/// Number of processes the kernel runs.
pub const NUM_PROCS: usize = 1;

/// Ticks every timer a process starts runs for.
pub const TIMER_INTERVAL: u32 = 15000;

/// A timer a process started.
#[derive(Clone, Copy, PartialEq, Eq, Structural, Debug)]
pub struct TimerData {
    /// Counter value when it was started.
    pub t0: u32,
    /// Ticks it runs for.
    pub interval: u32,
    /// Whether it was started to repeat.
    pub repeating: bool,
    /// The process's upcall.
    pub callback: Callback,
}

/// What to ask of the underlying timer.
#[derive(Clone, Copy, PartialEq, Eq, Structural, Debug)]
pub enum TimerRequest {
    /// Fire once after this many ticks.
    Oneshot(u32),
    /// Fire every this many ticks.
    Repeat(u32),
}

/// The timer driver: one timer slot per process.
pub struct TimerDriver {
    pub app_timers: Vec<Option<TimerData>>,
}

/// Whether timer `t` has run out when the counter reads `now`: at least its
/// interval has elapsed since it started, counting round the wrap.
pub open spec fn due(t: TimerData, now: u32) -> bool {
    wrap_sub(now, t.t0) >= t.interval
}

/// The upcalls to schedule when the underlying timer fires at `now`: one
/// for each slot, in slot order, that holds a timer that has run out, with
/// `now` as its first value.
pub open spec fn due_calls(ts: Seq<Option<TimerData>>, now: u32) -> Seq<Upcall>
    decreases ts.len(),
{
    if ts.len() == 0 {
        Seq::empty()
    } else {
        let rest = due_calls(ts.drop_last(), now);
        match ts.last() {
            Some(t) => if due(t, now) {
                rest.push(upcall_of(t.callback, now as usize, 0, 0))
            } else {
                rest
            },
            None => rest,
        }
    }
}

impl TimerDriver {
    /// The driver has one slot per process.
    pub open spec fn wf(&self) -> bool {
        self.app_timers.len() == NUM_PROCS
    }

    /// A driver with every slot empty.
    pub fn new() -> (d: TimerDriver)
        ensures
            d.wf(),
            d.app_timers@ == Seq::new(NUM_PROCS as nat, |i: int| None::<TimerData>),
    {
        let mut v: Vec<Option<TimerData>> = Vec::new();
        let mut i: usize = 0;
        while i < NUM_PROCS
            invariant
                i <= NUM_PROCS,
                v@ == Seq::new(i as nat, |j: int| None::<TimerData>),
            decreases NUM_PROCS - i,
        {
            v.push(None);
            i = i + 1;
            assert(v@ =~= Seq::new(i as nat, |j: int| None::<TimerData>));
        }
        TimerDriver { app_timers: v }
    }

    /// A process subscribes with `callback`: type 0 starts a one-shot timer,
    /// type 1 a repeating one, both of `TIMER_INTERVAL` ticks from `now` (the
    /// timer's counter), in the process's slot; the answer is 0. Any other
    /// type changes nothing and is answered -1.
    pub fn subscribe(&mut self, subscribe_type: usize, callback: Callback, now: u32) -> (r: (isize, Option<TimerRequest>))
        requires
            old(self).wf(),
            subscribe_type == 0 || subscribe_type == 1 ==> callback.app_id.index < NUM_PROCS,
        ensures
            final(self).wf(),
            subscribe_type == 0 ==> r == (0isize, Some(TimerRequest::Oneshot(TIMER_INTERVAL)))
                && final(self).app_timers@ == old(self).app_timers@.update(callback.app_id.index as int,
                    Some(TimerData { t0: now, interval: TIMER_INTERVAL, repeating: false, callback })),
            subscribe_type == 1 ==> r == (0isize, Some(TimerRequest::Repeat(TIMER_INTERVAL)))
                && final(self).app_timers@ == old(self).app_timers@.update(callback.app_id.index as int,
                    Some(TimerData { t0: now, interval: TIMER_INTERVAL, repeating: true, callback })),
            subscribe_type > 1 ==> r == (-1isize, None::<TimerRequest>) && final(self).app_timers@ == old(self).app_timers@,
    {
        let interval = TIMER_INTERVAL;
        if subscribe_type == 0 {
            let idx = callback.app_id().idx();
            self.app_timers.set(idx, Some(TimerData { t0: now, interval, repeating: false, callback }));
            (0, Some(TimerRequest::Oneshot(interval)))
        } else if subscribe_type == 1 {
            let idx = callback.app_id().idx();
            self.app_timers.set(idx, Some(TimerData { t0: now, interval, repeating: true, callback }));
            (0, Some(TimerRequest::Repeat(interval)))
        } else {
            (-1, None)
        }
    }

    /// The underlying timer fired at `now`: the upcalls of every process
    /// whose timer has run out, each given `now`. Timers stay in their slots.
    pub fn fired(&self, now: u32) -> (calls: Vec<Upcall>)
        ensures
            calls@ == due_calls(self.app_timers@, now),
    {
        let mut out: Vec<Upcall> = Vec::new();
        let mut i: usize = 0;
        while i < self.app_timers.len()
            invariant
                i <= self.app_timers.len(),
                out@ == due_calls(self.app_timers@.subrange(0, i as int), now),
            decreases self.app_timers.len() - i,
        {
            let ghost prefix = self.app_timers@.subrange(0, i as int + 1);
            assert(prefix.drop_last() =~= self.app_timers@.subrange(0, i as int));
            match self.app_timers[i] {
                Some(timer) => {
                    let elapsed = now.wrapping_sub(timer.t0);
                    if elapsed >= timer.interval {
                        out.push(timer.callback.schedule(now as usize, 0, 0));
                    }
                },
                None => {},
            }
            i = i + 1;
        }
        assert(self.app_timers@.subrange(0, self.app_timers.len() as int) =~= self.app_timers@);
        out
    }
}

/// Law: a timer a process starts by subscribing at counter value `t0`
/// delivers its upcall, with the counter value `now`, on every firing of the
/// underlying timer from the moment at least `TIMER_INTERVAL` ticks have
/// elapsed since `t0` (counting round the wrap), and not before. Shown for
/// the kernel's single process slot.
pub proof fn lemma_started_timer_fires(ts: Seq<Option<TimerData>>, cb: Callback, t0: u32, repeating: bool, now: u32)
    requires
        ts.len() == NUM_PROCS,
        cb.app_id.index == 0,
    ensures
        due_calls(ts.update(0, Some(TimerData { t0, interval: TIMER_INTERVAL, repeating, callback: cb })), now)
            == (if wrap_sub(now, t0) >= TIMER_INTERVAL {
                seq![upcall_of(cb, now as usize, 0, 0)]
            } else {
                Seq::<Upcall>::empty()
            }),
{
    let us = ts.update(0, Some(TimerData { t0, interval: TIMER_INTERVAL, repeating, callback: cb }));
    assert(us.drop_last() =~= Seq::<Option<TimerData>>::empty());
    assert(due_calls(us.drop_last(), now) =~= Seq::<Upcall>::empty());
    if wrap_sub(now, t0) >= TIMER_INTERVAL {
        assert(Seq::<Upcall>::empty().push(upcall_of(cb, now as usize, 0, 0))
            =~= seq![upcall_of(cb, now as usize, 0, 0)]);
    }
}

/// Law: timer counters are 32-bit and wrap round: `wrap_add` and
/// `wrap_sub` are addition and subtraction modulo 2^32.
pub proof fn lemma_wrapping(a: u32, b: u32)
    ensures
        wrap_add(a, b) as int == (a as int + b as int) % 0x1_0000_0000,
        wrap_sub(a, b) as int == (a as int - b as int + 0x1_0000_0000) % 0x1_0000_0000,
        wrap_sub(wrap_add(a, b), a) == b,
{
    let m = 0x1_0000_0000int;
    if a as int + b as int >= m {
        vstd::arithmetic::div_mod::lemma_mod_add_multiples_vanish(a as int + b as int - m, m);
        vstd::arithmetic::div_mod::lemma_small_mod((a as int + b as int - m) as nat, m as nat);
    } else {
        vstd::arithmetic::div_mod::lemma_small_mod((a as int + b as int) as nat, m as nat);
    }
    if a as int - b as int >= 0 {
        vstd::arithmetic::div_mod::lemma_mod_add_multiples_vanish(a as int - b as int, m);
        vstd::arithmetic::div_mod::lemma_small_mod((a as int - b as int) as nat, m as nat);
    } else {
        vstd::arithmetic::div_mod::lemma_small_mod((a as int - b as int + m) as nat, m as nat);
    }
}

/// Law: a process's timer is due exactly when at least its interval has
/// passed since it was started, measured modulo 2^32.
pub proof fn lemma_due_means_elapsed(t: TimerData, now: u32)
    ensures
        due(t, now) <==> (now as int - t.t0 as int + 0x1_0000_0000) % 0x1_0000_0000 >= t.interval,
{
    lemma_wrapping(now, t.t0);
}

} // verus!
