//! The kernel's decisions when it runs a process: what to run next, and how
//! to answer each system call the process traps with. The platform layer
//! performs what these functions decide (switching to the process, calling
//! drivers, writing the answer into `r0`) and loops until the process has
//! nothing left to do.
use vstd::prelude::*;
use crate::process::{AppId, Callback, Process, ScheduledCall, State, range_within};
use crate::syscall::{
    Registers, Syscall, ALLOW, COMMAND, ENABLE_AND_SET, FAST_PRINT_ASYNC, SAFE, SUBSCRIBE, WAIT,
};

verus! {

/// What to do with the process next.
#[derive(Clone, Copy, PartialEq, Eq, Structural, Debug)]
pub enum RunStep {
    /// Resume the process where it stopped.
    Resume,
    /// Run the process from this upcall.
    Deliver(ScheduledCall),
    /// The process waits and no upcall is pending: stop running it.
    Idle,
}

/// The step that follows a process in `state` with pending upcalls `q`,
/// together with the process's state and pending upcalls afterwards.
pub open spec fn next_step_spec(state: State, q: Seq<ScheduledCall>) -> (RunStep, State, Seq<ScheduledCall>) {
    match state {
        State::Running => (RunStep::Resume, State::Running, q),
        State::Waiting => if q.len() == 0 {
            (RunStep::Idle, State::Waiting, q)
        } else {
            (RunStep::Deliver(q[0]), State::Running, q.drop_first())
        },
    }
}

/// Decides how the process runs next: a running process resumes; a waiting
/// process is given its oldest pending upcall and becomes running, or, with
/// none pending, is left waiting.
pub fn next_step(process: &mut Process) -> (step: RunStep)
    requires
        old(process).wf(),
    ensures
        final(process).wf(),
        final(process).exposed_start == old(process).exposed_start,
        final(process).memory_end == old(process).memory_end,
        final(process).callbacks.capacity() == old(process).callbacks.capacity(),
        (step, final(process).state, final(process).callbacks@)
            == next_step_spec(old(process).state, old(process).callbacks@),
{
    match process.state {
        State::Running => RunStep::Resume,
        State::Waiting => {
            match process.callbacks.dequeue() {
                None => RunStep::Idle,
                Some(cb) => {
                    process.state = State::Running;
                    RunStep::Deliver(cb)
                },
            }
        },
    }
}

/// A call into a driver that a system call asks for.
#[derive(Clone, Copy, PartialEq, Eq, Structural, Debug)]
pub enum DriverCall {
    /// Register `callback` for event `subnum` of driver `driver`.
    Subscribe { driver: usize, subnum: usize, callback: Callback },
    /// Carry out command `cmdnum` of driver `driver` on `arg`.
    Command { driver: usize, cmdnum: usize, arg: usize },
    /// Share the `len` bytes at `addr` in the memory of `app` with driver
    /// `driver`, for its use number `allownum`.
    Allow { driver: usize, allownum: usize, app: AppId, addr: usize, len: usize },
}

/// How the kernel handles a trap.
pub enum Dispatch {
    /// The process waits: pop its system-call frame and stop running it.
    Wait,
    /// Answer the process with this value, calling no driver.
    Reply(isize),
    /// Make these driver calls in order and answer the process with what
    /// the last one returns (see `syscall_return`).
    Calls(Vec<DriverCall>),
    /// The trap is no system call the kernel knows; nothing is answered.
    Unknown,
}

/// The meaning of a `Dispatch`.
#[verifier::ext_equal]
pub enum Outcome {
    Wait,
    Reply(isize),
    Calls(Seq<DriverCall>),
    Unknown,
}

impl View for Dispatch {
    type V = Outcome;

    open spec fn view(&self) -> Outcome {
        match self {
            Dispatch::Wait => Outcome::Wait,
            Dispatch::Reply(r) => Outcome::Reply(*r),
            Dispatch::Calls(v) => Outcome::Calls(v@),
            Dispatch::Unknown => Outcome::Unknown,
        }
    }
}

/// Whether `[start, start + size)` lies in the memory process `p` exposes.
pub open spec fn exposed(p: Process, start: usize, size: usize) -> bool {
    range_within(start as int, size as int, p.exposed_start as int, p.memory_end as int)
}

/// How the kernel handles a trap with call number `svc` and registers `r`
/// from process `appid`, whose record is `p`.
pub open spec fn outcome(p: Process, appid: AppId, svc: Option<u8>, r: Registers) -> Outcome {
    match svc {
        Some(n) => if n == WAIT {
            Outcome::Wait
        } else if n == SUBSCRIBE {
            Outcome::Calls(seq![DriverCall::Subscribe {
                driver: r.r0, subnum: r.r1,
                callback: Callback { app_id: appid, appdata: r.r3, fn_ptr: r.r2 },
            }])
        } else if n == COMMAND || n == SAFE {
            Outcome::Calls(seq![DriverCall::Command { driver: r.r0, cmdnum: r.r1, arg: r.r2 }])
        } else if n == ALLOW {
            if exposed(p, r.r2, r.r3) {
                Outcome::Calls(seq![DriverCall::Allow {
                    driver: r.r0, allownum: r.r1, app: appid, addr: r.r2, len: r.r3,
                }])
            } else {
                Outcome::Reply(-1isize)
            }
        } else if n == FAST_PRINT_ASYNC {
            let sub = DriverCall::Subscribe {
                driver: 0, subnum: 1,
                callback: Callback { app_id: appid, appdata: r.r3, fn_ptr: r.r2 },
            };
            if exposed(p, r.r0, r.r1) {
                Outcome::Calls(seq![
                    DriverCall::Allow { driver: 0, allownum: 1, app: appid, addr: r.r0, len: r.r1 },
                    sub,
                ])
            } else {
                Outcome::Calls(seq![sub])
            }
        } else if n == ENABLE_AND_SET {
            Outcome::Calls(seq![
                DriverCall::Command { driver: r.r0, cmdnum: r.r1, arg: r.r3 },
                DriverCall::Command { driver: r.r0, cmdnum: r.r2, arg: r.r3 },
            ])
        } else {
            Outcome::Unknown
        },
        None => Outcome::Unknown,
    }
}

/// The state of a process in `state` after it traps with `svc`.
pub open spec fn state_after(state: State, svc: Option<u8>) -> State {
    if svc == Some(WAIT) { State::Waiting } else { state }
}

/// Decides how to handle the trap with call number `svc` (`None` when the
/// process stopped for another reason) and argument registers `regs` from
/// process `appid`:
/// - `WAIT`: the process becomes waiting;
/// - `SUBSCRIBE`: subscribe to driver `r0`, event `r1`, with the upcall at
///   `r2` and datum `r3`;
/// - `COMMAND` and `SAFE`: command `r1` of driver `r0` on `r2`;
/// - `ALLOW`: share `r3` bytes at `r2` with driver `r0` for use `r1`, when
///   that buffer lies in the process's exposed memory, else answer -1;
/// - `FAST_PRINT_ASYNC`: share `r1` bytes at `r0` with the console (driver
///   0, use 1) when they lie in exposed memory, then subscribe to console
///   event 1 with the upcall at `r2` and datum `r3`;
/// - `ENABLE_AND_SET`: commands `r1` then `r2` of driver `r0`, both on `r3`.
pub fn dispatch(process: &mut Process, appid: AppId, svc: Option<u8>, regs: Registers) -> (d: Dispatch)
    requires
        old(process).wf(),
    ensures
        final(process).wf(),
        final(process).exposed_start == old(process).exposed_start,
        final(process).memory_end == old(process).memory_end,
        final(process).callbacks == old(process).callbacks,
        final(process).state == state_after(old(process).state, svc),
        d@ == outcome(*old(process), appid, svc, regs),
{
    let n: u8 = match svc {
        Some(n) => n,
        None => return Dispatch::Unknown,
    };
    if n == WAIT {
        process.state = State::Waiting;
        Dispatch::Wait
    } else if n == SUBSCRIBE {
        let callback = Callback::new(appid, regs.r3, regs.r2);
        let mut v: Vec<DriverCall> = Vec::new();
        v.push(DriverCall::Subscribe { driver: regs.r0, subnum: regs.r1, callback });
        assert(v@ =~= seq![DriverCall::Subscribe { driver: regs.r0, subnum: regs.r1, callback }]);
        Dispatch::Calls(v)
    } else if n == COMMAND || n == SAFE {
        let mut v: Vec<DriverCall> = Vec::new();
        v.push(DriverCall::Command { driver: regs.r0, cmdnum: regs.r1, arg: regs.r2 });
        assert(v@ =~= seq![DriverCall::Command { driver: regs.r0, cmdnum: regs.r1, arg: regs.r2 }]);
        Dispatch::Calls(v)
    } else if n == ALLOW {
        if process.in_exposed_bounds(regs.r2, regs.r3) {
            let call = DriverCall::Allow {
                driver: regs.r0, allownum: regs.r1, app: appid, addr: regs.r2, len: regs.r3,
            };
            let mut v: Vec<DriverCall> = Vec::new();
            v.push(call);
            assert(v@ =~= seq![call]);
            Dispatch::Calls(v)
        } else {
            Dispatch::Reply(-1)
        }
    } else if n == FAST_PRINT_ASYNC {
        let sub = DriverCall::Subscribe {
            driver: 0, subnum: 1, callback: Callback::new(appid, regs.r3, regs.r2),
        };
        let mut v: Vec<DriverCall> = Vec::new();
        if process.in_exposed_bounds(regs.r0, regs.r1) {
            let share = DriverCall::Allow { driver: 0, allownum: 1, app: appid, addr: regs.r0, len: regs.r1 };
            v.push(share);
            v.push(sub);
            assert(v@ =~= seq![share, sub]);
        } else {
            v.push(sub);
            assert(v@ =~= seq![sub]);
        }
        Dispatch::Calls(v)
    } else if n == ENABLE_AND_SET {
        let first = DriverCall::Command { driver: regs.r0, cmdnum: regs.r1, arg: regs.r3 };
        let second = DriverCall::Command { driver: regs.r0, cmdnum: regs.r2, arg: regs.r3 };
        let mut v: Vec<DriverCall> = Vec::new();
        v.push(first);
        v.push(second);
        assert(v@ =~= seq![first, second]);
        Dispatch::Calls(v)
    } else {
        Dispatch::Unknown
    }
}

/// The answer written back to the process after a driver call: what the
/// driver returned, or -1 when no driver has that number.
pub fn syscall_return(reply: Option<isize>) -> (r: isize)
    ensures
        r == (match reply {
            Some(x) => x,
            None => -1isize,
        }),
{
    match reply {
        Some(x) => x,
        None => -1,
    }
}

/// What a request means to the kernel, read off the request itself: the
/// driver calls it names (an allow only when its buffer lies in the exposed
/// memory of process `p`), or waiting.
pub open spec fn requested(p: Process, appid: AppId, s: Syscall) -> Outcome {
    match s {
        Syscall::Wait => Outcome::Wait,
        Syscall::Subscribe { driver, subnum, callback, appdata } =>
            Outcome::Calls(seq![DriverCall::Subscribe {
                driver, subnum, callback: Callback { app_id: appid, appdata, fn_ptr: callback },
            }]),
        Syscall::Command { driver, cmdnum, arg1 } =>
            Outcome::Calls(seq![DriverCall::Command { driver, cmdnum, arg: arg1 }]),
        Syscall::SafeCall { driver, subnum, callback, appdata } =>
            Outcome::Calls(seq![DriverCall::Command { driver, cmdnum: subnum, arg: callback }]),
        Syscall::Allow { driver, allownum, ptr, len } =>
            if exposed(p, ptr, len) {
                Outcome::Calls(seq![DriverCall::Allow { driver, allownum, app: appid, addr: ptr, len }])
            } else {
                Outcome::Reply(-1isize)
            },
        Syscall::FastPrintAsync { ptr, len, callback, appdata } => {
            let sub = DriverCall::Subscribe {
                driver: 0, subnum: 1, callback: Callback { app_id: appid, appdata, fn_ptr: callback },
            };
            if exposed(p, ptr, len) {
                Outcome::Calls(seq![DriverCall::Allow { driver: 0, allownum: 1, app: appid, addr: ptr, len }, sub])
            } else {
                Outcome::Calls(seq![sub])
            }
        },
        Syscall::EnableAndSet { driver, first, second, arg } =>
            Outcome::Calls(seq![
                DriverCall::Command { driver, cmdnum: first, arg },
                DriverCall::Command { driver, cmdnum: second, arg },
            ]),
    }
}

/// Law: the kernel reads every request back from the registers where the
/// process put it. For any request `s` from process `appid`, handling the
/// trap `s` is encoded as gives exactly the driver calls (or the wait) that
/// `s` names.
pub proof fn lemma_trap_round_trip(p: Process, appid: AppId, s: Syscall)
    ensures
        outcome(p, appid, Some(s.trap().svc), s.trap().regs) == requested(p, appid, s),
{
}

/// Law: making a pin an output and driving it high in one trap asks the
/// GPIO driver for the same two commands, in the same order, as the two
/// separate traps `enable_pin(pin)` and `set_pin(pin)`.
pub proof fn lemma_enable_and_set_is_two_commands(p: Process, appid: AppId, pin: usize)
    ensures
        ({
            let both = (Syscall::EnableAndSet { driver: 1, first: 0, second: 1, arg: pin }).trap();
            let en = crate::syscalls::enable_pin_spec(pin).trap();
            let set = crate::syscalls::set_pin_spec(pin).trap();
            match (outcome(p, appid, Some(en.svc), en.regs), outcome(p, appid, Some(set.svc), set.regs)) {
                (Outcome::Calls(a), Outcome::Calls(b)) =>
                    outcome(p, appid, Some(both.svc), both.regs) == Outcome::Calls(a + b),
                _ => false,
            }
        }),
{
    let en = crate::syscalls::enable_pin_spec(pin).trap();
    let set = crate::syscalls::set_pin_spec(pin).trap();
    let a = seq![DriverCall::Command { driver: 1, cmdnum: 0, arg: pin }];
    let b = seq![DriverCall::Command { driver: 1, cmdnum: 1, arg: pin }];
    assert(outcome(p, appid, Some(en.svc), en.regs) == Outcome::Calls(a));
    assert(outcome(p, appid, Some(set.svc), set.regs) == Outcome::Calls(b));
    assert(a + b =~= seq![
        DriverCall::Command { driver: 1, cmdnum: 0, arg: pin },
        DriverCall::Command { driver: 1, cmdnum: 1, arg: pin },
    ]);
}

/// Law: a process that traps with `WAIT` is not resumed: the next step runs
/// its oldest pending upcall, or, with none pending, stops running it.
pub proof fn lemma_wait_then_next(state: State, q: Seq<ScheduledCall>)
    ensures
        next_step_spec(state_after(state, Some(WAIT)), q).0
            == (if q.len() == 0 { RunStep::Idle } else { RunStep::Deliver(q[0]) }),
{
}

/// Law: an upcall scheduled on a waiting process that has nothing else
/// pending is the very next thing the process runs, and afterwards nothing is
/// pending.
pub proof fn lemma_scheduled_upcall_runs_next(c: ScheduledCall)
    ensures
        next_step_spec(State::Waiting, Seq::<ScheduledCall>::empty().push(c))
            == (RunStep::Deliver(c), State::Running, Seq::<ScheduledCall>::empty()),
{
    assert(Seq::<ScheduledCall>::empty().push(c).drop_first() =~= Seq::<ScheduledCall>::empty());
}

/// Law: only `WAIT` changes a process's scheduling state. Any other trap,
/// or a stop that is no trap, leaves a running process running (so it is
/// resumed with the kernel's answer) and a waiting one waiting; `WAIT` makes
/// it waiting whatever it was.
pub proof fn lemma_only_wait_changes_state(state: State, svc: Option<u8>)
    ensures
        svc != Some(WAIT) ==> state_after(state, svc) == state,
        svc == Some(WAIT) ==> state_after(state, svc) == State::Waiting,
        svc != Some(WAIT) && state == State::Running ==> next_step_spec(state_after(state, svc), Seq::<ScheduledCall>::empty()).0 == RunStep::Resume,
{
}

/// Law: each step of a waiting process takes exactly one upcall, the oldest,
/// off its queue: the upcalls left pending are the others, in the same
/// order, and the process becomes running. A running process is resumed and
/// its queue is untouched; a waiting process with nothing pending stays
/// waiting and is not run.
pub proof fn lemma_step_takes_one_upcall(state: State, q: Seq<ScheduledCall>)
    ensures
        state == State::Running ==> next_step_spec(state, q) == (RunStep::Resume, State::Running, q),
        state == State::Waiting && q.len() == 0 ==> next_step_spec(state, q).0 == RunStep::Idle
            && next_step_spec(state, q).1 == State::Waiting && next_step_spec(state, q).2 == q,
        state == State::Waiting && q.len() > 0 ==> {
            let (step, st, rest) = next_step_spec(state, q);
            &&& step == RunStep::Deliver(q[0])
            &&& st == State::Running
            &&& rest.len() == q.len() - 1
            &&& forall|i: int| 0 <= i < rest.len() ==> rest[i] == #[trigger] q[i + 1]
        },
{
}

/// Law: each request a process makes reaches the driver it names, with its
/// arguments in their places. A command (plain or checked) becomes that
/// command on that argument; a subscription registers an upcall into the
/// calling process at the given address with the given datum; an allow of a
/// buffer in exposed memory shares exactly that buffer, and of any other
/// buffer is refused with -1 without calling a driver; a one-trap print
/// shares the text with the console when it is exposed and always
/// subscribes the upcall; the one-trap pin command asks for both commands on
/// the same argument, first then second.
pub proof fn lemma_requests_reach_drivers(p: Process, appid: AppId, d: usize, n: usize, a: usize, b: usize)
    ensures
        ({
            let t = (Syscall::Command { driver: d, cmdnum: n, arg1: a }).trap();
            outcome(p, appid, Some(t.svc), t.regs) == Outcome::Calls(seq![DriverCall::Command { driver: d, cmdnum: n, arg: a }])
        }),
        ({
            let t = (Syscall::SafeCall { driver: d, subnum: n, callback: a, appdata: b }).trap();
            outcome(p, appid, Some(t.svc), t.regs) == Outcome::Calls(seq![DriverCall::Command { driver: d, cmdnum: n, arg: a }])
        }),
        ({
            let t = (Syscall::Subscribe { driver: d, subnum: n, callback: a, appdata: b }).trap();
            outcome(p, appid, Some(t.svc), t.regs) == Outcome::Calls(seq![DriverCall::Subscribe {
                driver: d, subnum: n, callback: Callback { app_id: appid, appdata: b, fn_ptr: a },
            }])
        }),
        ({
            let t = (Syscall::Allow { driver: d, allownum: n, ptr: a, len: b }).trap();
            &&& p.exposed_start <= a && a + b <= p.memory_end ==> outcome(p, appid, Some(t.svc), t.regs)
                == Outcome::Calls(seq![DriverCall::Allow { driver: d, allownum: n, app: appid, addr: a, len: b }])
            &&& !(p.exposed_start <= a && a + b <= p.memory_end) ==> outcome(p, appid, Some(t.svc), t.regs)
                == Outcome::Reply(-1isize)
        }),
        ({
            let t = (Syscall::FastPrintAsync { ptr: a, len: b, callback: d, appdata: n }).trap();
            let sub = DriverCall::Subscribe { driver: 0, subnum: 1, callback: Callback { app_id: appid, appdata: n, fn_ptr: d } };
            &&& p.exposed_start <= a && a + b <= p.memory_end ==> outcome(p, appid, Some(t.svc), t.regs)
                == Outcome::Calls(seq![DriverCall::Allow { driver: 0, allownum: 1, app: appid, addr: a, len: b }, sub])
            &&& !(p.exposed_start <= a && a + b <= p.memory_end) ==> outcome(p, appid, Some(t.svc), t.regs)
                == Outcome::Calls(seq![sub])
        }),
        ({
            let t = (Syscall::EnableAndSet { driver: d, first: n, second: a, arg: b }).trap();
            outcome(p, appid, Some(t.svc), t.regs) == Outcome::Calls(seq![
                DriverCall::Command { driver: d, cmdnum: n, arg: b },
                DriverCall::Command { driver: d, cmdnum: a, arg: b },
            ])
        }),
        ({
            let t = Syscall::Wait.trap();
            outcome(p, appid, Some(t.svc), t.regs) == Outcome::Wait
        }),
        outcome(p, appid, None, Registers { r0: d, r1: n, r2: a, r3: b }) == Outcome::Unknown,
{
}

} // verus!
