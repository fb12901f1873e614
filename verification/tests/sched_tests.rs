use tock::process::{AppId, Callback, Process, ScheduledCall, State};
use tock::sched::{dispatch, next_step, syscall_return, Dispatch, DriverCall, RunStep};
use tock::syscall::{Registers, Syscall, ALLOW, COMMAND, ENABLE_AND_SET, FAST_PRINT_ASYNC, SAFE, SUBSCRIBE, WAIT};
use tock::syscalls;

fn regs(r0: usize, r1: usize, r2: usize, r3: usize) -> Registers {
    Registers { r0, r1, r2, r3 }
}

fn calls(d: Dispatch) -> Vec<DriverCall> {
    match d {
        Dispatch::Calls(v) => v,
        _ => panic!("expected driver calls"),
    }
}

#[test]
fn command_and_safe_call_one_command() {
    let mut p = Process::create(0x1000, 0x2000, 4);
    let app = AppId::new(0);
    let c = calls(dispatch(&mut p, app, Some(COMMAND), regs(1, 2, 3, 4)));
    assert_eq!(c, vec![DriverCall::Command { driver: 1, cmdnum: 2, arg: 3 }]);
    let c = calls(dispatch(&mut p, app, Some(SAFE), regs(5, 6, 7, 8)));
    assert_eq!(c, vec![DriverCall::Command { driver: 5, cmdnum: 6, arg: 7 }]);
    assert_eq!(p.state, State::Running);
}

#[test]
fn subscribe_builds_callback() {
    let mut p = Process::create(0x1000, 0x2000, 4);
    let app = AppId::new(0);
    let c = calls(dispatch(&mut p, app, Some(SUBSCRIBE), regs(3, 1, 0x4242, 77)));
    assert_eq!(c, vec![DriverCall::Subscribe {
        driver: 3, subnum: 1, callback: Callback { app_id: app, appdata: 77, fn_ptr: 0x4242 },
    }]);
}

#[test]
fn allow_checks_exposed_memory() {
    let mut p = Process::create(0x1000, 0x2000, 4);
    let app = AppId::new(0);
    let c = calls(dispatch(&mut p, app, Some(ALLOW), regs(0, 1, 0x1800, 0x800)));
    assert_eq!(c, vec![DriverCall::Allow { driver: 0, allownum: 1, app, addr: 0x1800, len: 0x800 }]);
    match dispatch(&mut p, app, Some(ALLOW), regs(0, 1, 0x1800, 0x801)) {
        Dispatch::Reply(r) => assert_eq!(r, -1),
        _ => panic!("expected refusal"),
    }
    match dispatch(&mut p, app, Some(ALLOW), regs(0, 1, 0xfff, 1)) {
        Dispatch::Reply(r) => assert_eq!(r, -1),
        _ => panic!("expected refusal"),
    }
    match dispatch(&mut p, app, Some(ALLOW), regs(0, 1, usize::MAX, 2)) {
        Dispatch::Reply(r) => assert_eq!(r, -1),
        _ => panic!("expected refusal"),
    }
}

#[test]
fn fast_print_shares_then_subscribes() {
    let mut p = Process::create(0x1000, 0x2000, 4);
    let app = AppId::new(0);
    let sub = DriverCall::Subscribe { driver: 0, subnum: 1, callback: Callback { app_id: app, appdata: 9, fn_ptr: 0x500 } };
    let c = calls(dispatch(&mut p, app, Some(FAST_PRINT_ASYNC), regs(0x1100, 5, 0x500, 9)));
    assert_eq!(c, vec![DriverCall::Allow { driver: 0, allownum: 1, app, addr: 0x1100, len: 5 }, sub]);
    let c = calls(dispatch(&mut p, app, Some(FAST_PRINT_ASYNC), regs(0x10, 5, 0x500, 9)));
    assert_eq!(c, vec![sub]);
}

#[test]
fn enable_and_set_two_commands() {
    let mut p = Process::create(0x1000, 0x2000, 4);
    let app = AppId::new(0);
    let c = calls(dispatch(&mut p, app, Some(ENABLE_AND_SET), regs(1, 0, 1, 4)));
    assert_eq!(c, vec![
        DriverCall::Command { driver: 1, cmdnum: 0, arg: 4 },
        DriverCall::Command { driver: 1, cmdnum: 1, arg: 4 },
    ]);
}

#[test]
fn wait_and_unknown() {
    let mut p = Process::create(0x1000, 0x2000, 4);
    let app = AppId::new(0);
    assert!(matches!(dispatch(&mut p, app, Some(42), regs(0, 0, 0, 0)), Dispatch::Unknown));
    assert!(matches!(dispatch(&mut p, app, None, regs(0, 0, 0, 0)), Dispatch::Unknown));
    assert_eq!(p.state, State::Running);
    assert!(matches!(dispatch(&mut p, app, Some(WAIT), regs(0, 0, 0, 0)), Dispatch::Wait));
    assert_eq!(p.state, State::Waiting);
}

#[test]
fn scheduler_runs_upcalls_in_order_then_idles() {
    let mut p = Process::create(0, 0, 4);
    assert_eq!(next_step(&mut p), RunStep::Resume);
    let app = AppId::new(0);
    let _ = dispatch(&mut p, app, Some(WAIT), regs(0, 0, 0, 0));
    assert_eq!(next_step(&mut p), RunStep::Idle);
    assert_eq!(p.state, State::Waiting);
    let cb = Callback::new(app, 5, 0x900);
    let up = cb.schedule(1, 2, 3);
    assert_eq!(up.app, app);
    let first = up.call;
    let second = cb.schedule(4, 5, 6).call;
    assert_eq!(first, ScheduledCall { pc: 0x900, r0: 1, r1: 2, r2: 3, r3: 5 });
    assert!(p.schedule(first));
    assert!(p.schedule(second));
    assert_eq!(next_step(&mut p), RunStep::Deliver(first));
    assert_eq!(p.state, State::Running);
    assert_eq!(next_step(&mut p), RunStep::Resume);
    let _ = dispatch(&mut p, app, Some(WAIT), regs(0, 0, 0, 0));
    assert_eq!(next_step(&mut p), RunStep::Deliver(second));
    let _ = dispatch(&mut p, app, Some(WAIT), regs(0, 0, 0, 0));
    assert_eq!(next_step(&mut p), RunStep::Idle);
}

#[test]
fn upcall_queue_full() {
    let mut p = Process::create(0, 0, 1);
    let c = ScheduledCall { pc: 1, r0: 0, r1: 0, r2: 0, r3: 0 };
    assert!(p.schedule(c));
    assert!(!p.schedule(c));
}

#[test]
fn missing_driver_answers_minus_one() {
    assert_eq!(syscall_return(None), -1);
    assert_eq!(syscall_return(Some(7)), 7);
    assert_eq!(syscall_return(Some(-3)), -3);
}

#[test]
fn encoded_requests_round_trip() {
    let mut p = Process::create(0x1000, 0x2000, 4);
    let app = AppId::new(0);
    let s = syscalls::command(2, 3, 4);
    let t = s.encode();
    let c = calls(dispatch(&mut p, app, Some(t.svc), t.regs));
    assert_eq!(c, vec![DriverCall::Command { driver: 2, cmdnum: 3, arg: 4 }]);
    let s = syscalls::subscribe(2, 1, 0x77, 8);
    let t = s.encode();
    assert_eq!(t.svc, SUBSCRIBE);
    let c = calls(dispatch(&mut p, app, Some(t.svc), t.regs));
    assert_eq!(c, vec![DriverCall::Subscribe { driver: 2, subnum: 1, callback: Callback::new(app, 8, 0x77) }]);
    let t = syscalls::wait().encode();
    assert!(matches!(dispatch(&mut p, app, Some(t.svc), t.regs), Dispatch::Wait));
    let t = Syscall::Allow { driver: 0, allownum: 1, ptr: 0x1000, len: 16 }.encode();
    let c = calls(dispatch(&mut p, app, Some(t.svc), t.regs));
    assert_eq!(c, vec![DriverCall::Allow { driver: 0, allownum: 1, app, addr: 0x1000, len: 16 }]);
}

#[test]
fn enable_and_set_equals_two_pin_commands() {
    let mut p = Process::create(0, 0, 4);
    let app = AppId::new(0);
    let t = syscalls::enable_and_set(3).encode();
    let both = calls(dispatch(&mut p, app, Some(t.svc), t.regs));
    let (a, b) = syscalls::enable_and_set_cmd(3);
    let ta = a.encode();
    let tb = b.encode();
    let mut sep = calls(dispatch(&mut p, app, Some(ta.svc), ta.regs));
    sep.extend(calls(dispatch(&mut p, app, Some(tb.svc), tb.regs)));
    assert_eq!(both, sep);
}
