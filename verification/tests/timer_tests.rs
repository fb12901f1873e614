use tock::process::{AppId, Callback, ScheduledCall, Upcall};
use tock::timer::{AlarmRequest, AlarmToTimer, Schedule, TimerData, TimerDriver, TimerRequest, NUM_PROCS, TIMER_INTERVAL};

#[test]
fn oneshot_disables_on_fire() {
    let mut t: AlarmToTimer<u8> = AlarmToTimer::new();
    assert_eq!(t.oneshot(100, 5), AlarmRequest::Arm(105));
    assert_eq!(t.schedule, Schedule::Oneshot);
    assert_eq!(t.fired(105), (AlarmRequest::Disable, None));
    t.set_client(3);
    assert_eq!(t.fired(110), (AlarmRequest::Disable, Some((3, 110))));
}

#[test]
fn repeat_rearms_and_wraps() {
    let mut t: AlarmToTimer<u8> = AlarmToTimer::new();
    t.set_client(1);
    assert_eq!(t.repeat(10, 0xffff_fffa), AlarmRequest::Arm(4));
    assert_eq!(t.fired(4), (AlarmRequest::Arm(14), Some((1, 4))));
    assert_eq!(t.fired(14), (AlarmRequest::Arm(24), Some((1, 14))));
}

#[test]
fn driver_subscribe_types() {
    let mut d = TimerDriver::new();
    let cb = Callback::new(AppId::new(0), 3, 0x700);
    assert_eq!(d.subscribe(2, cb, 0), (-1, None));
    assert_eq!(d.app_timers[0], None);
    assert_eq!(d.subscribe(0, cb, 50), (0, Some(TimerRequest::Oneshot(TIMER_INTERVAL))));
    assert_eq!(d.app_timers[0], Some(TimerData { t0: 50, interval: 15000, repeating: false, callback: cb }));
    assert_eq!(d.subscribe(1, cb, 60), (0, Some(TimerRequest::Repeat(TIMER_INTERVAL))));
    assert_eq!(d.app_timers[0], Some(TimerData { t0: 60, interval: 15000, repeating: true, callback: cb }));
    assert_eq!(d.app_timers.len(), NUM_PROCS);
}

#[test]
fn driver_fires_due_timers_only() {
    let mut d = TimerDriver::new();
    assert!(d.fired(1_000_000).is_empty());
    let cb = Callback::new(AppId::new(0), 3, 0x700);
    let _ = d.subscribe(0, cb, 0xffff_ff00);
    assert!(d.fired(0xffff_ff00 + 100).is_empty());
    let due_at = 0xffff_ff00u32.wrapping_add(15000);
    assert_eq!(d.fired(due_at), vec![Upcall { app: AppId::new(0), call: ScheduledCall { pc: 0x700, r0: due_at as usize, r1: 0, r2: 0, r3: 3 } }]);
    assert!(d.fired(due_at - 1).is_empty());
    // the slot is kept, so a later firing schedules the upcall again
    assert_eq!(d.fired(due_at + 5).len(), 1);
}
