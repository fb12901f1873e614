use tock::gpio::{pin_state_code, set_led, InputMode, InterruptMode, PinOp, PinRequest, TypedGPIO};
use tock::process::{AppId, Callback, ScheduledCall, Upcall};

#[test]
fn out_of_range_pins_refused() {
    let g = TypedGPIO::new(2);
    for r in [g.enable_output(2), g.set_pin(2), g.clear_pin(3), g.toggle_pin(9), g.disable(2),
              g.disable_interrupts(2), g.enable_input(2, InputMode::PullUp),
              g.enable_interrupt(2, InputMode::PullNone, InterruptMode::Change)] {
        assert_eq!(r.0, -1);
        assert!(r.1.is_empty());
    }
    assert_eq!(g.read_input(2), Err(-1));
}

#[test]
fn pin_operations() {
    let g = TypedGPIO::new(2);
    assert_eq!(g.enable_output(1), (0, vec![PinRequest { pin: 1, op: PinOp::EnableOutput }]));
    assert_eq!(g.set_pin(0), (0, vec![PinRequest { pin: 0, op: PinOp::SetHigh }]));
    assert_eq!(g.clear_pin(0), (0, vec![PinRequest { pin: 0, op: PinOp::SetLow }]));
    assert_eq!(g.toggle_pin(1), (0, vec![PinRequest { pin: 1, op: PinOp::Toggle }]));
    assert_eq!(g.disable(1), (0, vec![PinRequest { pin: 1, op: PinOp::Disable }]));
    assert_eq!(g.enable_input(0, InputMode::PullDown), (0, vec![PinRequest { pin: 0, op: PinOp::EnableInput(InputMode::PullDown) }]));
    assert_eq!(g.disable_interrupts(1), (0, vec![
        PinRequest { pin: 1, op: PinOp::DisableInterrupt },
        PinRequest { pin: 1, op: PinOp::Disable },
    ]));
    assert_eq!(g.enable_interrupt(1, InputMode::PullUp, InterruptMode::RisingEdge), (0, vec![
        PinRequest { pin: 1, op: PinOp::EnableInput(InputMode::PullUp) },
        PinRequest { pin: 1, op: PinOp::EnableInterrupt { ident: 1, mode: InterruptMode::RisingEdge } },
    ]));
    assert_eq!(g.configure_interrupt(0, InterruptMode::FallingEdge),
        (0, vec![PinRequest { pin: 0, op: PinOp::EnableInterrupt { ident: 0, mode: InterruptMode::FallingEdge } }]));
    assert_eq!(g.read_input(1), Ok(1));
    assert_eq!(pin_state_code(true), 1);
    assert_eq!(pin_state_code(false), 0);
}

#[test]
fn commands_map_to_operations() {
    let g = TypedGPIO::new(4);
    assert_eq!(g.command(0, 3), g.enable_output(3));
    assert_eq!(g.command(1, 3), g.set_pin(3));
    assert_eq!(g.command(2, 3), g.clear_pin(3));
    assert_eq!(g.command(3, 3), g.toggle_pin(3));
    assert_eq!(g.command(4, 3), (-1, vec![]));
    assert_eq!(g.command(1, 4), (-1, vec![]));
}

#[test]
fn interrupt_schedules_subscribed_upcall() {
    let mut g = TypedGPIO::new(3);
    assert_eq!(g.fired(2, true), None);
    let cb = Callback::new(AppId::new(0), 11, 0x800);
    assert_eq!(g.subscribe(cb), 0);
    assert_eq!(g.fired(2, true), Some(Upcall { app: AppId::new(0), call: ScheduledCall { pc: 0x800, r0: 2, r1: 1, r2: 0, r3: 11 } }));
    assert_eq!(g.fired(0, false), Some(Upcall { app: AppId::new(0), call: ScheduledCall { pc: 0x800, r0: 0, r1: 0, r2: 0, r3: 11 } }));
}

#[test]
fn led_on() {
    assert_eq!(set_led(&TypedGPIO::new(1)), vec![
        PinRequest { pin: 0, op: PinOp::EnableOutput },
        PinRequest { pin: 0, op: PinOp::SetHigh },
    ]);
    assert!(set_led(&TypedGPIO::new(0)).is_empty());
}
