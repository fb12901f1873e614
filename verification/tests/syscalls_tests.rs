use tock::syscall::{ReturnTo, Syscall, ALLOW, COMMAND, ENABLE_AND_SET, FAST_PRINT_ASYNC, SAFE, SUBSCRIBE, WAIT};
use tock::syscalls;

#[test]
fn pin_helpers_are_gpio_commands() {
    assert_eq!(syscalls::enable_pin(4), Syscall::Command { driver: 1, cmdnum: 0, arg1: 4 });
    assert_eq!(syscalls::set_pin(4), Syscall::Command { driver: 1, cmdnum: 1, arg1: 4 });
    assert_eq!(syscalls::clear_pin(4), Syscall::Command { driver: 1, cmdnum: 2, arg1: 4 });
    assert_eq!(syscalls::toggle_pin(4), Syscall::Command { driver: 1, cmdnum: 3, arg1: 4 });
    assert_eq!(syscalls::enable_and_set(4), Syscall::EnableAndSet { driver: 1, first: 0, second: 1, arg: 4 });
    assert_eq!(syscalls::enable_and_set_cmd(4), (syscalls::enable_pin(4), syscalls::set_pin(4)));
}

#[test]
fn traps_use_call_numbers_and_argument_order() {
    let t = syscalls::command(1, 2, 3).encode();
    assert_eq!((t.svc, t.regs.r0, t.regs.r1, t.regs.r2, t.regs.r3), (COMMAND, 1, 2, 3, 0));
    let t = syscalls::allow(1, 2, 3, 4).encode();
    assert_eq!((t.svc, t.regs.r0, t.regs.r1, t.regs.r2, t.regs.r3), (ALLOW, 1, 2, 3, 4));
    let t = syscalls::subscribe(1, 2, 3, 4).encode();
    assert_eq!((t.svc, t.regs.r0, t.regs.r1, t.regs.r2, t.regs.r3), (SUBSCRIBE, 1, 2, 3, 4));
    let t = syscalls::safe_call(1, 2, 3, 4).encode();
    assert_eq!((t.svc, t.regs.r0, t.regs.r1, t.regs.r2, t.regs.r3), (SAFE, 1, 2, 3, 4));
    let t = syscalls::fast_print_async(1, 2, 3, 4).encode();
    assert_eq!((t.svc, t.regs.r0, t.regs.r1, t.regs.r2, t.regs.r3), (FAST_PRINT_ASYNC, 1, 2, 3, 4));
    let t = syscalls::enable_and_set(7).encode();
    assert_eq!((t.svc, t.regs.r0, t.regs.r1, t.regs.r2, t.regs.r3), (ENABLE_AND_SET, 1, 0, 1, 7));
    let t = syscalls::wait().encode();
    assert_eq!(t.svc, WAIT);
}

#[test]
fn return_to_codes() {
    assert_eq!(ReturnTo::Process.code(), 0);
    assert_eq!(ReturnTo::Kernel.code(), 1);
}

#[test]
fn two_trap_pin_answer_is_the_second() {
    assert_eq!(syscalls::enable_and_set_cmd_answer(0, -1), -1);
    assert_eq!(syscalls::enable_and_set_cmd_answer(-1, 0), 0);
}
