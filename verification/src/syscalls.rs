//! The system calls as a process issues them. Each function builds the
//! request; the platform layer traps into the kernel with it and hands back
//! the kernel's answer.
use vstd::prelude::*;
use crate::syscall::Syscall;

verus! {

/// Shares the text of `len` bytes at `ptr` with the console and registers
/// `cb` (with datum `appdata`) as the upcall for when it has been written.
pub fn fast_print_async(ptr: usize, len: usize, cb: usize, appdata: usize) -> (s: Syscall)
    ensures
        s == (Syscall::FastPrintAsync { ptr, len, callback: cb, appdata }),
{
    Syscall::FastPrintAsync { ptr, len, callback: cb, appdata }
}

/// Asks driver `driver_num` to run command `subnum` on `cb`, through the
/// checked entry point.
pub fn safe_call(driver_num: usize, subnum: usize, cb: usize, appdata: usize) -> (s: Syscall)
    ensures
        s == (Syscall::SafeCall { driver: driver_num, subnum, callback: cb, appdata }),
{
    Syscall::SafeCall { driver: driver_num, subnum, callback: cb, appdata }
}

/// Shares the buffer of `len` bytes at `ptr` with driver `driver_num`, for
/// its use number `allownum`.
pub fn allow(driver_num: usize, allownum: usize, ptr: usize, len: usize) -> (s: Syscall)
    ensures
        s == (Syscall::Allow { driver: driver_num, allownum, ptr, len }),
{
    Syscall::Allow { driver: driver_num, allownum, ptr, len }
}

/// Asks driver `driver_num` to carry out command `cmdnum` with argument
/// `arg1`.
pub fn command(driver_num: usize, cmdnum: usize, arg1: usize) -> (s: Syscall)
    ensures
        s == (Syscall::Command { driver: driver_num, cmdnum, arg1 }),
{
    Syscall::Command { driver: driver_num, cmdnum, arg1 }
}

/// Registers the upcall at `callback`, with datum `appdata`, for event
/// `cmdnum` of driver `driver_num`.
pub fn subscribe(driver_num: usize, cmdnum: usize, callback: usize, appdata: usize) -> (s: Syscall)
    ensures
        s == (Syscall::Subscribe { driver: driver_num, subnum: cmdnum, callback, appdata }),
{
    Syscall::Subscribe { driver: driver_num, subnum: cmdnum, callback, appdata }
}

/// Driver number of the GPIO driver.
pub const GPIO_DRIVER: usize = 1;

/// Makes GPIO pin `pin` an output: command 0 of the GPIO driver.
pub fn enable_pin(pin: usize) -> (s: Syscall)
    ensures
        s == (Syscall::Command { driver: GPIO_DRIVER, cmdnum: 0, arg1: pin }),
{
    command(GPIO_DRIVER, 0, pin)
}

/// Drives GPIO pin `pin` high: command 1 of the GPIO driver.
pub fn set_pin(pin: usize) -> (s: Syscall)
    ensures
        s == (Syscall::Command { driver: GPIO_DRIVER, cmdnum: 1, arg1: pin }),
{
    command(GPIO_DRIVER, 1, pin)
}

/// Drives GPIO pin `pin` low: command 2 of the GPIO driver.
pub fn clear_pin(pin: usize) -> (s: Syscall)
    ensures
        s == (Syscall::Command { driver: GPIO_DRIVER, cmdnum: 2, arg1: pin }),
{
    command(GPIO_DRIVER, 2, pin)
}

/// Inverts GPIO pin `pin`: command 3 of the GPIO driver.
pub fn toggle_pin(pin: usize) -> (s: Syscall)
    ensures
        s == (Syscall::Command { driver: GPIO_DRIVER, cmdnum: 3, arg1: pin }),
{
    command(GPIO_DRIVER, 3, pin)
}

/// Makes GPIO pin `pin` an output and drives it high, in one trap: commands
/// 0 then 1 of the GPIO driver on the same pin.
pub fn enable_and_set(pin: usize) -> (s: Syscall)
    ensures
        s == (Syscall::EnableAndSet { driver: GPIO_DRIVER, first: 0, second: 1, arg: pin }),
{
    Syscall::EnableAndSet { driver: GPIO_DRIVER, first: 0, second: 1, arg: pin }
}

/// Makes GPIO pin `pin` an output and drives it high with two traps, in
/// this order; the answer to the second is the answer of the whole.
pub fn enable_and_set_cmd(pin: usize) -> (s: (Syscall, Syscall))
    ensures
        s.0 == enable_pin_spec(pin),
        s.1 == set_pin_spec(pin),
{
    (command(GPIO_DRIVER, 0, pin), command(GPIO_DRIVER, 1, pin))
}

/// The answer of `enable_and_set_cmd`, given the kernel's answers to its
/// first and second trap: the second one's.
pub fn enable_and_set_cmd_answer(first: isize, second: isize) -> (r: isize)
    ensures
        r == second,
{
    let _ = first;
    second
}

/// The request `enable_pin(pin)` builds.
pub open spec fn enable_pin_spec(pin: usize) -> Syscall {
    Syscall::Command { driver: GPIO_DRIVER, cmdnum: 0, arg1: pin }
}

/// The request `set_pin(pin)` builds.
pub open spec fn set_pin_spec(pin: usize) -> Syscall {
    Syscall::Command { driver: GPIO_DRIVER, cmdnum: 1, arg1: pin }
}

/// Yields the processor until an upcall is delivered.
pub fn wait() -> (s: Syscall)
    ensures
        s == Syscall::Wait,
{
    Syscall::Wait
}

} // verus!
