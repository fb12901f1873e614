//! The system-call interface between processes and the kernel: the numbers
//! that identify each call, the requests a process can make, and the way a
//! request is laid out in the trap that carries it (call number plus the four
//! argument registers, in the order of the C calling convention).
use vstd::prelude::*;

verus! {

/// The process yields until an upcall arrives.
pub const WAIT: u8 = 0;
/// Registers an upcall with a driver.
pub const SUBSCRIBE: u8 = 1;
/// Asks a driver to carry out a command.
pub const COMMAND: u8 = 2;
/// Shares a buffer of process memory with a driver.
pub const ALLOW: u8 = 3;
/// Shares a text with the console and registers the upcall for its
/// completion, in one trap.
pub const FAST_PRINT_ASYNC: u8 = 4;
/// Asks a driver to carry out a command through the checked entry point.
pub const SAFE: u8 = 5;
/// Asks a driver to carry out two commands on the same argument, in one trap.
pub const ENABLE_AND_SET: u8 = 6;

/// Where control goes back to after a trap is handled.
#[derive(Clone, Copy, PartialEq, Eq, Structural, Debug)]
pub enum ReturnTo {
    Process,
    Kernel,
}

impl ReturnTo {
    /// The numeric code of the destination: 0 for the process, 1 for the
    /// kernel.
    pub fn code(&self) -> (c: usize)
        ensures
            c == (match *self {
                ReturnTo::Process => 0usize,
                ReturnTo::Kernel => 1usize,
            }),
    {
        match self {
            ReturnTo::Process => 0,
            ReturnTo::Kernel => 1,
        }
    }
}

/// The four argument registers of a trap.
#[derive(Clone, Copy, PartialEq, Eq, Structural, Debug)]
pub struct Registers {
    pub r0: usize,
    pub r1: usize,
    pub r2: usize,
    pub r3: usize,
}

/// A trap into the kernel: the call number and its argument registers.
#[derive(Clone, Copy, PartialEq, Eq, Structural, Debug)]
pub struct Trap {
    pub svc: u8,
    pub regs: Registers,
}

/// A request a process makes of the kernel. Addresses of process memory and
/// of upcall functions are carried as plain numbers.
#[derive(Clone, Copy, PartialEq, Eq, Structural, Debug)]
pub enum Syscall {
    Wait,
    Subscribe { driver: usize, subnum: usize, callback: usize, appdata: usize },
    Command { driver: usize, cmdnum: usize, arg1: usize },
    Allow { driver: usize, allownum: usize, ptr: usize, len: usize },
    SafeCall { driver: usize, subnum: usize, callback: usize, appdata: usize },
    FastPrintAsync { ptr: usize, len: usize, callback: usize, appdata: usize },
    EnableAndSet { driver: usize, first: usize, second: usize, arg: usize },
}

/// The registers holding `a`, `b`, `c`, `d` in that order.
pub open spec fn regs(a: usize, b: usize, c: usize, d: usize) -> Registers {
    Registers { r0: a, r1: b, r2: c, r3: d }
}

impl Syscall {
    /// The trap that carries this request: its call number, and its
    /// arguments in `r0` to `r3` in the order they are listed; registers a
    /// request does not use hold 0.
    pub open spec fn trap(self) -> Trap {
        match self {
            Syscall::Wait => Trap { svc: WAIT, regs: regs(0, 0, 0, 0) },
            Syscall::Subscribe { driver, subnum, callback, appdata } =>
                Trap { svc: SUBSCRIBE, regs: regs(driver, subnum, callback, appdata) },
            Syscall::Command { driver, cmdnum, arg1 } =>
                Trap { svc: COMMAND, regs: regs(driver, cmdnum, arg1, 0) },
            Syscall::Allow { driver, allownum, ptr, len } =>
                Trap { svc: ALLOW, regs: regs(driver, allownum, ptr, len) },
            Syscall::SafeCall { driver, subnum, callback, appdata } =>
                Trap { svc: SAFE, regs: regs(driver, subnum, callback, appdata) },
            Syscall::FastPrintAsync { ptr, len, callback, appdata } =>
                Trap { svc: FAST_PRINT_ASYNC, regs: regs(ptr, len, callback, appdata) },
            Syscall::EnableAndSet { driver, first, second, arg } =>
                Trap { svc: ENABLE_AND_SET, regs: regs(driver, first, second, arg) },
        }
    }

    /// Lays the request out as a trap.
    pub fn encode(&self) -> (t: Trap)
        ensures
            t == self.trap(),
    {
        match *self {
            Syscall::Wait => Trap { svc: WAIT, regs: Registers { r0: 0, r1: 0, r2: 0, r3: 0 } },
            Syscall::Subscribe { driver, subnum, callback, appdata } =>
                Trap { svc: SUBSCRIBE, regs: Registers { r0: driver, r1: subnum, r2: callback, r3: appdata } },
            Syscall::Command { driver, cmdnum, arg1 } =>
                Trap { svc: COMMAND, regs: Registers { r0: driver, r1: cmdnum, r2: arg1, r3: 0 } },
            Syscall::Allow { driver, allownum, ptr, len } =>
                Trap { svc: ALLOW, regs: Registers { r0: driver, r1: allownum, r2: ptr, r3: len } },
            Syscall::SafeCall { driver, subnum, callback, appdata } =>
                Trap { svc: SAFE, regs: Registers { r0: driver, r1: subnum, r2: callback, r3: appdata } },
            Syscall::FastPrintAsync { ptr, len, callback, appdata } =>
                Trap { svc: FAST_PRINT_ASYNC, regs: Registers { r0: ptr, r1: len, r2: callback, r3: appdata } },
            Syscall::EnableAndSet { driver, first, second, arg } =>
                Trap { svc: ENABLE_AND_SET, regs: Registers { r0: driver, r1: first, r2: second, r3: arg } },
        }
    }
}

} // verus!
