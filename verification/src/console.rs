//! Console output and input as a process drives them through system calls.
//! A text is written either in one trap (`puts`, `puts_wrapper`,
//! `print_async`) or in two (`puts_old`, `print_old`: share the text, then
//! subscribe to its completion). The platform layer formats the text, keeps
//! it alive until the completion upcall, and supplies the addresses.
use vstd::prelude::*;
use crate::process::{AppId, Process};
use crate::sched::{exposed, outcome, Outcome};
use crate::syscall::Syscall;
use crate::syscalls;

verus! {

/// Driver number of the console.
pub const CONSOLE_DRIVER: usize = 0;

/// The console's use number for text to write, and its event number for a
/// finished write.
pub const CONSOLE_WRITE: usize = 1;

/// What the upcall for a finished write returns.
pub const WRITE_DONE_TOKEN: isize = 0xbeef;

/// Writes the `b` bytes at address `a` in one trap; when they have been
/// written the console calls `write_done` with `boxed`, the address of the
/// boxed text, as its datum.
pub fn puts(a: usize, b: usize, write_done: usize, boxed: usize) -> (s: Syscall)
    ensures
        s == (Syscall::FastPrintAsync { ptr: a, len: b, callback: write_done, appdata: boxed }),
{
    syscalls::fast_print_async(a, b, write_done, boxed)
}

/// Writes `string`, found at `text_addr`, in one trap (see `puts`).
pub fn puts_wrapper(string: &str, text_addr: usize, write_done: usize, boxed: usize) -> (s: Syscall)
    ensures
        s == (Syscall::FastPrintAsync {
            ptr: text_addr, len: string.len(), callback: write_done, appdata: boxed,
        }),
{
    let b = string.len();
    puts(text_addr, b, write_done, boxed)
}

/// Writes an already formatted text in one trap (see `puts`).
pub fn print_async(text: &str, text_addr: usize, write_done: usize, boxed: usize) -> (s: Syscall)
    ensures
        s == (Syscall::FastPrintAsync {
            ptr: text_addr, len: text.len(), callback: write_done, appdata: boxed,
        }),
{
    puts_wrapper(text, text_addr, write_done, boxed)
}

/// Writes `string`, found at `text_addr`, with two traps in this order:
/// share its bytes with the console, then subscribe `write_done` with datum
/// `boxed` to the console's write event.
pub fn puts_old(string: &str, text_addr: usize, write_done: usize, boxed: usize) -> (s: (Syscall, Syscall))
    ensures
        s.0 == (Syscall::Allow {
            driver: CONSOLE_DRIVER, allownum: CONSOLE_WRITE, ptr: text_addr, len: string.len(),
        }),
        s.1 == (Syscall::Subscribe { driver: CONSOLE_DRIVER, subnum: CONSOLE_WRITE, callback: write_done, appdata: boxed }),
{
    let first = syscalls::allow(CONSOLE_DRIVER, CONSOLE_WRITE, text_addr, string.len());
    let second = syscalls::subscribe(CONSOLE_DRIVER, CONSOLE_WRITE, write_done, boxed);
    (first, second)
}

/// Writes an already formatted text with two traps (see `puts_old`).
pub fn print_old(text: &str, text_addr: usize, write_done: usize, boxed: usize) -> (s: (Syscall, Syscall))
    ensures
        s.0 == (Syscall::Allow {
            driver: CONSOLE_DRIVER, allownum: CONSOLE_WRITE, ptr: text_addr, len: text.len(),
        }),
        s.1 == (Syscall::Subscribe { driver: CONSOLE_DRIVER, subnum: CONSOLE_WRITE, callback: write_done, appdata: boxed }),
{
    puts_old(text, text_addr, write_done, boxed)
}

/// Writes the byte `c`: command 1 of the console on `c`.
pub fn putc(c: u8) -> (s: Syscall)
    ensures
        s == (Syscall::Command { driver: CONSOLE_DRIVER, cmdnum: CONSOLE_WRITE, arg1: c as usize }),
{
    syscalls::command(CONSOLE_DRIVER, CONSOLE_WRITE, c as usize)
}

/// A read-line request in progress: the buffer has been offered to the
/// console, and `f` is to be subscribed if the console took it.
pub struct ReadLine {
    pub f: usize,
}

/// Starts reading a line into the `len` bytes at `buf`, with `f` to be
/// called when it has been read: first share the buffer with the console.
pub fn subscribe_read_line(buf: usize, len: usize, f: usize) -> (r: (Syscall, ReadLine))
    ensures
        r.0 == (Syscall::Allow { driver: CONSOLE_DRIVER, allownum: CONSOLE_WRITE, ptr: buf, len }),
        r.1.f == f,
{
    (syscalls::allow(CONSOLE_DRIVER, CONSOLE_WRITE, buf, len), ReadLine { f })
}

impl ReadLine {
    /// The console answered `res` to the sharing of the buffer. A negative
    /// answer is the final answer; otherwise subscribe `f` to the console's
    /// event 1, whose answer is the final one.
    pub fn after_allow(&self, res: isize) -> (r: Result<Syscall, isize>)
        ensures
            res < 0 ==> r == Err::<Syscall, isize>(res),
            res >= 0 ==> r == Ok::<Syscall, isize>(Syscall::Subscribe {
                driver: CONSOLE_DRIVER, subnum: CONSOLE_WRITE, callback: self.f, appdata: 0,
            }),
    {
        if res < 0 {
            Err(res)
        } else {
            Ok(syscalls::subscribe(CONSOLE_DRIVER, CONSOLE_WRITE, self.f, 0))
        }
    }
}

/// Law: writing in one trap asks the console for the same driver calls, in
/// the same order, as the two traps of the older path: share the text (when
/// it lies in the process's exposed memory), then subscribe the completion
/// upcall. Only the number of traps differs.
pub proof fn lemma_fast_print_matches_two_traps(p: Process, appid: AppId, a: usize, b: usize, done: usize, boxed: usize)
    requires
        exposed(p, a, b),
    ensures
        ({
            let one = (Syscall::FastPrintAsync { ptr: a, len: b, callback: done, appdata: boxed }).trap();
            let share = (Syscall::Allow { driver: CONSOLE_DRIVER, allownum: CONSOLE_WRITE, ptr: a, len: b }).trap();
            let sub = (Syscall::Subscribe { driver: CONSOLE_DRIVER, subnum: CONSOLE_WRITE, callback: done, appdata: boxed }).trap();
            match (outcome(p, appid, Some(share.svc), share.regs), outcome(p, appid, Some(sub.svc), sub.regs)) {
                (Outcome::Calls(x), Outcome::Calls(y)) => outcome(p, appid, Some(one.svc), one.regs) == Outcome::Calls(x + y),
                _ => false,
            }
        }),
{
    let share = (Syscall::Allow { driver: CONSOLE_DRIVER, allownum: CONSOLE_WRITE, ptr: a, len: b }).trap();
    let sub = (Syscall::Subscribe { driver: CONSOLE_DRIVER, subnum: CONSOLE_WRITE, callback: done, appdata: boxed }).trap();
    match (outcome(p, appid, Some(share.svc), share.regs), outcome(p, appid, Some(sub.svc), sub.regs)) {
        (Outcome::Calls(x), Outcome::Calls(y)) => {
            assert(x + y =~= seq![x[0], y[0]]);
        },
        _ => {},
    }
}

} // verus!
