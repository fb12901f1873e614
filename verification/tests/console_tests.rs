use tock::console::{print_async, print_old, putc, puts, puts_old, puts_wrapper, subscribe_read_line, WRITE_DONE_TOKEN};
use tock::syscall::Syscall;

#[test]
fn one_trap_write() {
    let s = puts_wrapper("Hello", 0x2000, 0x300, 0x400);
    assert_eq!(s, Syscall::FastPrintAsync { ptr: 0x2000, len: 5, callback: 0x300, appdata: 0x400 });
    assert_eq!(s, puts(0x2000, 5, 0x300, 0x400));
    assert_eq!(print_async("héllo\r\n", 0x10, 1, 2),
        Syscall::FastPrintAsync { ptr: 0x10, len: 8, callback: 1, appdata: 2 });
}

#[test]
fn two_trap_write() {
    let (a, b) = puts_old("Hello", 0x2000, 0x300, 0x400);
    assert_eq!(a, Syscall::Allow { driver: 0, allownum: 1, ptr: 0x2000, len: 5 });
    assert_eq!(b, Syscall::Subscribe { driver: 0, subnum: 1, callback: 0x300, appdata: 0x400 });
    assert_eq!(print_old("", 7, 8, 9).0, Syscall::Allow { driver: 0, allownum: 1, ptr: 7, len: 0 });
}

#[test]
fn putc_is_console_command() {
    assert_eq!(putc(b'A'), Syscall::Command { driver: 0, cmdnum: 1, arg1: 65 });
}

#[test]
fn read_line_stops_on_refusal() {
    let (first, rl) = subscribe_read_line(0x3000, 64, 0x99);
    assert_eq!(first, Syscall::Allow { driver: 0, allownum: 1, ptr: 0x3000, len: 64 });
    assert_eq!(rl.after_allow(-1), Err(-1));
    assert_eq!(rl.after_allow(0), Ok(Syscall::Subscribe { driver: 0, subnum: 1, callback: 0x99, appdata: 0 }));
    assert_eq!(WRITE_DONE_TOKEN, 0xbeef);
}
