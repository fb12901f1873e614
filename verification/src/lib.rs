//! A verified model of a small Tock-style embedded kernel: the system-call
//! interface seen from applications, the kernel's system-call dispatch and
//! scheduling decisions, per-process callback queues, and the timer, GPIO,
//! DMA and MPU drivers.
//!
//! Hardware access (registers, context switches, interrupts) stays outside
//! this crate: every function here decides what is to be done and returns it
//! as plain values, which a thin platform layer performs.

pub mod mpu;
pub mod queue;
pub mod process;
pub mod syscall;
pub mod syscalls;
pub mod sched;
pub mod timer;
pub mod gpio;
pub mod dma;
pub mod console;
pub mod hil;
