# tock

A verified model of a small Tock-style embedded kernel for the SAM4L
(Firestorm board), written in Verus.

- `src/` is the library. Every function decides what is to be done and
  returns it as plain values (system-call requests, driver calls, pin
  operations, register writes, alarm settings); each carries a contract
  proved by Verus, and the laws that span several functions are proof
  functions beside them.
- `tests/` exercises the library on concrete values.
- `app/` is the board program: the kernel loop, interrupt handlers and the
  process runtime. It performs what the library decides, through the
  board's trapping stubs, context switch and peripheral entry points.

Modules: `syscall`/`syscalls` (the system-call interface), `sched` (what the
kernel runs next and how it answers a trap), `process` and `queue`
(processes and their pending upcalls), `console`, `gpio`, `timer`, `dma`,
`mpu`, `hil`.
