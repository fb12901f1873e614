//! The GPIO driver: processes drive and read the board's pins by index.
//! Each operation checks the index against the number of pins, answers as
//! the system-call interface expects (0 done, -1 no such pin), and returns
//! the pin operations for the platform layer to perform.
use vstd::prelude::*;
use crate::process::{upcall_of, AppId, Callback, Process, Upcall};
use crate::sched::{outcome, DriverCall, Outcome};
use crate::syscall::Syscall;

verus! {

/// Pull resistor of a pin used as an input.
#[derive(Clone, Copy, PartialEq, Eq, Structural, Debug)]
pub enum InputMode {
    PullUp,
    PullDown,
    PullNone,
}

/// Which edges of an input raise an interrupt.
#[derive(Clone, Copy, PartialEq, Eq, Structural, Debug)]
pub enum InterruptMode {
    Change,
    RisingEdge,
    FallingEdge,
}

/// An operation on one pin.
#[derive(Clone, Copy, PartialEq, Eq, Structural, Debug)]
pub enum PinOp {
    EnableOutput,
    SetHigh,
    SetLow,
    Toggle,
    EnableInput(InputMode),
    /// Raise interrupts on `mode` edges, reported with the identifier `ident`.
    EnableInterrupt { ident: usize, mode: InterruptMode },
    DisableInterrupt,
    Disable,
}

/// Operation `op` on the pin with index `pin`.
#[derive(Clone, Copy, PartialEq, Eq, Structural, Debug)]
pub struct PinRequest {
    pub pin: usize,
    pub op: PinOp,
}

/// The GPIO driver over `num_pins` pins, indexed from 0.
pub struct TypedGPIO {
    pub num_pins: usize,
    /// The upcall of the process that subscribed to pin interrupts.
    pub callback: Option<Callback>,
}

/// The answer and the pin operations of an operation on pin `index` that,
/// when the pin exists, performs `ops` on it in order.
pub open spec fn checked(num_pins: usize, index: usize, ops: Seq<PinOp>) -> (isize, Seq<PinRequest>) {
    if index >= num_pins {
        (-1isize, Seq::empty())
    } else {
        (0isize, Seq::new(ops.len(), |i: int| PinRequest { pin: index, op: ops[i] }))
    }
}

/// What command `cmdnum` with argument `arg` of the GPIO driver does:
/// 0 makes pin `arg` an output, 1 drives it high, 2 low, 3 inverts it; any
/// other command is refused with -1.
pub open spec fn command_spec(num_pins: usize, cmdnum: usize, arg: usize) -> (isize, Seq<PinRequest>) {
    if cmdnum == 0 {
        checked(num_pins, arg, seq![PinOp::EnableOutput])
    } else if cmdnum == 1 {
        checked(num_pins, arg, seq![PinOp::SetHigh])
    } else if cmdnum == 2 {
        checked(num_pins, arg, seq![PinOp::SetLow])
    } else if cmdnum == 3 {
        checked(num_pins, arg, seq![PinOp::Toggle])
    } else {
        (-1isize, Seq::empty())
    }
}

impl TypedGPIO {
    /// A driver over `num_pins` pins, with no process subscribed.
    pub fn new(num_pins: usize) -> (g: TypedGPIO)
        ensures
            g.num_pins == num_pins,
            g.callback is None,
    {
        TypedGPIO { num_pins, callback: None }
    }

    /// Performs `op` on pin `index` if it exists.
    fn one_op(&self, index: usize, op: PinOp) -> (r: (isize, Vec<PinRequest>))
        ensures
            (r.0, r.1@) == checked(self.num_pins, index, seq![op]),
    {
        let mut v: Vec<PinRequest> = Vec::new();
        if index >= self.num_pins {
            assert(v@ =~= Seq::<PinRequest>::empty());
            (-1, v)
        } else {
            v.push(PinRequest { pin: index, op });
            assert(v@ =~= Seq::new(seq![op].len(), |i: int| PinRequest { pin: index, op: seq![op][i] }));
            (0, v)
        }
    }

    /// Makes pin `pin_num`, which must exist, an input with pull `config`.
    fn configure_input_pin(&self, pin_num: usize, config: InputMode) -> (r: (isize, Vec<PinRequest>))
        requires
            pin_num < self.num_pins,
        ensures
            r.0 == 0,
            r.1@ == seq![PinRequest { pin: pin_num, op: PinOp::EnableInput(config) }],
    {
        let mut v: Vec<PinRequest> = Vec::new();
        v.push(PinRequest { pin: pin_num, op: PinOp::EnableInput(config) });
        (0, v)
    }

    /// Makes pin `pin_num`, which must exist, raise interrupts on `config`
    /// edges, reported with its own index.
    pub fn configure_interrupt(&self, pin_num: usize, config: InterruptMode) -> (r: (isize, Vec<PinRequest>))
        requires
            pin_num < self.num_pins,
        ensures
            r.0 == 0,
            r.1@ == seq![PinRequest { pin: pin_num, op: PinOp::EnableInterrupt { ident: pin_num, mode: config } }],
    {
        let mut v: Vec<PinRequest> = Vec::new();
        v.push(PinRequest { pin: pin_num, op: PinOp::EnableInterrupt { ident: pin_num, mode: config } });
        (0, v)
    }

    /// Registers the upcall for pin interrupts, replacing any earlier one.
    pub fn subscribe(&mut self, callback: Callback) -> (r: isize)
        ensures
            r == 0,
            final(self).callback == Some(callback),
            final(self).num_pins == old(self).num_pins,
    {
        self.callback = Some(callback);
        0
    }

    /// Makes pin `index` an output.
    pub fn enable_output(&self, index: usize) -> (r: (isize, Vec<PinRequest>))
        ensures
            (r.0, r.1@) == checked(self.num_pins, index, seq![PinOp::EnableOutput]),
    {
        self.one_op(index, PinOp::EnableOutput)
    }

    /// Drives pin `index` high.
    pub fn set_pin(&self, index: usize) -> (r: (isize, Vec<PinRequest>))
        ensures
            (r.0, r.1@) == checked(self.num_pins, index, seq![PinOp::SetHigh]),
    {
        self.one_op(index, PinOp::SetHigh)
    }

    /// Drives pin `index` low.
    pub fn clear_pin(&self, index: usize) -> (r: (isize, Vec<PinRequest>))
        ensures
            (r.0, r.1@) == checked(self.num_pins, index, seq![PinOp::SetLow]),
    {
        self.one_op(index, PinOp::SetLow)
    }

    /// Inverts pin `index`.
    pub fn toggle_pin(&self, index: usize) -> (r: (isize, Vec<PinRequest>))
        ensures
            (r.0, r.1@) == checked(self.num_pins, index, seq![PinOp::Toggle]),
    {
        self.one_op(index, PinOp::Toggle)
    }

    /// Makes pin `index` an input with pull `pin_config`.
    pub fn enable_input(&self, index: usize, pin_config: InputMode) -> (r: (isize, Vec<PinRequest>))
        ensures
            (r.0, r.1@) == checked(self.num_pins, index, seq![PinOp::EnableInput(pin_config)]),
    {
        if index >= self.num_pins {
            let v: Vec<PinRequest> = Vec::new();
            assert(v@ =~= Seq::<PinRequest>::empty());
            (-1, v)
        } else {
            let r = self.configure_input_pin(index, pin_config);
            assert(r.1@ =~= Seq::new(seq![PinOp::EnableInput(pin_config)].len(),
                |i: int| PinRequest { pin: index, op: seq![PinOp::EnableInput(pin_config)][i] }));
            r
        }
    }

    /// The pin to read for `read_input(index)`, or the answer -1 when pin
    /// `index` does not exist. The level read is answered through
    /// `pin_state_code`.
    pub fn read_input(&self, index: usize) -> (r: Result<usize, isize>)
        ensures
            index >= self.num_pins ==> r == Err::<usize, isize>(-1isize),
            index < self.num_pins ==> r == Ok::<usize, isize>(index),
    {
        if index >= self.num_pins {
            Err(-1)
        } else {
            Ok(index)
        }
    }

    /// Makes pin `index` an input with pull `pin_config` that raises
    /// interrupts on `irq_config` edges.
    pub fn enable_interrupt(&self, index: usize, pin_config: InputMode, irq_config: InterruptMode) -> (r: (isize, Vec<PinRequest>))
        ensures
            (r.0, r.1@) == checked(self.num_pins, index, seq![
                PinOp::EnableInput(pin_config),
                PinOp::EnableInterrupt { ident: index, mode: irq_config },
            ]),
    {
        if index >= self.num_pins {
            let v: Vec<PinRequest> = Vec::new();
            assert(v@ =~= Seq::<PinRequest>::empty());
            (-1, v)
        } else {
            let (mut err_code, mut v) = self.configure_input_pin(index, pin_config);
            if err_code == 0 {
                let (code, w) = self.configure_interrupt(index, irq_config);
                err_code = code;
                v.push(w[0]);
            }
            let ghost ops = seq![
                PinOp::EnableInput(pin_config),
                PinOp::EnableInterrupt { ident: index, mode: irq_config },
            ];
            assert(v@ =~= Seq::new(ops.len(), |i: int| PinRequest { pin: index, op: ops[i] }));
            (err_code, v)
        }
    }

    /// Stops interrupts on pin `index`, then disables it.
    pub fn disable_interrupts(&self, index: usize) -> (r: (isize, Vec<PinRequest>))
        ensures
            (r.0, r.1@) == checked(self.num_pins, index, seq![PinOp::DisableInterrupt, PinOp::Disable]),
    {
        let mut v: Vec<PinRequest> = Vec::new();
        if index >= self.num_pins {
            assert(v@ =~= Seq::<PinRequest>::empty());
            (-1, v)
        } else {
            v.push(PinRequest { pin: index, op: PinOp::DisableInterrupt });
            v.push(PinRequest { pin: index, op: PinOp::Disable });
            let ghost ops = seq![PinOp::DisableInterrupt, PinOp::Disable];
            assert(v@ =~= Seq::new(ops.len(), |i: int| PinRequest { pin: index, op: ops[i] }));
            (0, v)
        }
    }

    /// Disables pin `index`.
    pub fn disable(&self, index: usize) -> (r: (isize, Vec<PinRequest>))
        ensures
            (r.0, r.1@) == checked(self.num_pins, index, seq![PinOp::Disable]),
    {
        self.one_op(index, PinOp::Disable)
    }

    /// Command `cmdnum` with argument `arg`, as processes issue it through
    /// the `COMMAND` system call: 0 `enable_output`, 1 `set_pin`,
    /// 2 `clear_pin`, 3 `toggle_pin`, each on pin `arg`; any other command
    /// is answered -1.
    pub fn command(&self, cmdnum: usize, arg: usize) -> (r: (isize, Vec<PinRequest>))
        ensures
            (r.0, r.1@) == command_spec(self.num_pins, cmdnum, arg),
    {
        if cmdnum == 0 {
            self.enable_output(arg)
        } else if cmdnum == 1 {
            self.set_pin(arg)
        } else if cmdnum == 2 {
            self.clear_pin(arg)
        } else if cmdnum == 3 {
            self.toggle_pin(arg)
        } else {
            let v: Vec<PinRequest> = Vec::new();
            assert(v@ =~= Seq::<PinRequest>::empty());
            (-1, v)
        }
    }

    /// Pin `pin_num`, which must exist, raised an interrupt and now reads
    /// `pin_state`: the subscribed upcall, if any, is scheduled with the pin
    /// index and its level (1 high, 0 low).
    pub fn fired(&self, pin_num: usize, pin_state: bool) -> (r: Option<Upcall>)
        requires
            pin_num < self.num_pins,
        ensures
            r == (match self.callback {
                Some(c) => Some(upcall_of(c, pin_num, if pin_state { 1usize } else { 0usize }, 0)),
                None => None,
            }),
    {
        match self.callback {
            Some(c) => Some(c.schedule(pin_num, if pin_state { 1 } else { 0 }, 0)),
            None => None,
        }
    }
}

/// The answer to `read_input` for a pin that reads `pin_state`: 1 for high,
/// 0 for low.
pub fn pin_state_code(pin_state: bool) -> (r: isize)
    ensures
        r == (if pin_state { 1isize } else { 0isize }),
{
    if pin_state { 1 } else { 0 }
}

/// Turns the board's LED (pin 0) on: makes the pin an output, then drives
/// it high; nothing when the board has no pins.
pub fn set_led(gpio: &TypedGPIO) -> (reqs: Vec<PinRequest>)
    ensures
        reqs@ == checked(gpio.num_pins, 0, seq![PinOp::EnableOutput]).1 + checked(gpio.num_pins, 0, seq![PinOp::SetHigh]).1,
{
    let (_, mut reqs) = gpio.enable_output(0);
    let (_, mut more) = gpio.set_pin(0);
    reqs.append(&mut more);
    reqs
}

/// Law: a process that calls `enable_and_set(pin)` on an existing pin gets
/// that pin made an output and then driven high by the GPIO driver
/// (driver 1), and the answer 0: the kernel asks the driver for commands 0
/// and 1 on the pin, and the driver turns them into exactly those two pin
/// operations. On a pin that does not exist, both commands are refused with
/// -1 and no pin is touched.
pub proof fn lemma_enable_and_set_drives_pin(p: Process, appid: AppId, num_pins: usize, pin: usize)
    ensures
        ({
            let t = (Syscall::EnableAndSet { driver: 1, first: 0, second: 1, arg: pin }).trap();
            outcome(p, appid, Some(t.svc), t.regs) == Outcome::Calls(seq![
                DriverCall::Command { driver: 1, cmdnum: 0, arg: pin },
                DriverCall::Command { driver: 1, cmdnum: 1, arg: pin },
            ])
        }),
        pin < num_pins ==> command_spec(num_pins, 0, pin).1 + command_spec(num_pins, 1, pin).1 == seq![
            PinRequest { pin, op: PinOp::EnableOutput },
            PinRequest { pin, op: PinOp::SetHigh },
        ] && command_spec(num_pins, 1, pin).0 == 0,
        pin >= num_pins ==> command_spec(num_pins, 0, pin) == (-1isize, Seq::<PinRequest>::empty())
            && command_spec(num_pins, 1, pin) == (-1isize, Seq::<PinRequest>::empty()),
{
    if pin < num_pins {
        assert(command_spec(num_pins, 0, pin).1 =~= seq![PinRequest { pin, op: PinOp::EnableOutput }]);
        assert(command_spec(num_pins, 1, pin).1 =~= seq![PinRequest { pin, op: PinOp::SetHigh }]);
        assert(command_spec(num_pins, 0, pin).1 + command_spec(num_pins, 1, pin).1 =~= seq![
            PinRequest { pin, op: PinOp::EnableOutput },
            PinRequest { pin, op: PinOp::SetHigh },
        ]);
    }
}

/// The pin operation command `cmdnum` (0 to 3) asks for.
pub open spec fn command_op(cmdnum: usize) -> PinOp {
    if cmdnum == 0 {
        PinOp::EnableOutput
    } else if cmdnum == 1 {
        PinOp::SetHigh
    } else if cmdnum == 2 {
        PinOp::SetLow
    } else {
        PinOp::Toggle
    }
}

/// Law: an operation on pin `index` is refused with -1, touching no pin,
/// exactly when the pin does not exist; on an existing pin it answers 0 and
/// performs its operations, in order, on that pin and no other.
pub proof fn lemma_checked_refuses_missing_pins(num_pins: usize, index: usize, ops: Seq<PinOp>)
    ensures
        index >= num_pins ==> checked(num_pins, index, ops).0 == -1 && checked(num_pins, index, ops).1.len() == 0,
        index < num_pins ==> checked(num_pins, index, ops).0 == 0 && checked(num_pins, index, ops).1.len() == ops.len(),
        index < num_pins ==> forall|i: int| 0 <= i < ops.len() ==>
            (#[trigger] checked(num_pins, index, ops).1[i]).pin == index && checked(num_pins, index, ops).1[i].op == ops[i],
{
}

/// Law: every GPIO command on a pin that does not exist, and every command
/// other than 0 to 3, is refused with -1 and touches no pin. Commands 0, 1,
/// 2, 3 on an existing pin answer 0 and perform exactly one operation on
/// that pin: make it an output, drive it high, drive it low, invert it.
pub proof fn lemma_command_answers(num_pins: usize, cmdnum: usize, arg: usize)
    ensures
        arg >= num_pins || cmdnum > 3 ==> command_spec(num_pins, cmdnum, arg).0 == -1
            && command_spec(num_pins, cmdnum, arg).1.len() == 0,
        arg < num_pins && cmdnum <= 3 ==> command_spec(num_pins, cmdnum, arg).0 == 0
            && command_spec(num_pins, cmdnum, arg).1 == seq![PinRequest { pin: arg, op: command_op(cmdnum) }],
        command_op(0) == PinOp::EnableOutput,
        command_op(1) == PinOp::SetHigh,
        command_op(2) == PinOp::SetLow,
        command_op(3) == PinOp::Toggle,
{
    if arg < num_pins && cmdnum <= 3 {
        let ops = seq![command_op(cmdnum)];
        assert(command_spec(num_pins, cmdnum, arg).1 =~= seq![PinRequest { pin: arg, op: command_op(cmdnum) }]);
    }
}

} // verus!
