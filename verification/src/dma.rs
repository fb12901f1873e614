//! The SAM4L peripheral DMA controller (PDCA): sixteen channels, each moving
//! data between a memory buffer and one peripheral function. The functions
//! here decide the register writes, clock and interrupt-controller changes a
//! channel operation needs; the platform layer performs them.
use vstd::prelude::*;
use crate::queue::RingBuffer;

verus! {

/// Address of the registers of channel 0.
pub const DMA_BASE_ADDR: usize = 0x400A2000;

/// Bytes between the register blocks of consecutive channels.
pub const DMA_CHANNEL_SIZE: usize = 0x40;

/// Offsets of a channel's registers from the start of its block (one
/// 32-bit word each).
pub const MEMORY_ADDRESS: usize = 0x00;
pub const PERIPHERAL_SELECT: usize = 0x04;
pub const TRANSFER_COUNTER: usize = 0x08;
pub const MEMORY_ADDRESS_RELOAD: usize = 0x0C;
pub const TRANSFER_COUNTER_RELOAD: usize = 0x10;
pub const CONTROL: usize = 0x14;
pub const MODE: usize = 0x18;
pub const STATUS: usize = 0x1C;
pub const INTERRUPT_ENABLE: usize = 0x20;
pub const INTERRUPT_DISABLE: usize = 0x24;
pub const INTERRUPT_MASK: usize = 0x28;
pub const INTERRUPT_STATUS: usize = 0x2C;
pub const VERSION: usize = 0x30;

/// Value written to a channel's interrupt-disable register to mask all of
/// its interrupts.
pub const ALL_INTERRUPTS: usize = 0xffffffff;

/// One of the sixteen channels.
#[derive(Clone, Copy, PartialEq, Eq, Structural, Debug)]
pub enum DMAChannelNum {
    DMAChannel00,
    DMAChannel01,
    DMAChannel02,
    DMAChannel03,
    DMAChannel04,
    DMAChannel05,
    DMAChannel06,
    DMAChannel07,
    DMAChannel08,
    DMAChannel09,
    DMAChannel10,
    DMAChannel11,
    DMAChannel12,
    DMAChannel13,
    DMAChannel14,
    DMAChannel15,
}

/// Index of channel `c`, from 0 to 15.
pub open spec fn channel_index(c: DMAChannelNum) -> usize {
    match c {
            DMAChannelNum::DMAChannel00 => 0usize,
            DMAChannelNum::DMAChannel01 => 1usize,
            DMAChannelNum::DMAChannel02 => 2usize,
            DMAChannelNum::DMAChannel03 => 3usize,
            DMAChannelNum::DMAChannel04 => 4usize,
            DMAChannelNum::DMAChannel05 => 5usize,
            DMAChannelNum::DMAChannel06 => 6usize,
            DMAChannelNum::DMAChannel07 => 7usize,
            DMAChannelNum::DMAChannel08 => 8usize,
            DMAChannelNum::DMAChannel09 => 9usize,
            DMAChannelNum::DMAChannel10 => 10usize,
            DMAChannelNum::DMAChannel11 => 11usize,
            DMAChannelNum::DMAChannel12 => 12usize,
            DMAChannelNum::DMAChannel13 => 13usize,
            DMAChannelNum::DMAChannel14 => 14usize,
            DMAChannelNum::DMAChannel15 => 15usize,
    }
}

impl DMAChannelNum {
    /// Index of the channel, from 0 to 15.
    pub fn index(&self) -> (i: usize)
        ensures
            i == channel_index(*self),
            i < 16,
    {
        match *self {
            DMAChannelNum::DMAChannel00 => 0,
            DMAChannelNum::DMAChannel01 => 1,
            DMAChannelNum::DMAChannel02 => 2,
            DMAChannelNum::DMAChannel03 => 3,
            DMAChannelNum::DMAChannel04 => 4,
            DMAChannelNum::DMAChannel05 => 5,
            DMAChannelNum::DMAChannel06 => 6,
            DMAChannelNum::DMAChannel07 => 7,
            DMAChannelNum::DMAChannel08 => 8,
            DMAChannelNum::DMAChannel09 => 9,
            DMAChannelNum::DMAChannel10 => 10,
            DMAChannelNum::DMAChannel11 => 11,
            DMAChannelNum::DMAChannel12 => 12,
            DMAChannelNum::DMAChannel13 => 13,
            DMAChannelNum::DMAChannel14 => 14,
            DMAChannelNum::DMAChannel15 => 15,
        }
    }
}

/// The peripheral function a channel serves; `_RX` moves data from the
/// peripheral to memory, `_TX` from memory to the peripheral.
#[allow(non_camel_case_types)]
#[derive(Clone, Copy, PartialEq, Eq, Structural, Debug)]
pub enum DMAPeripheral {
    USART0_RX,
    USART1_RX,
    USART2_RX,
    USART3_RX,
    SPI_RX,
    TWIM0_RX,
    TWIM1_RX,
    TWIM2_RX,
    TWIM3_RX,
    TWIS0_RX,
    TWIS1_RX,
    ADCIFE_RX,
    CATB_RX,
    IISC_CH0_RX,
    IISC_CH1_RX,
    PARC_RX,
    AESA_RX,
    USART0_TX,
    USART1_TX,
    USART2_TX,
    USART3_TX,
    SPI_TX,
    TWIM0_TX,
    TWIM1_TX,
    TWIM2_TX,
    TWIM3_TX,
    TWIS0_TX,
    TWIS1_TX,
    ADCIFE_TX,
    CATB_TX,
    ABDACB_SDR0_TX,
    ABDACB_SDR1_TX,
    IISC_CH0_TX,
    IISC_CH1_TX,
    DACC_TX,
    AESA_TX,
    LCDCA_ACMDR_TX,
    LCDCA_ABMDR_TX,
}

/// The value that selects peripheral function `p` in a channel's
/// peripheral-select register.
pub open spec fn peripheral_id(p: DMAPeripheral) -> usize {
    match p {
            DMAPeripheral::USART0_RX => 0usize,
            DMAPeripheral::USART1_RX => 1usize,
            DMAPeripheral::USART2_RX => 2usize,
            DMAPeripheral::USART3_RX => 3usize,
            DMAPeripheral::SPI_RX => 4usize,
            DMAPeripheral::TWIM0_RX => 5usize,
            DMAPeripheral::TWIM1_RX => 6usize,
            DMAPeripheral::TWIM2_RX => 7usize,
            DMAPeripheral::TWIM3_RX => 8usize,
            DMAPeripheral::TWIS0_RX => 9usize,
            DMAPeripheral::TWIS1_RX => 10usize,
            DMAPeripheral::ADCIFE_RX => 11usize,
            DMAPeripheral::CATB_RX => 12usize,
            DMAPeripheral::IISC_CH0_RX => 14usize,
            DMAPeripheral::IISC_CH1_RX => 15usize,
            DMAPeripheral::PARC_RX => 16usize,
            DMAPeripheral::AESA_RX => 17usize,
            DMAPeripheral::USART0_TX => 18usize,
            DMAPeripheral::USART1_TX => 19usize,
            DMAPeripheral::USART2_TX => 20usize,
            DMAPeripheral::USART3_TX => 21usize,
            DMAPeripheral::SPI_TX => 22usize,
            DMAPeripheral::TWIM0_TX => 23usize,
            DMAPeripheral::TWIM1_TX => 24usize,
            DMAPeripheral::TWIM2_TX => 25usize,
            DMAPeripheral::TWIM3_TX => 26usize,
            DMAPeripheral::TWIS0_TX => 27usize,
            DMAPeripheral::TWIS1_TX => 28usize,
            DMAPeripheral::ADCIFE_TX => 29usize,
            DMAPeripheral::CATB_TX => 30usize,
            DMAPeripheral::ABDACB_SDR0_TX => 31usize,
            DMAPeripheral::ABDACB_SDR1_TX => 32usize,
            DMAPeripheral::IISC_CH0_TX => 33usize,
            DMAPeripheral::IISC_CH1_TX => 34usize,
            DMAPeripheral::DACC_TX => 35usize,
            DMAPeripheral::AESA_TX => 36usize,
            DMAPeripheral::LCDCA_ACMDR_TX => 37usize,
            DMAPeripheral::LCDCA_ABMDR_TX => 38usize,
    }
}

impl DMAPeripheral {
    /// The value that selects this function in the peripheral-select
    /// register.
    pub fn id(&self) -> (v: usize)
        ensures
            v == peripheral_id(*self),
    {
        match *self {
            DMAPeripheral::USART0_RX => 0,
            DMAPeripheral::USART1_RX => 1,
            DMAPeripheral::USART2_RX => 2,
            DMAPeripheral::USART3_RX => 3,
            DMAPeripheral::SPI_RX => 4,
            DMAPeripheral::TWIM0_RX => 5,
            DMAPeripheral::TWIM1_RX => 6,
            DMAPeripheral::TWIM2_RX => 7,
            DMAPeripheral::TWIM3_RX => 8,
            DMAPeripheral::TWIS0_RX => 9,
            DMAPeripheral::TWIS1_RX => 10,
            DMAPeripheral::ADCIFE_RX => 11,
            DMAPeripheral::CATB_RX => 12,
            DMAPeripheral::IISC_CH0_RX => 14,
            DMAPeripheral::IISC_CH1_RX => 15,
            DMAPeripheral::PARC_RX => 16,
            DMAPeripheral::AESA_RX => 17,
            DMAPeripheral::USART0_TX => 18,
            DMAPeripheral::USART1_TX => 19,
            DMAPeripheral::USART2_TX => 20,
            DMAPeripheral::USART3_TX => 21,
            DMAPeripheral::SPI_TX => 22,
            DMAPeripheral::TWIM0_TX => 23,
            DMAPeripheral::TWIM1_TX => 24,
            DMAPeripheral::TWIM2_TX => 25,
            DMAPeripheral::TWIM3_TX => 26,
            DMAPeripheral::TWIS0_TX => 27,
            DMAPeripheral::TWIS1_TX => 28,
            DMAPeripheral::ADCIFE_TX => 29,
            DMAPeripheral::CATB_TX => 30,
            DMAPeripheral::ABDACB_SDR0_TX => 31,
            DMAPeripheral::ABDACB_SDR1_TX => 32,
            DMAPeripheral::IISC_CH0_TX => 33,
            DMAPeripheral::IISC_CH1_TX => 34,
            DMAPeripheral::DACC_TX => 35,
            DMAPeripheral::AESA_TX => 36,
            DMAPeripheral::LCDCA_ACMDR_TX => 37,
            DMAPeripheral::LCDCA_ABMDR_TX => 38,
        }
    }
}

/// Interrupt lines of the interrupt controller.
#[derive(Clone, Copy, PartialEq, Eq, Structural, Debug)]
pub enum NvicIdx {
    /// The line of the PDCA channel.
    PDCA(DMAChannelNum),
}

/// Clocks of the power manager.
#[derive(Clone, Copy, PartialEq, Eq, Structural, Debug)]
pub enum Clock {
    /// The PDCA's clock on the high-speed bus.
    HsbPdca,
    /// The PDCA's clock on peripheral bus B.
    PbbPdca,
}

/// A hardware operation a channel operation needs.
#[derive(Clone, Copy, PartialEq, Eq, Structural, Debug)]
pub enum DmaOp {
    EnableClock(Clock),
    DisableClock(Clock),
    /// Store `value` into the register at `addr`.
    Write { addr: usize, value: usize },
    NvicEnable(NvicIdx),
    NvicDisable(NvicIdx),
}

/// Address of the register at `offset` in the block of channel `c`.
pub open spec fn register_of(c: DMAChannelNum, offset: usize) -> usize {
    (DMA_BASE_ADDR + channel_index(c) * DMA_CHANNEL_SIZE + offset) as usize
}

/// A client of a DMA channel, told when a transfer completes.
pub trait DMAClient {
    /// The transfer for the peripheral function with id `pid` completed.
    fn xfer_done(&mut self, pid: usize);
}

/// A DMA channel.
pub struct DMAChannel {
    pub channel: DMAChannelNum,
    pub nvic: NvicIdx,
    /// Whether a client wants to hear of completed transfers.
    pub has_client: bool,
    pub enabled: bool,
    /// The buffer of the transfer in progress, held until it is given back.
    pub buffer: Option<Vec<u8>>,
}

/// The writes `prepare_xfer(pid, buf, len)` makes on channel `c`, where
/// `buf` holds `buf_len` bytes at `buf_addr`: select the function, point the
/// reload address at the buffer, load the reload counter with the length
/// (cut down to the buffer's size), enable the transfer-complete interrupt.
pub open spec fn prepare_ops(c: DMAChannelNum, pid: DMAPeripheral, buf_addr: usize, buf_len: usize, len: usize) -> Seq<DmaOp> {
    seq![
        DmaOp::Write { addr: register_of(c, PERIPHERAL_SELECT), value: peripheral_id(pid) },
        DmaOp::Write { addr: register_of(c, MEMORY_ADDRESS_RELOAD), value: buf_addr },
        DmaOp::Write { addr: register_of(c, TRANSFER_COUNTER_RELOAD), value: if len > buf_len { buf_len } else { len } },
        DmaOp::Write { addr: register_of(c, INTERRUPT_ENABLE), value: 2 },
    ]
}

/// Channel `c` after a transfer on `buf` has been prepared: it keeps `buf`.
pub open spec fn prepared(c: DMAChannel, buf: Vec<u8>) -> DMAChannel {
    DMAChannel { buffer: Some(buf), ..c }
}

/// Channel `c` after an abort, and the buffer the abort gives back.
pub open spec fn aborted(c: DMAChannel) -> (DMAChannel, Option<Vec<u8>>) {
    (DMAChannel { buffer: None, ..c }, c.buffer)
}

impl DMAChannel {
    /// Channel `channel`, wired to interrupt line `nvic`: disabled, with no
    /// client and no buffer.
    pub fn new(channel: DMAChannelNum, nvic: NvicIdx) -> (d: DMAChannel)
        ensures
            d.channel == channel,
            d.nvic == nvic,
            !d.has_client,
            !d.enabled,
            d.buffer is None,
    {
        DMAChannel { channel, nvic, has_client: false, enabled: false, buffer: None }
    }

    /// Address of this channel's register at `offset`.
    pub fn register(&self, offset: usize) -> (addr: usize)
        requires
            offset < DMA_CHANNEL_SIZE,
        ensures
            addr == register_of(self.channel, offset),
    {
        let i = self.channel.index();
        DMA_BASE_ADDR + i * DMA_CHANNEL_SIZE + offset
    }

    /// The transfer on this channel completed; `peripheral_select` is the
    /// value read from its peripheral-select register. Returns the value to
    /// hand to the client, if there is one.
    pub fn handle_interrupt(&self, peripheral_select: usize) -> (r: Option<usize>)
        ensures
            r == (if self.has_client { Some(peripheral_select) } else { None }),
    {
        if self.has_client { Some(peripheral_select) } else { None }
    }

    /// Starts the prepared transfer: writes 1 to the control register.
    pub fn start_xfer(&self) -> (op: DmaOp)
        ensures
            op == (DmaOp::Write { addr: register_of(self.channel, CONTROL), value: 1 }),
    {
        DmaOp::Write { addr: self.register(CONTROL), value: 1 }
    }

    /// Prepares a transfer of `len` bytes (at most the buffer's size)
    /// between `buf`, found at address `buf_addr`, and peripheral function
    /// `pid`, and keeps `buf` until the transfer is aborted; a buffer kept
    /// from before is dropped.
    pub fn prepare_xfer(&mut self, pid: DMAPeripheral, buf: Vec<u8>, buf_addr: usize, len: usize) -> (ops: Vec<DmaOp>)
        requires
            buf.len() > 0,
        ensures
            ops@ == prepare_ops(old(self).channel, pid, buf_addr, buf.len(), len),
            *final(self) == prepared(*old(self), buf),
    {
        let ghost requested = len;
        let mut len = len;
        if len > buf.len() {
            len = buf.len();
        }
        let mut ops: Vec<DmaOp> = Vec::new();
        ops.push(DmaOp::Write { addr: self.register(PERIPHERAL_SELECT), value: pid.id() });
        ops.push(DmaOp::Write { addr: self.register(MEMORY_ADDRESS_RELOAD), value: buf_addr });
        ops.push(DmaOp::Write { addr: self.register(TRANSFER_COUNTER_RELOAD), value: len });
        let transfer_complete: usize = 1 << 1;
        assert(transfer_complete == 2) by (bit_vector)
            requires
                transfer_complete == 1usize << 1usize,
        ;
        ops.push(DmaOp::Write { addr: self.register(INTERRUPT_ENABLE), value: transfer_complete });
        self.buffer = Some(buf);
        assert(ops@ =~= prepare_ops(self.channel, pid, buf_addr, self.buffer->Some_0.len(), requested));
        ops
    }

    /// Prepares the transfer as `prepare_xfer` does, then starts it.
    pub fn do_xfer(&mut self, pid: DMAPeripheral, buf: Vec<u8>, buf_addr: usize, len: usize) -> (ops: Vec<DmaOp>)
        requires
            buf.len() > 0,
        ensures
            ops@ == prepare_ops(old(self).channel, pid, buf_addr, buf.len(), len)
                .push(DmaOp::Write { addr: register_of(old(self).channel, CONTROL), value: 1 }),
            *final(self) == prepared(*old(self), buf),
    {
        let mut ops = self.prepare_xfer(pid, buf, buf_addr, len);
        ops.push(self.start_xfer());
        ops
    }

    /// Aborts any transfer: masks the channel's interrupts, clears its
    /// transfer counter, and gives back the buffer it held, if any.
    pub fn abort_xfer(&mut self) -> (r: (Vec<DmaOp>, Option<Vec<u8>>))
        ensures
            r.0@ == seq![
                DmaOp::Write { addr: register_of(old(self).channel, INTERRUPT_DISABLE), value: usize::MAX },
                DmaOp::Write { addr: register_of(old(self).channel, TRANSFER_COUNTER), value: 0 },
            ],
            (*final(self), r.1) == aborted(*old(self)),
    {
        let mut ops: Vec<DmaOp> = Vec::new();
        ops.push(DmaOp::Write { addr: self.register(INTERRUPT_DISABLE), value: usize::MAX });
        ops.push(DmaOp::Write { addr: self.register(TRANSFER_COUNTER), value: 0 });
        let buf = self.buffer.take();
        (ops, buf)
    }
}

/// The channel with index `i`.
pub fn channel_from_index(i: usize) -> (c: DMAChannelNum)
    requires
        i < 16,
    ensures
        channel_index(c) == i,
{
    match i {
            0 => DMAChannelNum::DMAChannel00,
            1 => DMAChannelNum::DMAChannel01,
            2 => DMAChannelNum::DMAChannel02,
            3 => DMAChannelNum::DMAChannel03,
            4 => DMAChannelNum::DMAChannel04,
            5 => DMAChannelNum::DMAChannel05,
            6 => DMAChannelNum::DMAChannel06,
            7 => DMAChannelNum::DMAChannel07,
            8 => DMAChannelNum::DMAChannel08,
            9 => DMAChannelNum::DMAChannel09,
            10 => DMAChannelNum::DMAChannel10,
            11 => DMAChannelNum::DMAChannel11,
            12 => DMAChannelNum::DMAChannel12,
            13 => DMAChannelNum::DMAChannel13,
            14 => DMAChannelNum::DMAChannel14,
            _ => DMAChannelNum::DMAChannel15,
    }
}

/// What `enable` does on a channel of number `c` and interrupt line `nvic`
/// that is `enabled` or not, when `count` channels are enabled: turn on the
/// PDCA clocks; then, if the channel was off, turn them on again when
/// exactly one other channel was on, mask all of the channel's interrupts,
/// and enable its interrupt line.
pub open spec fn enable_ops(c: DMAChannelNum, nvic: NvicIdx, enabled: bool, count: usize) -> Seq<DmaOp> {
    let clocks = seq![DmaOp::EnableClock(Clock::HsbPdca), DmaOp::EnableClock(Clock::PbbPdca)];
    if enabled {
        clocks
    } else {
        clocks + (if count == 1 { clocks } else { Seq::empty() }) + seq![
            DmaOp::Write { addr: register_of(c, INTERRUPT_DISABLE), value: ALL_INTERRUPTS },
            DmaOp::NvicEnable(nvic),
        ]
    }
}

/// What `disable` does on such a channel: nothing if it is off; otherwise
/// turn off the PDCA clocks when it is the only channel on, write 2 to its
/// control register, and disable its interrupt line.
pub open spec fn disable_ops(c: DMAChannelNum, nvic: NvicIdx, enabled: bool, count: usize) -> Seq<DmaOp> {
    if !enabled {
        Seq::empty()
    } else {
        (if count == 1 {
            seq![DmaOp::DisableClock(Clock::HsbPdca), DmaOp::DisableClock(Clock::PbbPdca)]
        } else {
            Seq::empty()
        }) + seq![
            DmaOp::Write { addr: register_of(c, CONTROL), value: 2 },
            DmaOp::NvicDisable(nvic),
        ]
    }
}

impl DMAChannel {
    /// Enables the channel; `num_enabled` counts the enabled channels and
    /// goes up by one when this one was off.
    pub fn enable(&mut self, num_enabled: &mut usize) -> (ops: Vec<DmaOp>)
        ensures
            ops@ == enable_ops(old(self).channel, old(self).nvic, old(self).enabled, *old(num_enabled)),
            final(self).enabled,
            *final(num_enabled) == if old(self).enabled { *old(num_enabled) } else {
                vstd::wrapping::usize_specs::wrapping_add(*old(num_enabled), 1)
            },
            final(self).channel == old(self).channel,
            final(self).nvic == old(self).nvic,
            final(self).has_client == old(self).has_client,
            final(self).buffer == old(self).buffer,
    {
        let mut ops: Vec<DmaOp> = Vec::new();
        ops.push(DmaOp::EnableClock(Clock::HsbPdca));
        ops.push(DmaOp::EnableClock(Clock::PbbPdca));
        if !self.enabled {
            let count = *num_enabled;
            *num_enabled = count.wrapping_add(1);
            if count == 1 {
                ops.push(DmaOp::EnableClock(Clock::HsbPdca));
                ops.push(DmaOp::EnableClock(Clock::PbbPdca));
            }
            ops.push(DmaOp::Write { addr: self.register(INTERRUPT_DISABLE), value: ALL_INTERRUPTS });
            ops.push(DmaOp::NvicEnable(self.nvic));
            self.enabled = true;
            assert(ops@ =~= enable_ops(self.channel, self.nvic, false, count));
        } else {
            assert(ops@ =~= enable_ops(self.channel, self.nvic, true, *num_enabled));
        }
        ops
    }

    /// Disables the channel if it is on; `num_enabled` then goes down by
    /// one.
    pub fn disable(&mut self, num_enabled: &mut usize) -> (ops: Vec<DmaOp>)
        ensures
            ops@ == disable_ops(old(self).channel, old(self).nvic, old(self).enabled, *old(num_enabled)),
            !final(self).enabled,
            *final(num_enabled) == if old(self).enabled {
                vstd::wrapping::usize_specs::wrapping_sub(*old(num_enabled), 1)
            } else {
                *old(num_enabled)
            },
            final(self).channel == old(self).channel,
            final(self).nvic == old(self).nvic,
            final(self).has_client == old(self).has_client,
            final(self).buffer == old(self).buffer,
    {
        let mut ops: Vec<DmaOp> = Vec::new();
        if self.enabled {
            let count = *num_enabled;
            *num_enabled = count.wrapping_sub(1);
            if count == 1 {
                ops.push(DmaOp::DisableClock(Clock::HsbPdca));
                ops.push(DmaOp::DisableClock(Clock::PbbPdca));
            }
            ops.push(DmaOp::Write { addr: self.register(CONTROL), value: 0x2 });
            self.enabled = false;
            ops.push(DmaOp::NvicDisable(self.nvic));
            assert(ops@ =~= disable_ops(self.channel, self.nvic, true, count));
        } else {
            assert(ops@ =~= disable_ops(self.channel, self.nvic, false, *num_enabled));
        }
        ops
    }
}

/// Number of enabled channels in `s`.
pub open spec fn enabled_count(s: Seq<DMAChannel>) -> nat
    decreases s.len(),
{
    if s.len() == 0 {
        0
    } else {
        enabled_count(s.drop_last()) + if s.last().enabled { 1nat } else { 0nat }
    }
}

/// Replacing one channel changes the count only by that channel's flag.
pub proof fn lemma_count_update(s: Seq<DMAChannel>, i: int, c: DMAChannel)
    requires
        0 <= i < s.len(),
    ensures
        enabled_count(s.update(i, c)) + (if s[i].enabled { 1nat } else { 0nat })
            == enabled_count(s) + (if c.enabled { 1nat } else { 0nat }),
        enabled_count(s) <= s.len(),
    decreases s.len(),
{
    let t = s.update(i, c);
    if i == s.len() - 1 {
        assert(t.drop_last() =~= s.drop_last());
        lemma_count_bound(s);
    } else {
        assert(t.drop_last() =~= s.drop_last().update(i, c));
        lemma_count_update(s.drop_last(), i, c);
    }
}

/// At most every channel is enabled.
pub proof fn lemma_count_bound(s: Seq<DMAChannel>)
    ensures
        enabled_count(s) <= s.len(),
    decreases s.len(),
{
    if s.len() > 0 {
        lemma_count_bound(s.drop_last());
    }
}

/// The PDCA: its sixteen channels and the count of those enabled.
pub struct Pdca {
    pub channels: Vec<DMAChannel>,
    pub num_enabled: usize,
}

impl Pdca {
    /// The count of enabled channels is right, and channel `i` sits at
    /// index `i` with its own interrupt line.
    pub open spec fn wf(&self) -> bool {
        &&& self.channels.len() == 16
        &&& self.num_enabled == enabled_count(self.channels@)
        &&& forall|i: int| 0 <= i < 16 ==> channel_index(#[trigger] self.channels@[i].channel) == i
            && self.channels@[i].nvic == NvicIdx::PDCA(self.channels@[i].channel)
    }

    /// All sixteen channels, disabled, each wired to its own interrupt line.
    pub fn new() -> (p: Pdca)
        ensures
            p.wf(),
            p.num_enabled == 0,
            forall|i: int| 0 <= i < 16 ==> !(#[trigger] p.channels@[i]).enabled && p.channels@[i].buffer is None
                && !p.channels@[i].has_client,
    {
        let mut channels: Vec<DMAChannel> = Vec::new();
        let mut i: usize = 0;
        while i < 16
            invariant
                i <= 16,
                channels.len() == i,
                enabled_count(channels@) == 0,
                forall|j: int| #![trigger channels@[j]] 0 <= j < i ==> channel_index(channels@[j].channel) == j
                    && channels@[j].nvic == NvicIdx::PDCA(channels@[j].channel)
                    && !channels@[j].enabled && channels@[j].buffer is None && !channels@[j].has_client,
            decreases 16 - i,
        {
            let c = channel_from_index(i);
            let ghost before = channels@;
            channels.push(DMAChannel::new(c, NvicIdx::PDCA(c)));
            assert(channels@.drop_last() =~= before);
            i = i + 1;
        }
        Pdca { channels, num_enabled: 0 }
    }

    /// Enables channel `i` (see `DMAChannel::enable`).
    pub fn enable(&mut self, i: usize) -> (ops: Vec<DmaOp>)
        requires
            old(self).wf(),
            i < 16,
        ensures
            final(self).wf(),
            ops@ == enable_ops(old(self).channels@[i as int].channel, old(self).channels@[i as int].nvic,
                old(self).channels@[i as int].enabled, old(self).num_enabled),
            final(self).channels@ == old(self).channels@.update(i as int,
                DMAChannel { enabled: true, ..old(self).channels@[i as int] }),
    {
        let ghost old_channels = self.channels@;
        proof {
            lemma_count_update(old_channels, i as int, DMAChannel { enabled: true, ..old_channels[i as int] });
        }
        let mut count = self.num_enabled;
        let mut ch = self.channels.remove(i);
        let ops = ch.enable(&mut count);
        self.channels.insert(i, ch);
        self.num_enabled = count;
        assert(self.channels@ =~= old_channels.update(i as int, DMAChannel { enabled: true, ..old_channels[i as int] }));
        ops
    }

    /// Disables channel `i` (see `DMAChannel::disable`).
    pub fn disable(&mut self, i: usize) -> (ops: Vec<DmaOp>)
        requires
            old(self).wf(),
            i < 16,
        ensures
            final(self).wf(),
            ops@ == disable_ops(old(self).channels@[i as int].channel, old(self).channels@[i as int].nvic,
                old(self).channels@[i as int].enabled, old(self).num_enabled),
            final(self).channels@ == old(self).channels@.update(i as int,
                DMAChannel { enabled: false, ..old(self).channels@[i as int] }),
    {
        let ghost old_channels = self.channels@;
        proof {
            lemma_count_update(old_channels, i as int, DMAChannel { enabled: false, ..old_channels[i as int] });
        }
        let mut count = self.num_enabled;
        let mut ch = self.channels.remove(i);
        let ops = ch.disable(&mut count);
        self.channels.insert(i, ch);
        self.num_enabled = count;
        assert(self.channels@ =~= old_channels.update(i as int, DMAChannel { enabled: false, ..old_channels[i as int] }));
        ops
    }
}

/// Interrupt handler of channel `channel`: masks all of the channel's
/// interrupts, disables its interrupt line, and queues the line on
/// `pending` for the kernel to service (if `pending` has room).
pub fn pdca_handler(channel: DMAChannelNum, pending: &mut RingBuffer<NvicIdx>) -> (ops: Vec<DmaOp>)
    requires
        old(pending).wf(),
    ensures
        ops@ == seq![
            DmaOp::Write { addr: register_of(channel, INTERRUPT_DISABLE), value: ALL_INTERRUPTS },
            DmaOp::NvicDisable(NvicIdx::PDCA(channel)),
        ],
        final(pending).wf(),
        final(pending).capacity() == old(pending).capacity(),
        old(pending)@.len() < old(pending).capacity() ==> final(pending)@ == old(pending)@.push(NvicIdx::PDCA(channel)),
        old(pending)@.len() == old(pending).capacity() ==> final(pending)@ == old(pending)@,
{
    let i = channel.index();
    let mut ops: Vec<DmaOp> = Vec::new();
    ops.push(DmaOp::Write { addr: DMA_BASE_ADDR + i * DMA_CHANNEL_SIZE + INTERRUPT_DISABLE, value: ALL_INTERRUPTS });
    ops.push(DmaOp::NvicDisable(NvicIdx::PDCA(channel)));
    let _ = pending.enqueue(NvicIdx::PDCA(channel));
    assert(ops@ =~= seq![
        DmaOp::Write { addr: register_of(channel, INTERRUPT_DISABLE), value: ALL_INTERRUPTS },
        DmaOp::NvicDisable(NvicIdx::PDCA(channel)),
    ]);
    ops
}

/// Law: enabling a disabled channel adds one to the count of enabled
/// channels, and disabling it again restores the channels exactly as they
/// were; enabling an enabled channel changes nothing.
pub proof fn lemma_enable_disable_restores(s: Seq<DMAChannel>, i: int)
    requires
        0 <= i < s.len(),
    ensures
        !s[i].enabled ==> enabled_count(s.update(i, DMAChannel { enabled: true, ..s[i] })) == enabled_count(s) + 1,
        !s[i].enabled ==> s.update(i, DMAChannel { enabled: true, ..s[i] })
            .update(i, DMAChannel { enabled: false, ..s[i] }) == s,
        s[i].enabled ==> s.update(i, DMAChannel { enabled: true, ..s[i] }) == s,
{
    lemma_count_update(s, i, DMAChannel { enabled: true, ..s[i] });
    assert(s.update(i, DMAChannel { enabled: true, ..s[i] }).update(i, DMAChannel { enabled: false, ..s[i] })
        =~= s.update(i, DMAChannel { enabled: false, ..s[i] }));
    if !s[i].enabled {
        assert(s.update(i, DMAChannel { enabled: false, ..s[i] }) =~= s);
    } else {
        assert(s.update(i, DMAChannel { enabled: true, ..s[i] }) =~= s);
    }
}

/// Law: aborting gives back the buffer the last prepared transfer took,
/// leaving the channel otherwise as it was; a second abort gives back
/// nothing.
pub proof fn lemma_abort_returns_prepared_buffer(c: DMAChannel, buf: Vec<u8>)
    ensures
        aborted(prepared(c, buf)).1 == Some(buf),
        aborted(prepared(c, buf)).0 == aborted(c).0,
        aborted(aborted(prepared(c, buf)).0).1 is None,
{
}

/// Law: the value that selects each peripheral function is its number in
/// the datasheet's table; receive functions (peripheral to memory) are
/// numbered below 18, transmit functions (memory to peripheral) from 18 up,
/// and no two functions share a number.
pub proof fn lemma_peripheral_numbers()
    ensures
        peripheral_id(DMAPeripheral::USART0_RX) == 0,
        peripheral_id(DMAPeripheral::USART1_RX) == 1,
        peripheral_id(DMAPeripheral::USART2_RX) == 2,
        peripheral_id(DMAPeripheral::USART3_RX) == 3,
        peripheral_id(DMAPeripheral::SPI_RX) == 4,
        peripheral_id(DMAPeripheral::TWIM0_RX) == 5,
        peripheral_id(DMAPeripheral::TWIM1_RX) == 6,
        peripheral_id(DMAPeripheral::TWIM2_RX) == 7,
        peripheral_id(DMAPeripheral::TWIM3_RX) == 8,
        peripheral_id(DMAPeripheral::TWIS0_RX) == 9,
        peripheral_id(DMAPeripheral::TWIS1_RX) == 10,
        peripheral_id(DMAPeripheral::ADCIFE_RX) == 11,
        peripheral_id(DMAPeripheral::CATB_RX) == 12,
        peripheral_id(DMAPeripheral::IISC_CH0_RX) == 14,
        peripheral_id(DMAPeripheral::IISC_CH1_RX) == 15,
        peripheral_id(DMAPeripheral::PARC_RX) == 16,
        peripheral_id(DMAPeripheral::AESA_RX) == 17,
        peripheral_id(DMAPeripheral::USART0_TX) == 18,
        peripheral_id(DMAPeripheral::USART1_TX) == 19,
        peripheral_id(DMAPeripheral::USART2_TX) == 20,
        peripheral_id(DMAPeripheral::USART3_TX) == 21,
        peripheral_id(DMAPeripheral::SPI_TX) == 22,
        peripheral_id(DMAPeripheral::TWIM0_TX) == 23,
        peripheral_id(DMAPeripheral::TWIM1_TX) == 24,
        peripheral_id(DMAPeripheral::TWIM2_TX) == 25,
        peripheral_id(DMAPeripheral::TWIM3_TX) == 26,
        peripheral_id(DMAPeripheral::TWIS0_TX) == 27,
        peripheral_id(DMAPeripheral::TWIS1_TX) == 28,
        peripheral_id(DMAPeripheral::ADCIFE_TX) == 29,
        peripheral_id(DMAPeripheral::CATB_TX) == 30,
        peripheral_id(DMAPeripheral::ABDACB_SDR0_TX) == 31,
        peripheral_id(DMAPeripheral::ABDACB_SDR1_TX) == 32,
        peripheral_id(DMAPeripheral::IISC_CH0_TX) == 33,
        peripheral_id(DMAPeripheral::IISC_CH1_TX) == 34,
        peripheral_id(DMAPeripheral::DACC_TX) == 35,
        peripheral_id(DMAPeripheral::AESA_TX) == 36,
        peripheral_id(DMAPeripheral::LCDCA_ACMDR_TX) == 37,
        peripheral_id(DMAPeripheral::LCDCA_ABMDR_TX) == 38,
        forall|p: DMAPeripheral, q: DMAPeripheral| peripheral_id(p) == peripheral_id(q) ==> p == q,
{
}

/// Law: the channels are numbered 0 to 15 in order, and channel `i`'s
/// registers lie `i * 0x40` bytes after channel 0's, at `0x400A2000`.
pub proof fn lemma_channel_numbers(c: DMAChannelNum, offset: usize)
    requires
        offset < DMA_CHANNEL_SIZE,
    ensures
        channel_index(DMAChannelNum::DMAChannel00) == 0,
        channel_index(DMAChannelNum::DMAChannel01) == 1,
        channel_index(DMAChannelNum::DMAChannel02) == 2,
        channel_index(DMAChannelNum::DMAChannel03) == 3,
        channel_index(DMAChannelNum::DMAChannel04) == 4,
        channel_index(DMAChannelNum::DMAChannel05) == 5,
        channel_index(DMAChannelNum::DMAChannel06) == 6,
        channel_index(DMAChannelNum::DMAChannel07) == 7,
        channel_index(DMAChannelNum::DMAChannel08) == 8,
        channel_index(DMAChannelNum::DMAChannel09) == 9,
        channel_index(DMAChannelNum::DMAChannel10) == 10,
        channel_index(DMAChannelNum::DMAChannel11) == 11,
        channel_index(DMAChannelNum::DMAChannel12) == 12,
        channel_index(DMAChannelNum::DMAChannel13) == 13,
        channel_index(DMAChannelNum::DMAChannel14) == 14,
        channel_index(DMAChannelNum::DMAChannel15) == 15,
        register_of(c, offset) as int == 0x400A2000 + 0x40 * channel_index(c) + offset,
        forall|a: DMAChannelNum, b: DMAChannelNum| channel_index(a) == channel_index(b) ==> a == b,
{
}

/// Law: disabling a channel that is off does nothing. Disabling one that is
/// on always ends by writing 2 (transfer disable) to its control register
/// and then disabling its interrupt line, whatever the count; before that,
/// and only when it is the last channel on, both PDCA clocks are turned off.
pub proof fn lemma_disable_ops(c: DMAChannelNum, nvic: NvicIdx, count: usize)
    ensures
        disable_ops(c, nvic, false, count).len() == 0,
        ({
            let ops = disable_ops(c, nvic, true, count);
            &&& ops.len() == (if count == 1 { 4int } else { 2int })
            &&& ops[ops.len() - 2] == DmaOp::Write { addr: register_of(c, CONTROL), value: 2 }
            &&& ops[ops.len() - 1] == DmaOp::NvicDisable(nvic)
            &&& count == 1 ==> ops[0] == DmaOp::DisableClock(Clock::HsbPdca) && ops[1] == DmaOp::DisableClock(Clock::PbbPdca)
        }),
        register_of(c, CONTROL) as int == 0x400A2000 + 0x40 * channel_index(c) + 0x14,
{
}

/// Law: enabling a channel always turns on both PDCA clocks first. If the
/// channel was off, it then masks all of the channel's interrupts and
/// enables its interrupt line, last; if it was on, nothing else happens.
pub proof fn lemma_enable_ops(c: DMAChannelNum, nvic: NvicIdx, enabled: bool, count: usize)
    ensures
        ({
            let ops = enable_ops(c, nvic, enabled, count);
            &&& ops[0] == DmaOp::EnableClock(Clock::HsbPdca)
            &&& ops[1] == DmaOp::EnableClock(Clock::PbbPdca)
            &&& enabled ==> ops.len() == 2
            &&& !enabled ==> ops.len() >= 4
                && ops[ops.len() - 2] == DmaOp::Write { addr: register_of(c, INTERRUPT_DISABLE), value: 0xffffffff }
                && ops[ops.len() - 1] == DmaOp::NvicEnable(nvic)
        }),
{
}

/// Law: preparing a transfer writes, in order, the function's number into
/// the peripheral-select register (offset 4), the buffer's address into the
/// reload address (offset 0xC), the length into the reload counter (offset
/// 0x10) — the requested length, or the buffer's size if that is smaller,
/// so never more than the buffer holds — and 2 into interrupt enable
/// (offset 0x20).
pub proof fn lemma_prepare_ops(c: DMAChannelNum, pid: DMAPeripheral, buf_addr: usize, buf_len: usize, len: usize)
    ensures
        ({
            let ops = prepare_ops(c, pid, buf_addr, buf_len, len);
            let base = 0x400A2000 + 0x40 * channel_index(c);
            &&& ops.len() == 4
            &&& ops[0] matches DmaOp::Write { addr, value } && addr as int == base + 4 && value == peripheral_id(pid)
            &&& ops[1] matches DmaOp::Write { addr, value } && addr as int == base + 0xC && value == buf_addr
            &&& ops[2] matches DmaOp::Write { addr, value } && addr as int == base + 0x10
                && value <= buf_len && value <= len && (value == len || value == buf_len)
            &&& ops[3] matches DmaOp::Write { addr, value } && addr as int == base + 0x20 && value == 2
        }),
{
}

} // verus!
