use tock::dma::{channel_from_index, pdca_handler, Clock, DMAChannel, DMAChannelNum, DMAPeripheral, DmaOp, NvicIdx, Pdca,
    CONTROL, DMA_BASE_ADDR, INTERRUPT_DISABLE, INTERRUPT_ENABLE, MEMORY_ADDRESS_RELOAD, PERIPHERAL_SELECT,
    TRANSFER_COUNTER, TRANSFER_COUNTER_RELOAD};
use tock::queue::RingBuffer;

#[test]
fn channel_registers() {
    let c = DMAChannel::new(DMAChannelNum::DMAChannel03, NvicIdx::PDCA(DMAChannelNum::DMAChannel03));
    assert_eq!(c.register(CONTROL), DMA_BASE_ADDR + 3 * 0x40 + 0x14);
    assert_eq!(DMAChannelNum::DMAChannel15.index(), 15);
    assert_eq!(channel_from_index(7), DMAChannelNum::DMAChannel07);
    assert_eq!(DMAPeripheral::IISC_CH0_RX.id(), 14);
    assert_eq!(DMAPeripheral::LCDCA_ABMDR_TX.id(), 38);
}

#[test]
fn enable_counts_and_is_idempotent() {
    let mut p = Pdca::new();
    assert_eq!(p.num_enabled, 0);
    let ops = p.enable(2);
    let ch = DMAChannelNum::DMAChannel02;
    assert_eq!(ops, vec![
        DmaOp::EnableClock(Clock::HsbPdca),
        DmaOp::EnableClock(Clock::PbbPdca),
        DmaOp::Write { addr: DMA_BASE_ADDR + 2 * 0x40 + INTERRUPT_DISABLE, value: 0xffffffff },
        DmaOp::NvicEnable(NvicIdx::PDCA(ch)),
    ]);
    assert_eq!(p.num_enabled, 1);
    let again = p.enable(2);
    assert_eq!(again, vec![DmaOp::EnableClock(Clock::HsbPdca), DmaOp::EnableClock(Clock::PbbPdca)]);
    assert_eq!(p.num_enabled, 1);
    let second = p.enable(5);
    assert_eq!(second.len(), 6);
    assert_eq!(p.num_enabled, 2);
}

#[test]
fn disable_turns_clocks_off_with_last_channel() {
    let mut p = Pdca::new();
    assert!(p.disable(0).is_empty());
    let _ = p.enable(0);
    let _ = p.enable(1);
    let ops = p.disable(0);
    assert_eq!(ops, vec![
        DmaOp::Write { addr: DMA_BASE_ADDR + CONTROL, value: 2 },
        DmaOp::NvicDisable(NvicIdx::PDCA(DMAChannelNum::DMAChannel00)),
    ]);
    assert_eq!(p.num_enabled, 1);
    let ops = p.disable(1);
    assert_eq!(ops[0], DmaOp::DisableClock(Clock::HsbPdca));
    assert_eq!(ops[1], DmaOp::DisableClock(Clock::PbbPdca));
    assert_eq!(p.num_enabled, 0);
}

#[test]
fn transfer_buffer_comes_back_on_abort() {
    let mut c = DMAChannel::new(DMAChannelNum::DMAChannel01, NvicIdx::PDCA(DMAChannelNum::DMAChannel01));
    let base = DMA_BASE_ADDR + 0x40;
    let ops = c.do_xfer(DMAPeripheral::SPI_TX, vec![1, 2, 3], 0x2000_0000, 10);
    assert_eq!(ops, vec![
        DmaOp::Write { addr: base + PERIPHERAL_SELECT, value: 22 },
        DmaOp::Write { addr: base + MEMORY_ADDRESS_RELOAD, value: 0x2000_0000 },
        DmaOp::Write { addr: base + TRANSFER_COUNTER_RELOAD, value: 3 },
        DmaOp::Write { addr: base + INTERRUPT_ENABLE, value: 2 },
        DmaOp::Write { addr: base + CONTROL, value: 1 },
    ]);
    let (ops, buf) = c.abort_xfer();
    assert_eq!(buf, Some(vec![1, 2, 3]));
    assert_eq!(ops, vec![
        DmaOp::Write { addr: base + INTERRUPT_DISABLE, value: usize::MAX },
        DmaOp::Write { addr: base + TRANSFER_COUNTER, value: 0 },
    ]);
    assert_eq!(c.abort_xfer().1, None);
    let ops = c.prepare_xfer(DMAPeripheral::USART0_RX, vec![0; 8], 0x100, 4);
    assert_eq!(ops[2], DmaOp::Write { addr: base + TRANSFER_COUNTER_RELOAD, value: 4 });
}

#[test]
fn interrupt_handling() {
    let mut c = DMAChannel::new(DMAChannelNum::DMAChannel04, NvicIdx::PDCA(DMAChannelNum::DMAChannel04));
    assert_eq!(c.handle_interrupt(22), None);
    c.has_client = true;
    assert_eq!(c.handle_interrupt(22), Some(22));
    let mut q: RingBuffer<NvicIdx> = RingBuffer::new(1);
    let ops = pdca_handler(DMAChannelNum::DMAChannel04, &mut q);
    assert_eq!(ops, vec![
        DmaOp::Write { addr: DMA_BASE_ADDR + 4 * 0x40 + INTERRUPT_DISABLE, value: 0xffffffff },
        DmaOp::NvicDisable(NvicIdx::PDCA(DMAChannelNum::DMAChannel04)),
    ]);
    let _ = pdca_handler(DMAChannelNum::DMAChannel05, &mut q);
    assert_eq!(q.dequeue(), Some(NvicIdx::PDCA(DMAChannelNum::DMAChannel04)));
    assert_eq!(q.dequeue(), None);
}
