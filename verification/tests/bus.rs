use gb::bus::GBHandlerHolder;
use gb::cartridge::Cartridge;
use gb::dma::DmaController;
use gb::handler_holder::{JoypadRegister, Key, MemoryHolder, SerialTransfer};
use gb::interrupt::{Interrupt, InterruptHandler, InterruptRegister};
use gb::timer::TimerController;

fn bus() -> GBHandlerHolder {
    let mut data = vec![0u8; 0x8000];
    data[0x1234] = 0xAB;
    data[0x148] = 0x00;
    GBHandlerHolder::new(Cartridge::from_data(&data))
}

#[test]
fn work_ram_and_high_ram_read_back() {
    let mut b = bus();
    b.write(0xC123, 0x42);
    assert_eq!(b.read(0xC123), 0x42);
    b.write(0xFF90, 0x17);
    assert_eq!(b.read(0xFF90), 0x17);
    // Unusable memory reads as $FF and ignores writes.
    b.write(0xFEA0, 0x00);
    assert_eq!(b.read(0xFEA0), 0xFF);
}

#[test]
fn bus_dispatches_by_address() {
    let mut b = bus();
    assert_eq!(b.read(0x1234), 0xAB);
    b.write(0x8000, 0x99);
    assert_eq!(b.read(0x8000), 0x99);
    assert_eq!(b.read(0xFF40), 0x91);
    b.write(0xFE10, 0x33);
    assert_eq!(b.read(0xFE10), 0x33);
    b.write(0xFF01, b'h');
    b.write(0xFF01, b'i');
    assert_eq!(b.inner.serial_transfer_controller.debug_data, b"hi".to_vec());
    assert_eq!(b.read(0xFF01), b'i');
}

#[test]
fn dma_copies_160_bytes_after_one_idle_step() {
    let mut b = bus();
    for i in 0..160u16 {
        b.write(0xC000 + i, i as u8);
    }
    b.write(0xFF46, 0xC0);
    assert!(b.dma.running);
    for _ in 0..162 {
        b.cpu_step();
    }
    assert!(!b.dma.running);
    for i in 0..160u16 {
        assert_eq!(b.read(0xFE00 + i), i as u8);
    }
}

#[test]
fn dma_controller_alone() {
    let mut d = DmaController::new();
    d.write(0xFE05, 7);
    assert_eq!(d.read(0xFE05), 7);
    d.write(0xFF46, 0x12);
    assert_eq!(d.base, 0x1200);
    assert_eq!(d.cycles, 0);
}

#[test]
fn joypad_rows() {
    let mut b = bus();
    b.key_down(Key::A);
    b.key_down(Key::Up);
    b.write(0xFF00, 0b0001_0000); // P15: actions
    assert_eq!(b.read(0xFF00), 0b1110);
    b.write(0xFF00, 0b0010_0000); // P14: directions
    assert_eq!(b.read(0xFF00), 0b1011);
    b.key_up(Key::Up);
    assert_eq!(b.read(0xFF00), 0b1111);
}

#[test]
fn joypad_register_alone() {
    let mut j = JoypadRegister::new();
    j.key_down(Key::Start);
    j.write(0xFF00, 0x10);
    assert_eq!(j.read(0xFF00), 0b0111);
    j.key_down(Key::Select);
    assert_eq!(j.read(0xFF00), 0b0011);
}

#[test]
fn memory_holder_alone() {
    let mut m = MemoryHolder::new();
    m.write(0xDFFF, 1);
    assert_eq!(m.read(0xDFFF), 1);
    assert_eq!(m.read(0xFF4C), 0xFF);
}

#[test]
fn serial_flags_mask() {
    let mut s = SerialTransfer::new();
    s.write(0xFF02, 0x81);
    assert_eq!(s.read(0xFF02), 0xFF);
    s.write(0xFF02, 0x00);
    assert_eq!(s.read(0xFF02), 0x7E);
}

#[test]
fn interrupt_priority_and_enable_delay() {
    let mut h = InterruptHandler::new();
    h.write(0xFFFF, 0x1F);
    h.add_interrupts(vec![Interrupt::Timer, Interrupt::Stat]);
    assert!(h.has_interrupts());
    assert_eq!(h.read(0xFF0F), 0b0110);
    assert_eq!(h.get_interrupt(), Some(Interrupt::Stat));
    h.disable();
    assert_eq!(h.get_interrupt(), None);
    h.enable();
    assert_eq!(h.get_interrupt(), None);
    assert_eq!(h.get_interrupt(), Some(Interrupt::Timer));
    assert!(!h.has_interrupts());
}

#[test]
fn interrupt_register_round_trip() {
    let mut r = InterruptRegister::new();
    r.write(0xFF0F, 0xFF);
    assert_eq!(r.read(0xFF0F), 0x1F);
    r.write(0xFFFF, 0b10101);
    assert_eq!(r.read(0xFFFF), 0b10101);
}

#[test]
fn timer_counts_and_overflows() {
    let mut t = TimerController::new();
    t.write(0xFF06, 0xF0);
    t.write(0xFF05, 0xFE);
    t.write(0xFF07, 0b101); // on, 262144 Hz: one count every 16 cycles
    let mut interrupt = None;
    for _ in 0..8 {
        if let Some(i) = t.cpu_step() {
            interrupt = Some(i);
        }
    }
    assert_eq!(interrupt, Some(Interrupt::Timer));
    assert_eq!(t.read(0xFF05), 0xF0);
}

#[test]
fn screen_refresh_through_the_bus() {
    let mut b = bus();
    let mut refreshed = false;
    for _ in 0..17556 {
        b.cpu_step();
        let _ = b.check_interrupts();
        if b.should_refresh() {
            refreshed = true;
        }
    }
    assert!(refreshed);
    assert_eq!(b.get_screen_buffer().len(), 160 * 144);
    b.reset();
    assert_eq!(b.inner.ppu.cycles, 0);
}

#[test]
fn the_bus_says_which_accesses_it_serves() {
    let b = bus();
    assert!(b.readable(0x1234));
    assert!(b.readable(0xC000));
    assert!(b.readable(0xFE00));
    assert!(!b.readable(0xFF46));
    assert!(!b.readable(0xFF00));
    assert!(b.readable(0xFF4C));
    assert!(b.writable(0xFF46, 0xC0));
    assert!(!b.writable(0xFF46, 0xE0));
    assert!(b.writable(0xC000, 0x12));
    assert!(b.writable(0x2000, 0x01));
}

#[test]
fn cpu_reads_back_what_it_writes_on_the_bus() {
    let mut cpu = gb::machine::Cpu::new(bus());
    for &(address, v) in &[(0xC000u16, 0x42u8), (0xDFFF, 0x24), (0xFF80, 0x11), (0xFE00, 0x77), (0x8010, 0x5A)] {
        assert_eq!(cpu.set_deref(address, v), Ok(()));
        assert_eq!(cpu.deref(address), Ok(v));
    }
    // A write elsewhere leaves them.
    assert_eq!(cpu.set_deref(0xC001, 0x99), Ok(()));
    assert_eq!(cpu.deref(0xC000), Ok(0x42));
    // The interrupt enable register keeps its five low bits.
    assert_eq!(cpu.set_deref(0xFFFF, 0xFF), Ok(()));
    assert_eq!(cpu.deref(0xFFFF), Ok(0x1F));
}
