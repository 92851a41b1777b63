//! The memory bus: which component answers which address, and the clocking of the components
//! that run alongside the CPU.

use vstd::prelude::*;
use crate::apu::{SoundController, GbAudioBuffer};
use crate::cartridge::Cartridge;
use crate::dma::DmaController;
use crate::handler_holder::{is_memory_holder_address, is_unusable, JoypadRegister, Key, MemoryHolder, SerialTransfer};
use crate::interrupt::Interrupt;
use crate::ppu::{GrayShade, LCDMode, Ppu, line_step};

verus! {

/// The components behind the bus, the DMA controller aside.
pub struct InnerHandlerHolder {
    pub memory_holder: MemoryHolder,
    pub cartridge: Cartridge,
    pub ppu: Ppu,
    pub joypad_register: JoypadRegister,
    pub serial_transfer_controller: SerialTransfer,
    pub apu: SoundController,
}

/// The addresses of the cartridge: ROM ($0000-$7FFF) and its RAM ($A000-$BFFF).
pub open spec fn is_cartridge_address(address: u16) -> bool {
    address <= 0x7FFF || (0xA000 <= address <= 0xBFFF)
}

/// The addresses of the LCD: video RAM and its registers ($FF40-$FF45, $FF47-$FF4B).
pub open spec fn is_lcd_address(address: u16) -> bool {
    (0x8000 <= address <= 0x9FFF) || (0xFF40 <= address <= 0xFF45) || (0xFF47 <= address <= 0xFF4B)
}

/// The addresses of the sound unit ($FF10-$FF3F).
pub open spec fn is_apu_address(address: u16) -> bool {
    0xFF10 <= address <= 0xFF3F
}

impl InnerHandlerHolder {
    /// What the bus is after a write of `v` to `address`: the component at the address takes
    /// the write and the others are unchanged.
    pub open spec fn written(&self, address: u16, v: u8, after: &InnerHandlerHolder) -> bool {
        &&& is_cartridge_address(address) ==> *after == (InnerHandlerHolder { cartridge: after.cartridge, ..*self })
            && after.cartridge.rom_size == self.cartridge.rom_size
        &&& is_lcd_address(address) ==> *after == (InnerHandlerHolder { ppu: after.ppu, ..*self })
        &&& 0x8000 <= address <= 0x9FFF ==> after.ppu == (Ppu { video_ram: after.ppu.video_ram, ..self.ppu })
            && after.ppu.video_ram@ == self.ppu.video_ram@.update(address - 0x8000, v)
        &&& is_memory_holder_address(address) ==> *after == (InnerHandlerHolder { memory_holder: after.memory_holder,
            ..*self })
        &&& is_memory_holder_address(address) && !is_unusable(address) ==> after.memory_holder.spec_read(address) == v
        &&& is_memory_holder_address(address) ==> forall|a: u16| a != address && is_memory_holder_address(a)
            ==> after.memory_holder.spec_read(a) == self.memory_holder.spec_read(a)
        &&& address == 0xFF00 ==> *after == (InnerHandlerHolder { joypad_register: after.joypad_register, ..*self })
        &&& address == 0xFF01 || address == 0xFF02 ==> *after == (InnerHandlerHolder { serial_transfer_controller:
            after.serial_transfer_controller, ..*self })
        &&& address == 0xFF01 ==> after.serial_transfer_controller.debug_data@
            == self.serial_transfer_controller.debug_data@.push(v)
        &&& is_apu_address(address) ==> *after == (InnerHandlerHolder { apu: after.apu, ..*self })
        &&& 0xFF30 <= address <= 0xFF3F && self.apu.master_status ==> after.apu.read_spec(address) == v
    }

    pub open spec fn wf(&self) -> bool {
        &&& self.memory_holder.wf()
        &&& self.cartridge.wf()
        &&& self.ppu.wf()
        &&& self.apu.wf()
    }

    /// The reads that the bus answers: those of its components, where the joypad needs a row
    /// selected.
    pub open spec fn can_read(&self, address: u16) -> bool {
        ||| is_cartridge_address(address) && self.cartridge.can_read(address)
        ||| is_lcd_address(address)
        ||| is_memory_holder_address(address)
        ||| address == 0xFF00 && (self.joypad_register.p14 || self.joypad_register.p15)
        ||| address == 0xFF01 || address == 0xFF02
        ||| is_apu_address(address)
    }

    /// What a read of `address` may give: what the component there gives.
    pub open spec fn read_result(&self, address: u16, r: u8) -> bool {
        &&& is_cartridge_address(address) ==> self.cartridge.read_result(address, r)
        &&& is_lcd_address(address) ==> r == self.ppu.read_spec(address)
        &&& is_memory_holder_address(address) ==> r == self.memory_holder.spec_read(address)
        &&& address == 0xFF00 ==> r == self.joypad_register.spec_read()
        &&& address == 0xFF01 ==> r == self.serial_transfer_controller.mapper.transfer_data
        &&& address == 0xFF02 ==> r == (self.serial_transfer_controller.mapper.flags@ | 0b01111110u8)
        &&& is_apu_address(address) ==> r == self.apu.read_spec(address)
    }

    /// The writes that the bus takes: those of its components.
    pub open spec fn can_write(&self, address: u16, v: u8) -> bool {
        ||| is_cartridge_address(address) && self.cartridge.can_write(address, v)
        ||| is_lcd_address(address)
        ||| is_memory_holder_address(address)
        ||| address == 0xFF00 || address == 0xFF01 || address == 0xFF02
        ||| is_apu_address(address)
    }

    /// Whether the bus answers a read of `address`.
    pub fn readable(&self, address: u16) -> (r: bool)
        ensures
            r == self.can_read(address),
    {
        ((address <= 0x7FFF || (address >= 0xA000 && address <= 0xBFFF))
            && self.cartridge.memory_controller.readable(address))
            || (address >= 0x8000 && address <= 0x9FFF) || (address >= 0xFF40 && address <= 0xFF45)
            || (address >= 0xFF47 && address <= 0xFF4B)
            || (address >= 0xFEA0 && address <= 0xFEFF) || (address >= 0xFF4C && address <= 0xFF7F)
            || (address >= 0xC000 && address <= 0xDFFF) || (address >= 0xFF80 && address <= 0xFFFE)
            || (address == 0xFF00 && (self.joypad_register.p14 || self.joypad_register.p15))
            || address == 0xFF01 || address == 0xFF02 || (address >= 0xFF10 && address <= 0xFF3F)
    }

    /// Whether the bus takes a write of `v` to `address`.
    pub fn writable(&self, address: u16, v: u8) -> (r: bool)
        ensures
            r == self.can_write(address, v),
    {
        ((address <= 0x7FFF || (address >= 0xA000 && address <= 0xBFFF))
            && self.cartridge.memory_controller.writable(address, v))
            || (address >= 0x8000 && address <= 0x9FFF) || (address >= 0xFF40 && address <= 0xFF45)
            || (address >= 0xFF47 && address <= 0xFF4B)
            || (address >= 0xFEA0 && address <= 0xFEFF) || (address >= 0xFF4C && address <= 0xFF7F)
            || (address >= 0xC000 && address <= 0xDFFF) || (address >= 0xFF80 && address <= 0xFFFE)
            || address == 0xFF00 || address == 0xFF01 || address == 0xFF02 || (address >= 0xFF10 && address <= 0xFF3F)
    }

    pub fn read(&self, address: u16) -> (r: u8)
        requires
            self.wf(),
            self.can_read(address),
        ensures
            self.read_result(address, r),
    {
        if address <= 0x7FFF || (address >= 0xA000 && address <= 0xBFFF) {
            self.cartridge.read(address)
        } else if address <= 0x9FFF || (address >= 0xFF40 && address <= 0xFF45) || (address >= 0xFF47 && address <= 0xFF4B) {
            self.ppu.read(address)
        } else if address == 0xFF00 {
            self.joypad_register.read(address)
        } else if address == 0xFF01 || address == 0xFF02 {
            self.serial_transfer_controller.read(address)
        } else if address >= 0xFF10 && address <= 0xFF3F {
            self.apu.read(address)
        } else {
            self.memory_holder.read(address)
        }
    }
}

impl InnerHandlerHolder {
    /// Writes to the component at `address`; the other components do not change. Work RAM,
    /// high RAM and video RAM give back what was written.
    pub fn write(&mut self, address: u16, v: u8)
        requires
            old(self).wf(),
            old(self).can_write(address, v),
        ensures
            final(self).wf(),
            old(self).written(address, v, &*final(self)),
    {
        if address <= 0x7FFF || (address >= 0xA000 && address <= 0xBFFF) {
            self.cartridge.write(address, v);
        } else if address <= 0x9FFF || (address >= 0xFF40 && address <= 0xFF45) || (address >= 0xFF47 && address <= 0xFF4B) {
            self.ppu.write(address, v);
        } else if address == 0xFF00 {
            self.joypad_register.write(address, v);
        } else if address == 0xFF01 || address == 0xFF02 {
            self.serial_transfer_controller.write(address, v);
        } else if address >= 0xFF10 && address <= 0xFF3F {
            self.apu.write(address, v);
        } else {
            self.memory_holder.write(address, v);
        }
    }
}

/// The memory bus of the Game Boy: the DMA controller and sprite memory, and the other
/// components.
pub struct GBHandlerHolder {
    pub dma: DmaController,
    pub inner: InnerHandlerHolder,
}

impl GBHandlerHolder {
    /// What the bus is after a write of `v` to `address`: sprite memory and the DMA register
    /// are the DMA controller's, the rest goes to the other components.
    pub open spec fn written(&self, address: u16, v: u8, after: &GBHandlerHolder) -> bool {
        &&& (0xFE00 <= address <= 0xFE9F) || address == 0xFF46 ==> after.inner == self.inner
        &&& 0xFE00 <= address <= 0xFE9F ==> after.dma == (DmaController { oam_ram: after.dma.oam_ram, ..self.dma })
            && after.dma.oam_ram@ == self.dma.oam_ram@.update(address - 0xFE00, v)
        &&& address == 0xFF46 ==> after.dma.running && after.dma.cycles == 0 && after.dma.base == v * 256
            && after.dma.oam_ram == self.dma.oam_ram
        &&& !(0xFE00 <= address <= 0xFE9F) && address != 0xFF46 ==> after.dma == self.dma && self.inner.written(
            address, v, &after.inner)
    }

    pub open spec fn wf(&self) -> bool {
        &&& self.dma.wf()
        &&& self.inner.wf()
    }

    /// The reads that the bus answers: sprite memory, and what the other components answer.
    pub open spec fn can_read(&self, address: u16) -> bool {
        (0xFE00 <= address <= 0xFE9F) || (address != 0xFF46 && self.inner.can_read(address))
    }

    /// What a read of `address` may give.
    pub open spec fn read_result(&self, address: u16, r: u8) -> bool {
        if 0xFE00 <= address <= 0xFE9F {
            r == self.dma.oam_ram@[address - 0xFE00]
        } else {
            self.inner.read_result(address, r)
        }
    }

    /// The writes that the bus takes: sprite memory, a DMA start from below $E000, and what
    /// the other components take.
    pub open spec fn can_write(&self, address: u16, v: u8) -> bool {
        ||| 0xFE00 <= address <= 0xFE9F
        ||| address == 0xFF46 && v < 0xE0
        ||| address != 0xFF46 && self.inner.can_write(address, v)
    }

    /// A bus for the cartridge, with every other component in its power-up state.
    pub fn new(cartridge: Cartridge) -> (r: GBHandlerHolder)
        requires
            cartridge.wf(),
        ensures
            r.wf(),
            r.inner.cartridge == cartridge,
            !r.dma.running,
    {
        GBHandlerHolder {
            dma: DmaController::new(),
            inner: InnerHandlerHolder {
                cartridge,
                memory_holder: MemoryHolder::new(),
                ppu: Ppu::new(),
                joypad_register: JoypadRegister::new(),
                serial_transfer_controller: SerialTransfer::new(),
                apu: SoundController::new(),
            },
        }
    }

    /// Whether the bus answers a read of `address`.
    pub fn readable(&self, address: u16) -> (r: bool)
        ensures
            r == self.can_read(address),
    {
        (address >= 0xFE00 && address <= 0xFE9F) || (address != 0xFF46 && self.inner.readable(address))
    }

    /// Whether the bus takes a write of `v` to `address`.
    pub fn writable(&self, address: u16, v: u8) -> (r: bool)
        ensures
            r == self.can_write(address, v),
    {
        (address >= 0xFE00 && address <= 0xFE9F) || (address == 0xFF46 && v < 0xE0) || (address != 0xFF46
            && self.inner.writable(address, v))
    }

    pub fn read(&self, address: u16) -> (r: u8)
        requires
            self.wf(),
            self.can_read(address),
        ensures
            self.read_result(address, r),
    {
        if address >= 0xFE00 && address <= 0xFE9F {
            self.dma.read(address)
        } else {
            self.inner.read(address)
        }
    }

    pub fn write(&mut self, address: u16, v: u8)
        requires
            old(self).wf(),
            old(self).can_write(address, v),
        ensures
            final(self).wf(),
            old(self).written(address, v, &*final(self)),
    {
        if (address >= 0xFE00 && address <= 0xFE9F) || address == 0xFF46 {
            self.dma.write(address, v);
        } else {
            self.inner.write(address, v);
        }
    }

    /// The screen, line after line.
    pub fn get_screen_buffer(&self) -> (r: &[GrayShade])
        ensures
            r@ == self.inner.ppu.screen_buffer@,
    {
        self.inner.ppu.get_screen()
    }

    /// Whether a new frame is ready; clears the flag.
    pub fn should_refresh(&mut self) -> (r: bool)
        ensures
            r == old(self).inner.ppu.should_refresh,
            !final(self).inner.ppu.should_refresh,
            final(self).dma == old(self).dma,
            *final(self) == (GBHandlerHolder { inner: InnerHandlerHolder { ppu: Ppu { should_refresh: false,
                ..old(self).inner.ppu }, ..old(self).inner }, ..*old(self) }),
    {
        self.inner.ppu.should_refresh()
    }

    /// The four sound channels.
    pub fn get_audio_buffer(&self) -> (r: &GbAudioBuffer)
        ensures
            *r == self.inner.apu.buffer,
    {
        self.inner.apu.get_audio()
    }

    pub fn key_up(&mut self, key: Key)
        ensures
            !final(self).inner.joypad_register.held(key),
            final(self).inner.joypad_register.same_but(&old(self).inner.joypad_register, key),
            *final(self) == (GBHandlerHolder { inner: InnerHandlerHolder { joypad_register:
                final(self).inner.joypad_register, ..old(self).inner }, ..*old(self) }),
    {
        self.inner.joypad_register.key_up(key);
    }

    pub fn key_down(&mut self, key: Key)
        ensures
            final(self).inner.joypad_register.held(key),
            final(self).inner.joypad_register.same_but(&old(self).inner.joypad_register, key),
            *final(self) == (GBHandlerHolder { inner: InnerHandlerHolder { joypad_register:
                final(self).inner.joypad_register, ..old(self).inner }, ..*old(self) }),
    {
        self.inner.joypad_register.key_down(key);
    }

    /// One step of the CPU for the LCD, the sound unit and the DMA controller, in that order.
    /// What one step of the components makes of the bus: the LCD's clock moves on by 4 cycles
    /// while the display is on, the sound unit's frame sequencer runs while it is powered, a
    /// running DMA transfer copies its next byte, and the other components stay.
    pub open spec fn stepped(&self, after: &GBHandlerHolder) -> bool {
        &&& after.inner.cartridge == self.inner.cartridge
        &&& after.inner.memory_holder == self.inner.memory_holder
        &&& after.inner.joypad_register == self.inner.joypad_register
        &&& after.inner.serial_transfer_controller == self.inner.serial_transfer_controller
        &&& after.inner.ppu == (Ppu { cycles: after.inner.ppu.cycles, ..self.inner.ppu })
        &&& after.inner.ppu.cycles == (if self.inner.ppu.lcd_enabled() { (self.inner.ppu.cycles + 4)
            % crate::ppu::SCREEN_CYCLES as int } else { self.inner.ppu.cycles as int })
        &&& after.inner.apu.master_status == self.inner.apu.master_status
        &&& !self.inner.apu.master_status ==> after.inner.apu == self.inner.apu
        &&& self.inner.apu.master_status ==> after.inner.apu.frame_sequencer.step == (
            if self.inner.apu.frame_sequencer.cycles == 4 { (self.inner.apu.frame_sequencer.step + 1) % 8 }
            else { self.inner.apu.frame_sequencer.step as int })
        &&& !self.dma.running ==> after.dma == self.dma
        &&& self.dma.running ==> after.dma.cycles == self.dma.cycles + 1 && after.dma.base
            == self.dma.base
        &&& self.dma.running && (self.dma.cycles == 0 || self.dma.cycles == 161) ==> after.dma.running
            == (self.dma.cycles == 0) && after.dma.oam_ram == self.dma.oam_ram
        &&& self.dma.source() matches Some(a) ==> after.dma.running && (forall|i: int| 0 <= i < 160 && i
            != self.dma.cycles - 1 ==> #[trigger] after.dma.oam_ram@[i] == self.dma.oam_ram@[i])
            && after.inner.read_result(a, after.dma.oam_ram@[self.dma.cycles - 1])
    }

    pub fn cpu_step(&mut self)
        requires
            old(self).wf(),
            old(self).dma.source() matches Some(a) ==> old(self).inner.can_read(a),
        ensures
            final(self).wf(),
            old(self).stepped(&*final(self)),
    {
        self.inner.ppu.cpu_step();
        self.inner.apu.cpu_step();
        self.dma.cpu_step(&self.inner);
    }

    /// The interrupt that the LCD requests after this step, if any.
    pub fn check_interrupts(&mut self) -> (r: Option<Interrupt>)
        requires
            old(self).wf(),
            old(self).inner.ppu.scan_ready(),
        ensures
            final(self).wf(),
            final(self).dma == old(self).dma,
            *final(self) == (GBHandlerHolder { inner: InnerHandlerHolder { ppu: final(self).inner.ppu, ..old(self).inner },
                ..*old(self) }),
            line_step(old(self).inner.ppu, old(self).dma.oam_ram@, final(self).inner.ppu, r),
            !old(self).inner.ppu.lcd_enabled() ==> r is None && *final(self) == *old(self),
    {
        proof { reveal(line_step); }
        self.inner.ppu.check_interrupts(self.dma.oam_ram.as_slice())
    }

    /// The cartridge RAM, for saving and loading it.
    pub fn ram(&mut self) -> (r: &mut [u8])
        ensures
            old(self).inner.cartridge.memory_controller.controller matches crate::cartridge::MbcKind::Mbc0(c) ==> r@
                == c.ram@,
            old(self).inner.cartridge.memory_controller.controller matches crate::cartridge::MbcKind::Mbc13(c) ==> r@
                == c.ram@,
    {
        self.inner.cartridge.ram()
    }

    /// The time stamp of the cartridge clock, if the cartridge has one.
    pub fn rtc(&mut self) -> (r: Option<&mut i64>)
        ensures
            old(self).inner.cartridge.memory_controller.controller is Mbc0 ==> r is None,
            old(self).inner.cartridge.memory_controller.controller matches crate::cartridge::MbcKind::Mbc13(c) ==> (r matches Some(
                p) && *p == c.rtc),
    {
        self.inner.cartridge.rtc()
    }

    /// Puts every component but the cartridge back in its power-up state.
    pub fn reset(&mut self)
        requires
            old(self).wf(),
        ensures
            final(self).wf(),
            final(self).inner.cartridge == old(self).inner.cartridge,
            !final(self).dma.running,
            final(self).inner.ppu.cycles == 0,
            !final(self).inner.apu.master_status,
    {
        self.inner.memory_holder = MemoryHolder::new();
        self.inner.ppu = Ppu::new();
        self.inner.joypad_register = JoypadRegister::new();
        self.inner.serial_transfer_controller = SerialTransfer::new();
        self.inner.apu = SoundController::new();
        self.dma = DmaController::new();
    }
}

/// The addresses that keep what is written to them: video RAM, sprite memory, work RAM and
/// high RAM.
pub open spec fn is_storage_address(address: u16) -> bool {
    ||| 0x8000 <= address <= 0x9FFF
    ||| 0xFE00 <= address <= 0xFE9F
    ||| 0xC000 <= address <= 0xDFFF
    ||| 0xFF80 <= address <= 0xFFFE
}

/// An address that stores what is written takes every write, and a read of it then gives back
/// the byte just written (video RAM: while the LCD is not drawing a line); the write leaves
/// what the reads of the other storage addresses give.
pub proof fn law_read_after_write(h: GBHandlerHolder, address: u16, v: u8, after: GBHandlerHolder)
    requires
        h.wf(),
        h.written(address, v, &after),
        is_storage_address(address),
        0x8000 <= address <= 0x9FFF ==> h.inner.ppu.mode != LCDMode::LCDTransfer,
    ensures
        h.can_write(address, v),
        after.can_read(address),
        after.read_result(address, v),
        forall|a: u16, x: u8| a != address && is_storage_address(a) && #[trigger] h.read_result(a, x) ==> after.read_result(
            a, x),
{
}

} // verus!
