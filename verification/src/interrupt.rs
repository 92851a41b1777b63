//! Interrupts: their sources, the request and enable registers, and their dispatch.

use vstd::prelude::*;
use crate::bitfield::{bit_of, lemma_field_bound};
use crate::timer::TimerController;

verus! {

/// A source of interrupts.
#[derive(PartialEq, Eq, Structural, Debug, Clone, Copy)]
pub enum Interrupt {
    VBlank,
    Timer,
    Joypad,
    Stat,
}

/// The value of a flag as one bit.
pub open spec fn flag(b: bool) -> int {
    if b { 1 } else { 0 }
}

/// Five flags packed into the low five bits of a byte, the first one in bit 0.
pub open spec fn pack5(b0: bool, b1: bool, b2: bool, b3: bool, b4: bool) -> int {
    flag(b0) + 2 * flag(b1) + 4 * flag(b2) + 8 * flag(b3) + 16 * flag(b4)
}

/// Packing the flags read from the low five bits of a byte gives back those five bits.
pub proof fn law_pack5_of_bits(v: u8)
    ensures
        pack5(bit_of(v, 0) == 1, bit_of(v, 1) == 1, bit_of(v, 2) == 1, bit_of(v, 3) == 1,
            bit_of(v, 4) == 1) == (v & 0b00011111u8) as int,
{
    let b0 = (v >> 0u8) & 1;
    let b1 = (v >> 1u8) & 1;
    let b2 = (v >> 2u8) & 1;
    let b3 = (v >> 3u8) & 1;
    let b4 = (v >> 4u8) & 1;
    assert(b0 + 2 * b1 + 4 * b2 + 8 * b3 + 16 * b4 == (v & 0b00011111u8) && b0 <= 1 && b1 <= 1
        && b2 <= 1 && b3 <= 1 && b4 <= 1) by (bit_vector)
        requires
            b0 == (v >> 0u8) & 1,
            b1 == (v >> 1u8) & 1,
            b2 == (v >> 2u8) & 1,
            b3 == (v >> 3u8) & 1,
            b4 == (v >> 4u8) & 1,
    ;
}

/// The interrupt request register ($FF0F) and the interrupt enable register ($FFFF).
#[derive(Debug)]
pub struct InterruptRegister {
    pub v_blank: bool,
    pub stat: bool,
    pub timer: bool,
    pub serial: bool,
    pub joypad: bool,
    pub v_blank_enabled: bool,
    pub stat_enabled: bool,
    pub timer_enabled: bool,
    pub serial_enabled: bool,
    pub joypad_enabled: bool,
}

impl InterruptRegister {
    pub fn new() -> (r: InterruptRegister)
        ensures
            !r.v_blank && !r.stat && !r.timer && !r.serial && !r.joypad,
            !r.v_blank_enabled && !r.stat_enabled && !r.timer_enabled && !r.serial_enabled
                && !r.joypad_enabled,
    {
        InterruptRegister {
            v_blank: false,
            stat: false,
            timer: false,
            serial: false,
            joypad: false,
            v_blank_enabled: false,
            stat_enabled: false,
            timer_enabled: false,
            serial_enabled: false,
            joypad_enabled: false,
        }
    }

    /// What a read of $FF0F or $FFFF gives.
    pub open spec fn read_spec(&self, address: u16) -> int {
        if address == 0xFF0F { self.spec_requested() } else { self.spec_enabled() }
    }

    pub open spec fn spec_requested(&self) -> int {
        pack5(self.v_blank, self.stat, self.timer, self.serial, self.joypad)
    }

    pub open spec fn spec_enabled(&self) -> int {
        pack5(self.v_blank_enabled, self.stat_enabled, self.timer_enabled, self.serial_enabled,
            self.joypad_enabled)
    }

    /// Reads $FF0F (the requested interrupts) or $FFFF (the enabled ones).
    pub fn read(&self, address: u16) -> (r: u8)
        requires
            address == 0xFF0F || address == 0xFFFF,
        ensures
            r == (if address == 0xFF0F { self.spec_requested() } else { self.spec_enabled() }),
    {
        match address {
            0xFF0F => self.read_interrupt(),
            _ => self.read_enabled(),
        }
    }

    /// Writes $FF0F (the requested interrupts) or $FFFF (the enabled ones) from the low five
    /// bits of `v`.
    pub fn write(&mut self, address: u16, v: u8)
        requires
            address == 0xFF0F || address == 0xFFFF,
        ensures
            address == 0xFF0F ==> final(self).spec_requested() == (v & 0b00011111u8) as int,
            address == 0xFF0F ==> final(self).spec_enabled() == old(self).spec_enabled(),
            address == 0xFFFF ==> final(self).spec_enabled() == (v & 0b00011111u8) as int,
            address == 0xFFFF ==> final(self).spec_requested() == old(self).spec_requested(),
            address == 0xFF0F ==> final(self).v_blank == (bit_of(v, 0) == 1) && final(self).stat == (
            bit_of(v, 1) == 1) && final(self).timer == (bit_of(v, 2) == 1) && final(self).serial == (
            bit_of(v, 3) == 1) && final(self).joypad == (bit_of(v, 4) == 1),
            address == 0xFFFF ==> final(self).v_blank_enabled == (bit_of(v, 0) == 1)
                && final(self).stat_enabled == (bit_of(v, 1) == 1) && final(self).timer_enabled == (
            bit_of(v, 2) == 1) && final(self).serial_enabled == (bit_of(v, 3) == 1)
                && final(self).joypad_enabled == (bit_of(v, 4) == 1),
    {
        proof { law_pack5_of_bits(v); }
        match address {
            0xFF0F => self.write_interrupt(v),
            _ => self.write_enabled(v),
        }
    }

    fn read_enabled(&self) -> (r: u8)
        ensures
            r == self.spec_enabled(),
    {
        (if self.v_blank_enabled { 0b00000001 } else { 0 }) + (if self.stat_enabled { 0b00000010 } else {
            0
        }) + (if self.timer_enabled { 0b00000100 } else { 0 }) + (if self.serial_enabled { 0b00001000 } else {
            0
        }) + (if self.joypad_enabled { 0b00010000 } else { 0 })
    }

    fn write_enabled(&mut self, v: u8)
        ensures
            final(self).v_blank_enabled == (bit_of(v, 0) == 1),
            final(self).stat_enabled == (bit_of(v, 1) == 1),
            final(self).timer_enabled == (bit_of(v, 2) == 1),
            final(self).serial_enabled == (bit_of(v, 3) == 1),
            final(self).joypad_enabled == (bit_of(v, 4) == 1),
            final(self).v_blank == old(self).v_blank,
            final(self).stat == old(self).stat,
            final(self).timer == old(self).timer,
            final(self).serial == old(self).serial,
            final(self).joypad == old(self).joypad,
    {
        proof { crate::bitfield::lemma_bit_reads(); }
        self.v_blank_enabled = (v & 0b00000001) > 0;
        self.stat_enabled = (v & 0b00000010) > 0;
        self.timer_enabled = (v & 0b00000100) > 0;
        self.serial_enabled = (v & 0b00001000) > 0;
        self.joypad_enabled = (v & 0b00010000) > 0;
    }

    fn read_interrupt(&self) -> (r: u8)
        ensures
            r == self.spec_requested(),
    {
        (if self.v_blank { 0b00000001 } else { 0 }) + (if self.stat { 0b00000010 } else { 0 }) + (if self.timer {
            0b00000100
        } else {
            0
        }) + (if self.serial { 0b00001000 } else { 0 }) + (if self.joypad { 0b00010000 } else { 0 })
    }

    fn write_interrupt(&mut self, v: u8)
        ensures
            final(self).v_blank == (bit_of(v, 0) == 1),
            final(self).stat == (bit_of(v, 1) == 1),
            final(self).timer == (bit_of(v, 2) == 1),
            final(self).serial == (bit_of(v, 3) == 1),
            final(self).joypad == (bit_of(v, 4) == 1),
            final(self).v_blank_enabled == old(self).v_blank_enabled,
            final(self).stat_enabled == old(self).stat_enabled,
            final(self).timer_enabled == old(self).timer_enabled,
            final(self).serial_enabled == old(self).serial_enabled,
            final(self).joypad_enabled == old(self).joypad_enabled,
    {
        proof { crate::bitfield::lemma_bit_reads(); }
        self.v_blank = (v & 0b00000001) > 0;
        self.stat = (v & 0b00000010) > 0;
        self.timer = (v & 0b00000100) > 0;
        self.serial = (v & 0b00001000) > 0;
        self.joypad = (v & 0b00010000) > 0;
    }
}

/// Whether interrupts are served.
#[derive(PartialEq, Eq, Structural, Debug, Clone, Copy)]
pub enum InterruptStatus {
    Disabled,
    /// Interrupts are served again after one more instruction.
    Enabling,
    Enabled,
}

/// Interrupt requests, their enable mask, the master enable, and the timer that raises them.
pub struct InterruptHandler {
    pub enabled: InterruptStatus,
    pub register: InterruptRegister,
    pub timer_controller: TimerController,
}

impl InterruptHandler {
    pub fn new() -> (r: InterruptHandler)
        ensures
            r.enabled == InterruptStatus::Enabled,
            r.register.spec_requested() == 0,
            r.register.spec_enabled() == 0,
            r.timer_controller.state() == crate::timer::initial_timer_state(),
    {
        InterruptHandler {
            enabled: InterruptStatus::Enabled,
            register: InterruptRegister::new(),
            timer_controller: TimerController::new(),
        }
    }

    /// Marks each interrupt of the list as requested.
    pub fn add_interrupts(&mut self, interrupts: Vec<Interrupt>)
        ensures
            final(self).register.v_blank == (old(self).register.v_blank || interrupts@.contains(Interrupt::VBlank)),
            final(self).register.timer == (old(self).register.timer || interrupts@.contains(Interrupt::Timer)),
            final(self).register.joypad == (old(self).register.joypad || interrupts@.contains(Interrupt::Joypad)),
            final(self).register.stat == (old(self).register.stat || interrupts@.contains(Interrupt::Stat)),
            final(self).register.serial == old(self).register.serial,
            final(self).register.spec_enabled() == old(self).register.spec_enabled(),
            final(self).enabled == old(self).enabled,
            final(self).timer_controller == old(self).timer_controller,
            final(self).register == (InterruptRegister { v_blank: final(self).register.v_blank, stat:
                final(self).register.stat, timer: final(self).register.timer, joypad: final(self).register.joypad,
                ..old(self).register }),
    {
        let n = interrupts.len();
        let mut i: usize = 0;
        while i < n
            invariant
                n == interrupts@.len(),
                i <= n,
                self.register.v_blank == (old(self).register.v_blank || interrupts@.take(i as int).contains(Interrupt::VBlank)),
                self.register.timer == (old(self).register.timer || interrupts@.take(i as int).contains(Interrupt::Timer)),
                self.register.joypad == (old(self).register.joypad || interrupts@.take(i as int).contains(Interrupt::Joypad)),
                self.register.stat == (old(self).register.stat || interrupts@.take(i as int).contains(Interrupt::Stat)),
                self.register.serial == old(self).register.serial,
                self.register.spec_enabled() == old(self).register.spec_enabled(),
                self.enabled == old(self).enabled,
                self.timer_controller == old(self).timer_controller,
            decreases n - i,
        {
            let next = interrupts[i];
            proof {
                assert(interrupts@.take(i + 1) == interrupts@.take(i as int).push(next));
                vstd::seq_lib::lemma_seq_contains_after_push(interrupts@.take(i as int), next, Interrupt::VBlank);
                vstd::seq_lib::lemma_seq_contains_after_push(interrupts@.take(i as int), next, Interrupt::Timer);
                vstd::seq_lib::lemma_seq_contains_after_push(interrupts@.take(i as int), next, Interrupt::Joypad);
                vstd::seq_lib::lemma_seq_contains_after_push(interrupts@.take(i as int), next, Interrupt::Stat);
            }
            match next {
                Interrupt::VBlank => self.register.v_blank = true,
                Interrupt::Timer => self.register.timer = true,
                Interrupt::Joypad => self.register.joypad = true,
                Interrupt::Stat => self.register.stat = true,
            }
            i = i + 1;
        }
        proof {
            assert(interrupts@.take(n as int) == interrupts@);
        }
    }

    /// Interrupts are served again once one more instruction has run.
    pub fn enable(&mut self)
        ensures
            final(self).enabled == InterruptStatus::Enabling,
            final(self).register == old(self).register,
            final(self).timer_controller == old(self).timer_controller,
    {
        self.enabled = InterruptStatus::Enabling;
    }

    pub fn disable(&mut self)
        ensures
            final(self).enabled == InterruptStatus::Disabled,
            final(self).register == old(self).register,
            final(self).timer_controller == old(self).timer_controller,
    {
        self.enabled = InterruptStatus::Disabled;
    }

    /// Reads the request or enable register, or one of the timer registers.
    pub fn read(&self, address: u16) -> (r: u8)
        requires
            address == 0xFF0F || address == 0xFFFF || (0xFF04 <= address <= 0xFF07),
        ensures
            (address == 0xFF0F || address == 0xFFFF) ==> r == self.register.read_spec(address),
            (0xFF04 <= address <= 0xFF07) ==> r == crate::timer::read_spec(self.timer_controller.state(), address),
    {
        match address {
            0xFF0F | 0xFFFF => self.register.read(address),
            _ => self.timer_controller.read(address),
        }
    }

    /// Writes the request or enable register, or one of the timer registers.
    pub fn write(&mut self, address: u16, v: u8)
        requires
            address == 0xFF0F || address == 0xFFFF || (0xFF04 <= address <= 0xFF07),
        ensures
            (address == 0xFF0F || address == 0xFFFF) ==> final(self).register.read_spec(0xFF0F)
                == (if address == 0xFF0F { (v & 0b00011111u8) as int } else { old(self).register.read_spec(0xFF0F) }),
            (address == 0xFF0F || address == 0xFFFF) ==> final(self).register.read_spec(0xFFFF)
                == (if address == 0xFFFF { (v & 0b00011111u8) as int } else { old(self).register.read_spec(0xFFFF) }),
            (address == 0xFF0F || address == 0xFFFF) ==> final(self).timer_controller == old(self).timer_controller,
            (0xFF04 <= address <= 0xFF07) ==> final(self).timer_controller.state()
                == crate::timer::write_spec(old(self).timer_controller.state(), address, v),
            (0xFF04 <= address <= 0xFF07) ==> final(self).register == old(self).register,
            final(self).enabled == old(self).enabled,
    {
        match address {
            0xFF0F | 0xFFFF => self.register.write(address, v),
            _ => self.timer_controller.write(address, v),
        }
    }

    /// Runs the timer for `cycles` clock cycles and requests the timer interrupt when it fires.
    pub fn add_cycles(&mut self, cycles: usize)
        requires
            old(self).timer_controller.state().pending + cycles <= usize::MAX,
        ensures
            final(self).timer_controller.state() == crate::timer::run(old(self).timer_controller.state(), cycles as nat).0,
            final(self).register.timer == (old(self).register.timer || (crate::timer::run(
                old(self).timer_controller.state(), cycles as nat).1 && bit_of(old(self).timer_controller.state().control, 2) == 1)),
            final(self).register.v_blank == old(self).register.v_blank,
            final(self).register.stat == old(self).register.stat,
            final(self).register.joypad == old(self).register.joypad,
            final(self).register.serial == old(self).register.serial,
            final(self).register.spec_enabled() == old(self).register.spec_enabled(),
            final(self).enabled == old(self).enabled,
            final(self).register == (InterruptRegister { timer: final(self).register.timer, ..old(self).register }),
    {
        let fired = self.timer_controller.add_cycles(cycles);
        if let Some(interrupt) = fired {
            let mut list: Vec<Interrupt> = Vec::new();
            list.push(interrupt);
            proof {
                assert(list@ == seq![Interrupt::Timer]);
                assert(list@[0] == Interrupt::Timer);
                assert(list@.contains(Interrupt::Timer));
            }
            self.add_interrupts(list);
        }
    }

    /// Whether some interrupt is requested, enabled or not.
    pub fn has_interrupts(&self) -> (r: bool)
        ensures
            r == (self.register.v_blank || self.register.stat || self.register.timer || self.register.joypad),
    {
        self.register.v_blank || self.register.stat || self.register.timer || self.register.joypad
    }

    /// Takes the interrupt to serve next, if interrupts are enabled: the highest in priority
    /// (VBlank, Stat, Timer, Joypad) among those requested and enabled; its request is
    /// cleared. While enabling, no interrupt is served and interrupts become enabled.
    pub fn get_interrupt(&mut self) -> (r: Option<Interrupt>)
        ensures
            final(self).enabled == (if old(self).enabled == InterruptStatus::Enabling {
                InterruptStatus::Enabled } else { old(self).enabled }),
            final(self).timer_controller == old(self).timer_controller,
            final(self).register.spec_enabled() == old(self).register.spec_enabled(),
            final(self).register.serial == old(self).register.serial,
            r == served(old(self).enabled, old(self).register),
            final(self).register.v_blank == (old(self).register.v_blank && r != Some(Interrupt::VBlank)),
            final(self).register.stat == (old(self).register.stat && r != Some(Interrupt::Stat)),
            final(self).register.timer == (old(self).register.timer && r != Some(Interrupt::Timer)),
            final(self).register.joypad == (old(self).register.joypad && r != Some(Interrupt::Joypad)),
    {
        let is_enabled = match self.enabled {
            InterruptStatus::Disabled => false,
            InterruptStatus::Enabling => {
                // Interrupts take 1 instruction to be enabled
                self.enabled = InterruptStatus::Enabled;
                false
            },
            InterruptStatus::Enabled => true,
        };

        if !is_enabled {
            return None;
        }

        if self.register.v_blank_enabled && self.register.v_blank {
            self.register.v_blank = false;
            return Some(Interrupt::VBlank);
        }

        if self.register.stat_enabled && self.register.stat {
            self.register.stat = false;
            return Some(Interrupt::Stat);
        }

        if self.register.timer_enabled && self.register.timer {
            self.register.timer = false;
            return Some(Interrupt::Timer);
        }

        if self.register.joypad_enabled && self.register.joypad {
            self.register.joypad = false;
            return Some(Interrupt::Joypad);
        }

        None
    }
}

/// The interrupt served under the given master enable and registers: none unless interrupts
/// are enabled, and otherwise the first of VBlank, Stat, Timer and Joypad that is both
/// requested and enabled.
pub open spec fn served(status: InterruptStatus, reg: InterruptRegister) -> Option<Interrupt> {
    if status != InterruptStatus::Enabled {
        None
    } else if reg.v_blank_enabled && reg.v_blank {
        Some(Interrupt::VBlank)
    } else if reg.stat_enabled && reg.stat {
        Some(Interrupt::Stat)
    } else if reg.timer_enabled && reg.timer {
        Some(Interrupt::Timer)
    } else if reg.joypad_enabled && reg.joypad {
        Some(Interrupt::Joypad)
    } else {
        None
    }
}

/// An interrupt is served only while interrupts are enabled and only when it is both requested
/// (its bit in $FF0F) and enabled (its bit in $FFFF); of those requested and enabled, VBlank
/// comes before Stat, Stat before Timer and Timer before Joypad; and while interrupts are
/// enabled, one of them requested and enabled is always served. In the register bytes, VBlank
/// is bit 0, Stat bit 1, Timer bit 2 and Joypad bit 4.
pub proof fn law_served_interrupts(status: InterruptStatus, reg: InterruptRegister)
    ensures
        served(status, reg) is Some ==> status == InterruptStatus::Enabled,
        served(status, reg) == Some(Interrupt::VBlank) ==> reg.v_blank && reg.v_blank_enabled,
        served(status, reg) == Some(Interrupt::Stat) ==> reg.stat && reg.stat_enabled
            && !(reg.v_blank && reg.v_blank_enabled),
        served(status, reg) == Some(Interrupt::Timer) ==> reg.timer && reg.timer_enabled
            && !(reg.v_blank && reg.v_blank_enabled) && !(reg.stat && reg.stat_enabled),
        served(status, reg) == Some(Interrupt::Joypad) ==> reg.joypad && reg.joypad_enabled
            && !(reg.v_blank && reg.v_blank_enabled) && !(reg.stat && reg.stat_enabled)
            && !(reg.timer && reg.timer_enabled),
        status == InterruptStatus::Enabled && ((reg.v_blank && reg.v_blank_enabled) || (reg.stat
            && reg.stat_enabled) || (reg.timer && reg.timer_enabled) || (reg.joypad && reg.joypad_enabled))
            ==> served(status, reg) is Some,
        served(status, reg) == Some(Interrupt::VBlank) ==> reg.spec_requested() % 2 == 1 && reg.spec_enabled() % 2 == 1,
        served(status, reg) == Some(Interrupt::Stat) ==> (reg.spec_requested() / 2) % 2 == 1 && (reg.spec_enabled()
            / 2) % 2 == 1,
        served(status, reg) == Some(Interrupt::Timer) ==> (reg.spec_requested() / 4) % 2 == 1 && (reg.spec_enabled()
            / 4) % 2 == 1,
        served(status, reg) == Some(Interrupt::Joypad) ==> (reg.spec_requested() / 16) % 2 == 1 && (
            reg.spec_enabled() / 16) % 2 == 1,
{
}

} // verus!
