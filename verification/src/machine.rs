//! The CPU: it fetches, decodes and executes instructions over a memory bus, keeps the timer
//! and the other components running as the instructions take their cycles, and serves the
//! interrupts.

use vstd::prelude::*;
use crate::bus::{GBHandlerHolder, InnerHandlerHolder};
use crate::cpu::{CpuState, Flags, Registers, pack_flags, unpack_flags, daa_value, bit8, bit_mask, has_bit};
use crate::interrupt::{Interrupt, InterruptHandler, InterruptRegister, InterruptStatus};
use crate::ppu::line_step;
use crate::opcode::{AluOp, Cond, Indirect, Instruction, R16, R16Stack, R8, ShiftOp};

verus! {

/// Why the CPU stopped.
#[derive(PartialEq, Eq, Structural, Debug, Clone, Copy)]
pub enum Fault {
    /// A read of an address that nothing answers.
    Read(u16),
    /// A write that the component at the address does not take.
    Write(u16, u8),
    /// A byte that is not an instruction (after the $CB prefix when `prefixed`).
    IllegalOpcode { prefixed: bool, byte: u8 },
    /// A jump to an address that holds no code: video RAM, cartridge RAM, echo RAM or the I/O
    /// registers.
    Jump(u16),
    /// The components on the bus cannot run for a step.
    Bus,
}

/// The memory bus that the CPU runs on: it answers reads and takes writes of addresses, runs
/// its components for one step of the CPU (4 clock cycles), and says which interrupt they
/// request.
pub trait HandlerHolder: Sized {
    spec fn wf(&self) -> bool;

    /// The reads that the bus answers.
    spec fn can_read(&self, address: u16) -> bool;

    /// The writes that the bus takes.
    spec fn can_write(&self, address: u16, v: u8) -> bool;

    /// What a read of `address` may give.
    spec fn read_result(&self, address: u16, v: u8) -> bool;

    /// What the bus is after a write of `v` to `address`: `after`.
    spec fn write_result(&self, address: u16, v: u8, after: &Self) -> bool;

    /// The bus answers every read, takes every write and never fails a step, and stays so.
    spec fn faultless(&self) -> bool;

    /// What a step of the components gives, `r`, and makes of the bus, `after`.
    spec fn step_result(&self, r: Result<(), Fault>, after: &Self) -> bool;

    /// What the check of the components' interrupt requests gives, `r`, and makes of the bus,
    /// `after`.
    spec fn interrupt_result(&self, r: Result<Option<Interrupt>, Fault>, after: &Self) -> bool;

    fn readable(&self, address: u16) -> (r: bool)
        requires
            self.wf(),
        ensures
            r == self.can_read(address),
            self.faultless() ==> r,
    ;

    fn writable(&self, address: u16, v: u8) -> (r: bool)
        requires
            self.wf(),
        ensures
            r == self.can_write(address, v),
            self.faultless() ==> r,
    ;

    fn read(&self, address: u16) -> (r: u8)
        requires
            self.wf(),
            self.can_read(address),
        ensures
            self.read_result(address, r),
    ;

    fn write(&mut self, address: u16, v: u8)
        requires
            old(self).wf(),
            old(self).can_write(address, v),
        ensures
            final(self).wf(),
            old(self).write_result(address, v, &*final(self)),
            old(self).faultless() ==> final(self).faultless(),
    ;

    /// Runs the components for one step of the CPU.
    fn cpu_step(&mut self) -> (r: Result<(), Fault>)
        requires
            old(self).wf(),
        ensures
            final(self).wf(),
            r is Err ==> r == Err::<(), Fault>(Fault::Bus) && *final(self) == *old(self),
            old(self).faultless() ==> r is Ok && final(self).faultless(),
            old(self).step_result(r, &*final(self)),
    ;

    /// The interrupt that the components request, if any.
    fn check_interrupts(&mut self) -> (r: Result<Option<Interrupt>, Fault>)
        requires
            old(self).wf(),
        ensures
            final(self).wf(),
            r is Err ==> r == Err::<Option<Interrupt>, Fault>(Fault::Bus) && *final(self) == *old(self),
            old(self).faultless() ==> r is Ok && final(self).faultless(),
            old(self).interrupt_result(r, &*final(self)),
    ;
}

impl HandlerHolder for GBHandlerHolder {
    open spec fn wf(&self) -> bool {
        GBHandlerHolder::wf(self)
    }

    open spec fn can_read(&self, address: u16) -> bool {
        GBHandlerHolder::can_read(self, address)
    }

    open spec fn can_write(&self, address: u16, v: u8) -> bool {
        GBHandlerHolder::can_write(self, address, v)
    }

    open spec fn read_result(&self, address: u16, v: u8) -> bool {
        GBHandlerHolder::read_result(self, address, v)
    }

    open spec fn write_result(&self, address: u16, v: u8, after: &GBHandlerHolder) -> bool {
        GBHandlerHolder::written(self, address, v, after)
    }

    /// Never: the Game Boy's bus refuses some accesses (cartridge RAM while disabled, the joypad
    /// with no row selected, the unmapped registers).
    open spec fn faultless(&self) -> bool {
        false
    }

    /// The step fails, changing nothing, exactly when a running DMA transfer would copy from an
    /// address that nothing answers; otherwise the components step.
    open spec fn step_result(&self, r: Result<(), Fault>, after: &GBHandlerHolder) -> bool {
        &&& r is Err <==> (self.dma.source() matches Some(a) && !self.inner.can_read(a))
        &&& r is Err ==> *after == *self
        &&& r is Ok ==> self.stepped(after)
    }

    /// The check fails, changing nothing, exactly when the LCD's line counter no longer matches
    /// its clock; otherwise the LCD does the work of its line position and gives its interrupt.
    open spec fn interrupt_result(&self, r: Result<Option<Interrupt>, Fault>, after: &GBHandlerHolder) -> bool {
        &&& r is Err <==> !self.inner.ppu.scan_ready()
        &&& r is Err ==> *after == *self
        &&& r matches Ok(i) ==> *after == (GBHandlerHolder { inner: InnerHandlerHolder { ppu: after.inner.ppu,
            ..self.inner }, ..*self }) && line_step(self.inner.ppu, self.dma.oam_ram@, after.inner.ppu, i)
    }

    #[verifier::spinoff_prover]
    fn readable(&self, address: u16) -> (r: bool) {
        GBHandlerHolder::readable(self, address)
    }

    #[verifier::spinoff_prover]
    fn writable(&self, address: u16, v: u8) -> (r: bool) {
        GBHandlerHolder::writable(self, address, v)
    }

    #[verifier::spinoff_prover]
    fn read(&self, address: u16) -> (r: u8) {
        GBHandlerHolder::read(self, address)
    }

    #[verifier::spinoff_prover]
    fn write(&mut self, address: u16, v: u8) {
        GBHandlerHolder::write(self, address, v)
    }

    /// Fails when the running DMA transfer would copy from an address that nothing answers.
    #[verifier::spinoff_prover]
    fn cpu_step(&mut self) -> (r: Result<(), Fault>) {
        if self.dma.running && self.dma.cycles >= 1 && self.dma.cycles <= 160 {
            let source = (self.dma.base as usize + self.dma.cycles - 1) as u16;
            if !self.inner.readable(source) {
                return Err(Fault::Bus);
            }
        }
        GBHandlerHolder::cpu_step(self);
        Ok(())
    }

    /// Fails when the LCD's line counter no longer matches its clock (after a write to LY).
    #[verifier::spinoff_prover]
    fn check_interrupts(&mut self) -> (r: Result<Option<Interrupt>, Fault>) {
        if !self.inner.ppu.is_scan_ready() {
            return Err(Fault::Bus);
        }
        Ok(GBHandlerHolder::check_interrupts(self))
    }
}


/// `x + 1` on a word, wrapping.
pub open spec fn next16(x: u16) -> u16 {
    ((x + 1) % 65536) as u16
}

/// `x - 1` on a word, wrapping.
pub open spec fn prev16(x: u16) -> u16 {
    ((x + 65535) % 65536) as u16
}

/// The word of a low and a high byte.
pub open spec fn word(lo: u8, hi: u8) -> u16 {
    (lo + 256 * hi) as u16
}

pub open spec fn get8(r: Registers, x: R8) -> u8 {
    match x {
        R8::B => r.b,
        R8::C => r.c,
        R8::D => r.d,
        R8::E => r.e,
        R8::H => r.h,
        R8::L => r.l,
        _ => r.a,
    }
}

pub open spec fn set8(r: Registers, x: R8, v: u8) -> Registers {
    match x {
        R8::B => Registers { b: v, ..r },
        R8::C => Registers { c: v, ..r },
        R8::D => Registers { d: v, ..r },
        R8::E => Registers { e: v, ..r },
        R8::H => Registers { h: v, ..r },
        R8::L => Registers { l: v, ..r },
        _ => Registers { a: v, ..r },
    }
}

pub open spec fn hl(r: Registers) -> u16 {
    word(r.l, r.h)
}

pub open spec fn get16(r: Registers, x: R16) -> u16 {
    match x {
        R16::BC => word(r.c, r.b),
        R16::DE => word(r.e, r.d),
        R16::HL => word(r.l, r.h),
        R16::SP => r.sp,
    }
}

pub open spec fn set16(r: Registers, x: R16, v: u16) -> Registers {
    match x {
        R16::BC => Registers { b: (v / 256) as u8, c: (v % 256) as u8, ..r },
        R16::DE => Registers { d: (v / 256) as u8, e: (v % 256) as u8, ..r },
        R16::HL => Registers { h: (v / 256) as u8, l: (v % 256) as u8, ..r },
        R16::SP => Registers { sp: v, ..r },
    }
}

/// The high and low byte that PUSH puts on the stack.
pub open spec fn stack_pair(r: Registers, x: R16Stack) -> (u8, u8) {
    match x {
        R16Stack::BC => (r.b, r.c),
        R16Stack::DE => (r.d, r.e),
        R16Stack::HL => (r.h, r.l),
        R16Stack::AF => (r.a, pack_flags(r.flags) as u8),
    }
}

/// The registers after POP of the low byte `lo` and the high byte `hi`.
pub open spec fn pop_into(r: Registers, x: R16Stack, lo: u8, hi: u8) -> Registers {
    match x {
        R16Stack::BC => Registers { b: hi, c: lo, ..r },
        R16Stack::DE => Registers { d: hi, e: lo, ..r },
        R16Stack::HL => Registers { h: hi, l: lo, ..r },
        R16Stack::AF => Registers { a: hi, flags: unpack_flags(lo), ..r },
    }
}

pub open spec fn cond_holds(f: Flags, c: Cond) -> bool {
    match c {
        Cond::NZ => !f.z,
        Cond::Z => f.z,
        Cond::NC => !f.c,
        Cond::C => f.c,
    }
}

/// The result and the flags of an ALU operation on A and `y`.
pub open spec fn alu_result(op: AluOp, a: u8, y: u8, f: Flags) -> (u8, Flags) {
    let carry: int = if f.c { 1 } else { 0 };
    match op {
        AluOp::Add => {
            let r = ((a + y) % 256) as u8;
            (r, Flags { z: r == 0, n: false, h: a % 16 + y % 16 > 15, c: a + y > 255 })
        },
        AluOp::Adc => {
            let r = ((a + y + carry) % 256) as u8;
            (r, Flags { z: r == 0, n: false, h: a % 16 + y % 16 + carry > 15, c: a + y + carry > 255 })
        },
        AluOp::Sub => (((a - y + 256) % 256) as u8, Flags { z: a == y, n: true, h: a % 16 < y % 16, c: a < y }),
        AluOp::Sbc => {
            let r = ((a - y - carry + 512) % 256) as u8;
            (r, Flags { z: r == 0, n: true, h: a % 16 - y % 16 - carry < 0, c: a - y - carry < 0 })
        },
        AluOp::And => (a & y, Flags { z: a & y == 0, n: false, h: true, c: false }),
        AluOp::Xor => (a ^ y, Flags { z: a ^ y == 0, n: false, h: false, c: false }),
        AluOp::Or => (a | y, Flags { z: a | y == 0, n: false, h: false, c: false }),
        AluOp::Cp => (a, Flags { z: a == y, n: true, h: a % 16 < y % 16, c: a < y }),
    }
}

/// The result and the flags of a rotation or shift of the $CB page.
pub open spec fn shift_result(op: ShiftOp, x: u8, f: Flags) -> (u8, Flags) {
    let r: int = match op {
        ShiftOp::Rlc => (x * 2) % 256 + x / 128,
        ShiftOp::Rrc => x / 2 + (x % 2) * 128,
        ShiftOp::Rl => (x * 2) % 256 + (if f.c { 1int } else { 0 }),
        ShiftOp::Rr => x / 2 + (if f.c { 128int } else { 0 }),
        ShiftOp::Sla => (x * 2) % 256,
        ShiftOp::Sra => x / 2 + (x / 128) * 128,
        ShiftOp::Swap => (x % 16) * 16 + x / 16,
        ShiftOp::Srl => (x / 2) as int,
    };
    let c = match op {
        ShiftOp::Rlc | ShiftOp::Rl | ShiftOp::Sla => x >= 128,
        ShiftOp::Swap => false,
        _ => x % 2 == 1,
    };
    (r as u8, Flags { z: r == 0, n: false, h: false, c: c })
}

/// The offset of JR for its operand byte: bytes above $81 count backwards.
pub open spec fn jr_offset(n: u8) -> int {
    if n > 0x81 { n - 256 } else { n as int }
}

/// The addresses that hold no code, where a jump is refused: video RAM, cartridge RAM, echo
/// RAM and the I/O registers.
pub open spec fn no_code(v: u16) -> bool {
    (0x8000 < v < 0xC000) || (0xE000 < v < 0xFF80)
}

/// What an instruction does: the registers after it (with the PC where it leaves it), the
/// addresses that it reads in order, what it writes in order, the clock cycles that it takes
/// besides its fetch, whether it jumps, what it does to the interrupt master enable
/// (`Some(false)`: disable, `Some(true)`: enable after the next instruction) and to the CPU's
/// state. `v` holds the bytes that it reads, in order.
pub struct Effect {
    pub regs: Registers,
    pub reads: Seq<u16>,
    pub writes: Seq<(u16, u8)>,
    pub cycles: nat,
    pub jump: bool,
    pub ime: Option<bool>,
    pub state: Option<CpuState>,
}

/// An effect without memory accesses, jumps or changes of the interrupts or the state.
pub open spec fn plain(regs: Registers, reads: Seq<u16>, writes: Seq<(u16, u8)>, cycles: nat) -> Effect {
    Effect { regs, reads, writes, cycles, jump: false, ime: None, state: None }
}

/// A jump to `target` after the registers `regs`.
pub open spec fn jump_to(regs: Registers, target: u16, reads: Seq<u16>, writes: Seq<(u16, u8)>, cycles: nat) -> Effect {
    Effect { regs: Registers { pc: target, ..regs }, reads, writes, cycles, jump: true, ime: None, state: None }
}

#[verifier::opaque]
pub open spec fn effect(ins: Instruction, r: Registers, v: Seq<u8>) -> Effect {
    let pc1 = next16(r.pc);
    let pc2 = next16(pc1);
    let n = v[0];
    let nn = word(v[0], v[1]);
    let f = r.flags;
    match ins {
        Instruction::Nop => plain(r, seq![], seq![], 0),
        Instruction::Stop => Effect { state: Some(CpuState::Stop), ..plain(r, seq![], seq![], 0) },
        Instruction::Halt => Effect { state: Some(CpuState::Halt), ..plain(r, seq![], seq![], 0) },
        Instruction::Di => Effect { ime: Some(false), ..plain(r, seq![], seq![], 0) },
        Instruction::Ei => Effect { ime: Some(true), ..plain(r, seq![], seq![], 0) },
        Instruction::LdR16Imm(x) => plain(set16(Registers { pc: pc2, ..r }, x, nn), seq![pc1, pc2], seq![], 8),
        Instruction::LdIndA(ind) => {
            let (a, r2) = match ind {
                Indirect::BC => (get16(r, R16::BC), r),
                Indirect::DE => (get16(r, R16::DE), r),
                Indirect::HLInc => (hl(r), set16(r, R16::HL, next16(hl(r)))),
                Indirect::HLDec => (hl(r), set16(r, R16::HL, prev16(hl(r)))),
            };
            plain(r2, seq![], seq![(a, r.a)], 4)
        },
        Instruction::LdAInd(ind) => {
            let (a, r2) = match ind {
                Indirect::BC => (get16(r, R16::BC), r),
                Indirect::DE => (get16(r, R16::DE), r),
                Indirect::HLInc => (hl(r), set16(r, R16::HL, next16(hl(r)))),
                Indirect::HLDec => (hl(r), set16(r, R16::HL, prev16(hl(r)))),
            };
            plain(Registers { a: n, ..r2 }, seq![a], seq![], 4)
        },
        Instruction::IncR16(x) => plain(set16(r, x, next16(get16(r, x))), seq![], seq![], 4),
        Instruction::DecR16(x) => plain(set16(r, x, prev16(get16(r, x))), seq![], seq![], 4),
        Instruction::AddHl(x) => {
            let y = get16(r, x);
            let h = hl(r);
            plain(Registers { flags: Flags { z: f.z, n: false, h: h % 4096 + y % 4096 > 4095, c: h + y > 65535 },
                ..set16(r, R16::HL, ((h + y) % 65536) as u16) }, seq![], seq![], 4)
        },
        Instruction::IncR8(x) => {
            let old_v = if x == R8::HLInd { n } else { get8(r, x) };
            let res = ((old_v + 1) % 256) as u8;
            let r2 = Registers { flags: Flags { z: res == 0, n: false, h: old_v % 16 == 15, c: f.c }, ..r };
            if x == R8::HLInd { plain(r2, seq![hl(r)], seq![(hl(r), res)], 8) } else { plain(set8(r2, x, res), seq![],
                seq![], 0) }
        },
        Instruction::DecR8(x) => {
            let old_v = if x == R8::HLInd { n } else { get8(r, x) };
            let res = ((old_v + 255) % 256) as u8;
            let r2 = Registers { flags: Flags { z: res == 0, n: true, h: old_v % 16 == 0, c: f.c }, ..r };
            if x == R8::HLInd { plain(r2, seq![hl(r)], seq![(hl(r), res)], 8) } else { plain(set8(r2, x, res), seq![],
                seq![], 0) }
        },
        Instruction::LdR8Imm(x) => {
            let r2 = Registers { pc: pc1, ..r };
            if x == R8::HLInd { plain(r2, seq![pc1], seq![(hl(r), n)], 8) } else { plain(set8(r2, x, n), seq![pc1],
                seq![], 4) }
        },
        Instruction::Rlca => {
            let (res, f2) = shift_result(ShiftOp::Rlc, r.a, f);
            plain(Registers { a: res, flags: Flags { z: false, ..f2 }, ..r }, seq![], seq![], 0)
        },
        Instruction::Rrca => {
            let (res, f2) = shift_result(ShiftOp::Rrc, r.a, f);
            plain(Registers { a: res, flags: Flags { z: false, ..f2 }, ..r }, seq![], seq![], 0)
        },
        Instruction::Rla => {
            let (res, f2) = shift_result(ShiftOp::Rl, r.a, f);
            plain(Registers { a: res, flags: Flags { z: false, ..f2 }, ..r }, seq![], seq![], 0)
        },
        Instruction::Rra => {
            let (res, f2) = shift_result(ShiftOp::Rr, r.a, f);
            plain(Registers { a: res, flags: Flags { z: false, ..f2 }, ..r }, seq![], seq![], 0)
        },
        Instruction::Daa => {
            let res = ((daa_value(r.a, f) + 512) % 256) as u8;
            plain(Registers { a: res, flags: Flags { z: res == 0, n: f.n, h: false, c: f.c || bit8(daa_value(r.a, f)) },
                ..r }, seq![], seq![], 0)
        },
        Instruction::Cpl => plain(Registers { a: (255 - r.a) as u8, flags: Flags { n: true, h: true, ..f }, ..r }, seq![],
            seq![], 0),
        Instruction::Scf => plain(Registers { flags: Flags { z: f.z, n: false, h: false, c: true }, ..r }, seq![], seq![],
            0),
        Instruction::Ccf => plain(Registers { flags: Flags { z: f.z, n: false, h: false, c: !f.c }, ..r }, seq![],
            seq![], 0),
        Instruction::LdImmSp => plain(Registers { pc: pc2, ..r }, seq![pc1, pc2], seq![(nn, (r.sp % 256) as u8), (
            next16(nn), (r.sp / 256) as u8)], 16),
        Instruction::Jr => jump_to(r, ((pc1 + jr_offset(n) + 1 + 65536) % 65536) as u16, seq![pc1], seq![], 8),
        Instruction::JrCond(c) => if cond_holds(f, c) {
            jump_to(r, ((pc1 + jr_offset(n) + 1 + 65536) % 65536) as u16, seq![pc1], seq![], 8)
        } else {
            plain(Registers { pc: pc1, ..r }, seq![pc1], seq![], 4)
        },
        Instruction::LdR8R8(d, x) => {
            if x == R8::HLInd {
                plain(set8(r, d, n), seq![hl(r)], seq![], 4)
            } else if d == R8::HLInd {
                plain(r, seq![], seq![(hl(r), get8(r, x))], 4)
            } else {
                plain(set8(r, d, get8(r, x)), seq![], seq![], 0)
            }
        },
        Instruction::Alu(op, x) => {
            let y = if x == R8::HLInd { n } else { get8(r, x) };
            let (res, f2) = alu_result(op, r.a, y, f);
            plain(Registers { a: res, flags: f2, ..r }, if x == R8::HLInd { seq![hl(r)] } else { seq![] }, seq![],
                if x == R8::HLInd { 4 } else { 0 })
        },
        Instruction::AluImm(op) => {
            let (res, f2) = alu_result(op, r.a, n, f);
            plain(Registers { a: res, flags: f2, pc: pc1, ..r }, seq![pc1], seq![], 4)
        },
        Instruction::Ret => jump_to(Registers { sp: next16(next16(r.sp)), ..r }, nn, seq![r.sp, next16(r.sp)], seq![],
            12),
        Instruction::RetCond(c) => if cond_holds(f, c) {
            jump_to(Registers { sp: next16(next16(r.sp)), ..r }, nn, seq![r.sp, next16(r.sp)], seq![], 16)
        } else {
            plain(r, seq![], seq![], 4)
        },
        Instruction::Reti => Effect { ime: Some(true), ..jump_to(Registers { sp: next16(next16(r.sp)), ..r }, nn, seq![
            r.sp, next16(r.sp)], seq![], 12) },
        Instruction::Pop(x) => plain(pop_into(Registers { sp: next16(next16(r.sp)), ..r }, x, v[0], v[1]), seq![r.sp,
            next16(r.sp)], seq![], 8),
        Instruction::Push(x) => {
            let (hi, lo) = stack_pair(r, x);
            plain(Registers { sp: prev16(prev16(r.sp)), ..r }, seq![], seq![(prev16(r.sp), hi), (prev16(prev16(r.sp)),
                lo)], 12)
        },
        Instruction::Jp => jump_to(Registers { pc: pc2, ..r }, nn, seq![pc1, pc2], seq![], 12),
        Instruction::JpCond(c) => if cond_holds(f, c) {
            jump_to(Registers { pc: pc2, ..r }, nn, seq![pc1, pc2], seq![], 12)
        } else {
            plain(Registers { pc: pc2, ..r }, seq![pc1, pc2], seq![], 8)
        },
        Instruction::JpHl => jump_to(r, hl(r), seq![], seq![], 0),
        Instruction::Call => {
            let ret = next16(pc2);
            jump_to(Registers { sp: prev16(prev16(r.sp)), ..r }, nn, seq![pc1, pc2], seq![(prev16(r.sp), (ret / 256) as u8),
                (prev16(prev16(r.sp)), (ret % 256) as u8)], 20)
        },
        Instruction::CallCond(c) => if cond_holds(f, c) {
            let ret = next16(pc2);
            jump_to(Registers { sp: prev16(prev16(r.sp)), ..r }, nn, seq![pc1, pc2], seq![(prev16(r.sp), (ret / 256) as u8),
                (prev16(prev16(r.sp)), (ret % 256) as u8)], 20)
        } else {
            plain(Registers { pc: pc2, ..r }, seq![pc1, pc2], seq![], 8)
        },
        Instruction::Rst(k) => jump_to(Registers { sp: prev16(prev16(r.sp)), ..r }, (8 * k) as u16, seq![], seq![(
            prev16(r.sp), (pc1 / 256) as u8), (prev16(prev16(r.sp)), (pc1 % 256) as u8)], 12),
        Instruction::LdhImmA => plain(Registers { pc: pc1, ..r }, seq![pc1], seq![((0xFF00 + n) as u16, r.a)], 8),
        Instruction::LdhAImm => plain(Registers { pc: pc1, a: v[1], ..r }, seq![pc1, (0xFF00 + n) as u16], seq![], 8),
        Instruction::LdhCA => plain(r, seq![], seq![((0xFF00 + r.c) as u16, r.a)], 4),
        Instruction::LdhAC => plain(Registers { a: n, ..r }, seq![(0xFF00 + r.c) as u16], seq![], 4),
        Instruction::LdAbsA => plain(Registers { pc: pc2, ..r }, seq![pc1, pc2], seq![(nn, r.a)], 12),
        Instruction::LdAAbs => plain(Registers { pc: pc2, a: v[2], ..r }, seq![pc1, pc2, nn], seq![], 12),
        Instruction::AddSpImm => plain(Registers { pc: pc1, sp: ((r.sp + (if n < 128 { n as int } else { n - 256 })
            + 65536) % 65536) as u16, flags: Flags { z: false, n: false, h: r.sp % 16 + n % 16 > 15, c: r.sp % 256 + n
            > 255 }, ..r }, seq![pc1], seq![], 12),
        Instruction::LdHlSpImm => plain(Registers { pc: pc1, flags: Flags { z: false, n: false, h: r.sp % 16 + n % 16
            > 15, c: r.sp % 256 + n > 255 }, ..set16(r, R16::HL, ((r.sp + (if n < 128 { n as int } else { n - 256 })
            + 65536) % 65536) as u16) }, seq![pc1], seq![], 8),
        Instruction::LdSpHl => plain(Registers { sp: hl(r), ..r }, seq![], seq![], 4),
        Instruction::Shift(op, x) => {
            let old_v = if x == R8::HLInd { n } else { get8(r, x) };
            let (res, f2) = shift_result(op, old_v, f);
            let r2 = Registers { flags: f2, ..r };
            if x == R8::HLInd { plain(r2, seq![hl(r)], seq![(hl(r), res)], 8) } else { plain(set8(r2, x, res), seq![],
                seq![], 0) }
        },
        Instruction::Bit(b, x) => {
            let old_v = if x == R8::HLInd { n } else { get8(r, x) };
            plain(Registers { flags: Flags { z: !has_bit(old_v, b), n: false, h: true, c: f.c }, ..r }, if x
                == R8::HLInd { seq![hl(r)] } else { seq![] }, seq![], if x == R8::HLInd { 4 } else { 0 })
        },
        Instruction::ResBit(b, x) => {
            let old_v = if x == R8::HLInd { n } else { get8(r, x) };
            let res = !bit_mask(b) & old_v;
            if x == R8::HLInd { plain(r, seq![hl(r)], seq![(hl(r), res)], 8) } else { plain(set8(r, x, res), seq![],
                seq![], 0) }
        },
        Instruction::SetBit(b, x) => {
            let old_v = if x == R8::HLInd { n } else { get8(r, x) };
            let res = bit_mask(b) | old_v;
            if x == R8::HLInd { plain(r, seq![hl(r)], seq![(hl(r), res)], 8) } else { plain(set8(r, x, res), seq![],
                seq![], 0) }
        },
    }
}


/// The addresses that the interrupt handler answers: the timer ($FF04-$FF07) and the interrupt
/// request and enable registers ($FF0F, $FFFF).
pub open spec fn is_timer_or_interrupt(address: u16) -> bool {
    address == 0xFF0F || address == 0xFFFF || (0xFF04 <= address <= 0xFF07)
}

/// The addresses of a list of accesses.
pub open spec fn addresses(s: Seq<(u16, u8)>) -> Seq<u16> {
    s.map_values(|p: (u16, u8)| p.0)
}

/// The bytes of a list of accesses.
pub open spec fn values(s: Seq<(u16, u8)>) -> Seq<u8> {
    s.map_values(|p: (u16, u8)| p.1)
}

#[verifier::spinoff_prover]
proof fn lemma_push_access(s: Seq<(u16, u8)>, p: (u16, u8))
    ensures
        addresses(s.push(p)) == addresses(s).push(p.0),
        values(s.push(p)) == values(s).push(p.1),
{
    assert(addresses(s.push(p)) =~= addresses(s).push(p.0));
    assert(values(s.push(p)) =~= values(s).push(p.1));
}

/// What one instruction did on the bus: the bytes it read and wrote, each with its address, in
/// order, and the clock cycles it took besides its fetch.
pub struct Access {
    pub reads: Vec<(u16, u8)>,
    pub writes: Vec<(u16, u8)>,
    pub cycles: u64,
}

/// The CPU and the bus that it runs on.
pub struct Cpu<H: HandlerHolder> {
    pub regs: Registers,
    pub state: CpuState,
    /// The running instruction has set the PC.
    pub called_set_pc: bool,
    /// Clock cycles since power-up, wrapping.
    pub cycles: u64,
    /// The interrupt registers, the master enable and the timer.
    pub interrupt_handler: InterruptHandler,
    /// Each instruction is printed before it runs.
    pub debug: bool,
    pub handler_holder: H,
    /// The addresses whose access stops the emulator in the debugger.
    pub watch_addresses: Vec<u16>,
    /// A watched address was accessed.
    pub address_breakpoint: bool,
}

impl<H: HandlerHolder> Cpu<H> {
    /// Fault `f` is what this CPU, as it stands after the failure, shows: a read or a write of an
    /// address that the bus refuses (the interrupt and timer registers take every access), a
    /// bus that refuses a step or its interrupt check, a jump where no code can be, or, at the
    /// PC, a byte that is not an instruction.
    pub open spec fn explains(&self, f: Fault) -> bool {
        match f {
            Fault::Read(a) => !is_timer_or_interrupt(a) && !self.handler_holder.can_read(a),
            Fault::Write(a, v) => !is_timer_or_interrupt(a) && !self.handler_holder.can_write(a, v),
            Fault::Bus => self.handler_holder.step_result(Err(Fault::Bus), &self.handler_holder)
                || self.handler_holder.interrupt_result(Err(Fault::Bus), &self.handler_holder),
            Fault::Jump(t) => no_code(t),
            Fault::IllegalOpcode { prefixed, byte } => {
                &&& (if prefixed { crate::opcode::decode_cb_spec(byte) } else { crate::opcode::decode_spec(byte) }) is None
                &&& !is_timer_or_interrupt(self.regs.pc) ==> self.handler_holder.read_result(self.regs.pc, byte)
            },
        }
    }

    pub open spec fn wf(&self) -> bool {
        &&& self.handler_holder.wf()
        &&& self.interrupt_handler.timer_controller.state().pending < 16
    }

    /// What the bus accesses keep: the state, the PC flag, the master enable, the debug switch
    /// and the watched addresses.
    pub open spec fn kept(&self, other: &Cpu<H>) -> bool {
        &&& other.state == self.state
        &&& other.called_set_pc == self.called_set_pc
        &&& other.interrupt_handler.enabled == self.interrupt_handler.enabled
        &&& other.debug == self.debug
        &&& other.watch_addresses == self.watch_addresses
    }

    /// A CPU in the state that the boot ROM leaves, on the bus `handler_holder`.
    #[verifier::spinoff_prover]
    pub fn new(handler_holder: H) -> (r: Cpu<H>)
        requires
            handler_holder.wf(),
        ensures
            r.wf(),
            r.regs == (Registers { a: 0x01, b: 0x00, c: 0x13, d: 0x00, e: 0xD8, h: 0x01, l: 0x4D, sp: 0xFFFE, pc: 0x0100,
                flags: Flags { z: false, n: false, h: false, c: false } }),
            r.state == CpuState::Running,
            !r.called_set_pc,
            r.cycles == 0,
            r.interrupt_handler.enabled == InterruptStatus::Enabled,
            r.interrupt_handler.register.spec_requested() == 0,
            r.interrupt_handler.register.spec_enabled() == 0,
            !r.debug,
            r.handler_holder == handler_holder,
            r.watch_addresses@ == Seq::<u16>::empty(),
            !r.address_breakpoint,
    {
        Cpu {
            regs: Registers::new(),
            state: CpuState::Running,
            called_set_pc: false,
            cycles: 0,
            interrupt_handler: InterruptHandler::new(),
            debug: false,
            handler_holder,
            watch_addresses: Vec::new(),
            address_breakpoint: false,
        }
    }

    #[verifier::spinoff_prover]
    fn watched(&self, address: u16) -> (r: bool)
        ensures
            r == self.watch_addresses@.contains(address),
    {
        let mut i: usize = 0;
        while i < self.watch_addresses.len()
            invariant
                i <= self.watch_addresses@.len(),
                forall|j: int| 0 <= j < i ==> self.watch_addresses@[j] != address,
            decreases self.watch_addresses@.len() - i,
        {
            if self.watch_addresses[i] == address {
                return true;
            }
            i = i + 1;
        }
        false
    }

    /// Reads `address`: the interrupt and timer registers from the interrupt handler, the rest
    /// from the bus; a watched address raises the address breakpoint.
    #[verifier::spinoff_prover]
    pub fn deref(&mut self, address: u16) -> (r: Result<u8, Fault>)
        requires
            old(self).wf(),
        ensures
            final(self).wf(),
            final(self).regs == old(self).regs,
            old(self).kept(&*final(self)),
            r is Err ==> r == Err::<u8, Fault>(Fault::Read(address)),
            r is Err <==> !is_timer_or_interrupt(address) && !old(self).handler_holder.can_read(address),
            r matches Ok(v) ==> (address == 0xFF0F || address == 0xFFFF ==> v
                == old(self).interrupt_handler.register.read_spec(address)),
            r matches Ok(v) ==> (0xFF04 <= address <= 0xFF07 ==> v == crate::timer::read_spec(
                old(self).interrupt_handler.timer_controller.state(), address)),
            r matches Ok(v) ==> (!is_timer_or_interrupt(address) ==> old(self).handler_holder.read_result(address, v)),
            *final(self) == (Cpu { address_breakpoint: final(self).address_breakpoint, ..*old(self) }),
            final(self).address_breakpoint == (old(self).address_breakpoint || old(self).watch_addresses@.contains(
                address)),
            old(self).handler_holder.faultless() ==> r is Ok,
            r matches Err(f) ==> !(f is IllegalOpcode),
            r matches Err(f) ==> final(self).explains(f),
    {
        if self.watched(address) {
            self.address_breakpoint = true;
        }
        if address == 0xFF0F || address == 0xFFFF || (address >= 0xFF04 && address <= 0xFF07) {
            Ok(self.interrupt_handler.read(address))
        } else if self.handler_holder.readable(address) {
            Ok(self.handler_holder.read(address))
        } else {
            Err(Fault::Read(address))
        }
    }

    /// Writes `v` to `address`, routed as `deref` routes reads.
    #[verifier::spinoff_prover]
    pub fn set_deref(&mut self, address: u16, v: u8) -> (r: Result<(), Fault>)
        requires
            old(self).wf(),
        ensures
            final(self).wf(),
            final(self).regs == old(self).regs,
            old(self).kept(&*final(self)),
            r is Err ==> r == Err::<(), Fault>(Fault::Write(address, v)),
            r is Err <==> !is_timer_or_interrupt(address) && !old(self).handler_holder.can_write(address, v),
            is_timer_or_interrupt(address) ==> final(self).handler_holder == old(self).handler_holder,
            !is_timer_or_interrupt(address) ==> final(self).interrupt_handler == old(self).interrupt_handler,
            r is Ok && !is_timer_or_interrupt(address) ==> old(self).handler_holder.write_result(address, v,
                &final(self).handler_holder),
            r is Err ==> final(self).handler_holder == old(self).handler_holder,
            address == 0xFF0F || address == 0xFFFF ==> final(self).interrupt_handler == (InterruptHandler {
                register: final(self).interrupt_handler.register, ..old(self).interrupt_handler })
                && final(self).interrupt_handler.register.read_spec(0xFF0F) == (if address == 0xFF0F { (v
                & 0b00011111u8) as int } else { old(self).interrupt_handler.register.read_spec(0xFF0F) })
                && final(self).interrupt_handler.register.read_spec(0xFFFF) == (if address == 0xFFFF { (v
                & 0b00011111u8) as int } else { old(self).interrupt_handler.register.read_spec(0xFFFF) }),
            0xFF04 <= address <= 0xFF07 ==> final(self).interrupt_handler.register == old(self).interrupt_handler.register
                && final(self).interrupt_handler.timer_controller.state() == crate::timer::write_spec(
                old(self).interrupt_handler.timer_controller.state(), address, v),
            *final(self) == (Cpu { handler_holder: final(self).handler_holder, interrupt_handler:
                final(self).interrupt_handler, address_breakpoint: final(self).address_breakpoint, ..*old(self) }),
            final(self).address_breakpoint == (old(self).address_breakpoint || old(self).watch_addresses@.contains(
                address)),
            old(self).handler_holder.faultless() ==> r is Ok && final(self).handler_holder.faultless(),
            r matches Err(f) ==> !(f is IllegalOpcode),
            r matches Err(f) ==> final(self).explains(f),
    {
        if self.watched(address) {
            self.address_breakpoint = true;
        }
        if address == 0xFF0F || address == 0xFFFF || (address >= 0xFF04 && address <= 0xFF07) {
            self.interrupt_handler.write(address, v);
            Ok(())
        } else if self.handler_holder.writable(address, v) {
            self.handler_holder.write(address, v);
            Ok(())
        } else {
            Err(Fault::Write(address, v))
        }
    }

    /// Runs the timer and the components on the bus for 4 clock cycles.
    #[verifier::spinoff_prover]
    fn tick(&mut self, acc: &mut Access) -> (r: Result<(), Fault>)
        requires
            old(self).wf(),
            old(acc).cycles <= 1000,
        ensures
            final(self).wf(),
            final(self).regs == old(self).regs,
            old(self).kept(&*final(self)),
            final(acc).reads == old(acc).reads,
            final(acc).writes == old(acc).writes,
            final(acc).cycles == old(acc).cycles + 4,
            old(self).handler_holder.faultless() ==> r is Ok && final(self).handler_holder.faultless(),
            r is Err ==> r == Err::<(), Fault>(Fault::Bus),
            old(self).handler_holder.step_result(r, &final(self).handler_holder),
            r matches Err(f) ==> !(f is IllegalOpcode),
            r matches Err(f) ==> final(self).explains(f),
    {
        acc.cycles = acc.cycles + 4;
        self.step_components()
    }

    /// Runs the timer and the components on the bus for 4 clock cycles, outside an instruction.
    #[verifier::spinoff_prover]
    fn step_components(&mut self) -> (r: Result<(), Fault>)
        requires
            old(self).wf(),
        ensures
            final(self).wf(),
            final(self).regs == old(self).regs,
            old(self).kept(&*final(self)),
            old(self).handler_holder.faultless() ==> r is Ok && final(self).handler_holder.faultless(),
            r is Err ==> r == Err::<(), Fault>(Fault::Bus),
            final(self).cycles == (old(self).cycles + 4) % 0x1_0000_0000_0000_0000int,
            final(self).interrupt_handler.timer_controller.state() == crate::timer::run(old(self).interrupt_handler.timer_controller.state(), 4).0,
            final(self).interrupt_handler.register == (InterruptRegister { timer: old(self).interrupt_handler.register.timer
                || (crate::timer::run(old(self).interrupt_handler.timer_controller.state(), 4).1 && crate::bitfield::bit_of(
                old(self).interrupt_handler.timer_controller.state().control, 2) == 1), ..old(self).interrupt_handler.register }),
            old(self).handler_holder.step_result(r, &final(self).handler_holder),
            r matches Err(f) ==> !(f is IllegalOpcode),
            r matches Err(f) ==> final(self).explains(f),
    {
        self.cycles = self.cycles.wrapping_add(4);
        self.interrupt_handler.add_cycles(4);
        self.handler_holder.cpu_step()
    }

    /// Reads `address` after a step of the components.
    #[verifier::spinoff_prover]
    fn read_at(&mut self, address: u16, acc: &mut Access) -> (r: Result<u8, Fault>)
        requires
            old(self).wf(),
            old(acc).cycles <= 1000,
        ensures
            final(self).wf(),
            final(self).regs == old(self).regs,
            old(self).kept(&*final(self)),
            final(acc).writes == old(acc).writes,
            final(acc).cycles == old(acc).cycles + 4,
            r matches Ok(v) ==> addresses(final(acc).reads@) == addresses(old(acc).reads@).push(address) && values(
                final(acc).reads@) == values(old(acc).reads@).push(v),
            old(self).handler_holder.faultless() ==> r is Ok && final(self).handler_holder.faultless(),
            r matches Err(f) ==> !(f is IllegalOpcode),
            r matches Err(f) ==> final(self).explains(f),
    {
        self.tick(acc)?;
        let v = self.deref(address)?;
        proof { lemma_push_access(acc.reads@, (address, v)); }
        acc.reads.push((address, v));
        Ok(v)
    }

    /// Writes `v` to `address` after a step of the components.
    #[verifier::spinoff_prover]
    fn write_at(&mut self, address: u16, v: u8, acc: &mut Access) -> (r: Result<(), Fault>)
        requires
            old(self).wf(),
            old(acc).cycles <= 1000,
        ensures
            final(self).wf(),
            final(self).regs == old(self).regs,
            old(self).kept(&*final(self)),
            final(acc).reads == old(acc).reads,
            final(acc).cycles == old(acc).cycles + 4,
            r is Ok ==> final(acc).writes@ == old(acc).writes@.push((address, v)),
            old(self).handler_holder.faultless() ==> r is Ok && final(self).handler_holder.faultless(),
            r matches Err(f) ==> !(f is IllegalOpcode),
            r matches Err(f) ==> final(self).explains(f),
    {
        self.tick(acc)?;
        self.set_deref(address, v)?;
        acc.writes.push((address, v));
        Ok(())
    }

    /// Reads the byte after the PC, which moves on to it.
    #[verifier::spinoff_prover]
    fn fetch(&mut self, acc: &mut Access) -> (r: Result<u8, Fault>)
        requires
            old(self).wf(),
            old(acc).cycles <= 1000,
        ensures
            final(self).wf(),
            r is Ok ==> final(self).regs == (Registers { pc: next16(old(self).regs.pc), ..old(self).regs }),
            old(self).kept(&*final(self)),
            final(acc).writes == old(acc).writes,
            final(acc).cycles == old(acc).cycles + 4,
            r matches Ok(v) ==> addresses(final(acc).reads@) == addresses(old(acc).reads@).push(next16(old(self).regs.pc))
                && values(final(acc).reads@) == values(old(acc).reads@).push(v),
            old(self).handler_holder.faultless() ==> r is Ok && final(self).handler_holder.faultless(),
            r matches Err(f) ==> !(f is IllegalOpcode),
            r matches Err(f) ==> final(self).explains(f),
    {
        self.tick(acc)?;
        self.regs.pc = if self.regs.pc == 0xFFFF { 0 } else { self.regs.pc + 1 };
        let pc = self.regs.pc;
        let v = self.deref(pc)?;
        proof { lemma_push_access(acc.reads@, (pc, v)); }
        acc.reads.push((pc, v));
        Ok(v)
    }

    /// Pushes `v` on the stack.
    #[verifier::spinoff_prover]
    fn push_byte(&mut self, v: u8, acc: &mut Access) -> (r: Result<(), Fault>)
        requires
            old(self).wf(),
            old(acc).cycles <= 1000,
        ensures
            final(self).wf(),
            r is Ok ==> final(self).regs == (Registers { sp: prev16(old(self).regs.sp), ..old(self).regs }),
            old(self).kept(&*final(self)),
            final(acc).reads == old(acc).reads,
            final(acc).cycles == old(acc).cycles + 4,
            r is Ok ==> final(acc).writes@ == old(acc).writes@.push((prev16(old(self).regs.sp), v)),
            old(self).handler_holder.faultless() ==> r is Ok && final(self).handler_holder.faultless(),
            r matches Err(f) ==> !(f is IllegalOpcode),
            r matches Err(f) ==> final(self).explains(f),
    {
        self.tick(acc)?;
        self.regs.sp = if self.regs.sp == 0 { 0xFFFF } else { self.regs.sp - 1 };
        let sp = self.regs.sp;
        self.set_deref(sp, v)?;
        acc.writes.push((sp, v));
        Ok(())
    }

    /// Pops a byte from the stack.
    #[verifier::spinoff_prover]
    fn pop_byte(&mut self, acc: &mut Access) -> (r: Result<u8, Fault>)
        requires
            old(self).wf(),
            old(acc).cycles <= 1000,
        ensures
            final(self).wf(),
            r is Ok ==> final(self).regs == (Registers { sp: next16(old(self).regs.sp), ..old(self).regs }),
            old(self).kept(&*final(self)),
            final(acc).writes == old(acc).writes,
            final(acc).cycles == old(acc).cycles + 4,
            r matches Ok(v) ==> addresses(final(acc).reads@) == addresses(old(acc).reads@).push(old(self).regs.sp)
                && values(final(acc).reads@) == values(old(acc).reads@).push(v),
            old(self).handler_holder.faultless() ==> r is Ok && final(self).handler_holder.faultless(),
            r matches Err(f) ==> !(f is IllegalOpcode),
            r matches Err(f) ==> final(self).explains(f),
    {
        self.tick(acc)?;
        let sp = self.regs.sp;
        let v = self.deref(sp)?;
        proof { lemma_push_access(acc.reads@, (sp, v)); }
        acc.reads.push((sp, v));
        self.regs.sp = if sp == 0xFFFF { 0 } else { sp + 1 };
        Ok(v)
    }

    /// Jumps to `v`; a jump where no code can be is refused.
    #[verifier::spinoff_prover]
    fn set_pc(&mut self, v: u16) -> (r: Result<(), Fault>)
        ensures
            r is Ok <==> !no_code(v),
            r is Err ==> r == Err::<(), Fault>(Fault::Jump(v)) && *final(self) == *old(self),
            r is Ok ==> *final(self) == (Cpu { regs: Registers { pc: v, ..old(self).regs }, called_set_pc: true,
                ..*old(self) }),
            r matches Err(f) ==> !(f is IllegalOpcode),
            r matches Err(f) ==> final(self).explains(f),
    {
        if (v > 0x8000 && v < 0xC000) || (v > 0xE000 && v < 0xFF80) {
            return Err(Fault::Jump(v));
        }
        self.regs.pc = v;
        self.called_set_pc = true;
        Ok(())
    }
}


#[verifier::spinoff_prover]
proof fn lemma_empty_access()
    ensures
        addresses(Seq::<(u16, u8)>::empty()) == Seq::<u16>::empty(),
        values(Seq::<(u16, u8)>::empty()) == Seq::<u8>::empty(),
{
    assert(addresses(Seq::<(u16, u8)>::empty()) =~= Seq::<u16>::empty());
    assert(values(Seq::<(u16, u8)>::empty()) =~= Seq::<u8>::empty());
}

#[verifier::spinoff_prover]
fn read_r8(r: &Registers, x: R8) -> (v: u8)
    ensures
        v == get8(*r, x),
{
    match x {
        R8::B => r.b,
        R8::C => r.c,
        R8::D => r.d,
        R8::E => r.e,
        R8::H => r.h,
        R8::L => r.l,
        _ => r.a,
    }
}

#[verifier::spinoff_prover]
fn write_r8(r: &mut Registers, x: R8, v: u8)
    ensures
        *final(r) == set8(*old(r), x, v),
{
    match x {
        R8::B => r.b = v,
        R8::C => r.c = v,
        R8::D => r.d = v,
        R8::E => r.e = v,
        R8::H => r.h = v,
        R8::L => r.l = v,
        _ => r.a = v,
    }
}

#[verifier::spinoff_prover]
fn read_hl(r: &Registers) -> (v: u16)
    ensures
        v == hl(*r),
{
    r.h as u16 * 256 + r.l as u16
}

#[verifier::spinoff_prover]
fn read_r16(r: &Registers, x: R16) -> (v: u16)
    ensures
        v == get16(*r, x),
{
    match x {
        R16::BC => r.b as u16 * 256 + r.c as u16,
        R16::DE => r.d as u16 * 256 + r.e as u16,
        R16::HL => r.h as u16 * 256 + r.l as u16,
        R16::SP => r.sp,
    }
}

#[verifier::spinoff_prover]
fn write_r16(r: &mut Registers, x: R16, v: u16)
    ensures
        *final(r) == set16(*old(r), x, v),
{
    match x {
        R16::BC => {
            r.b = (v / 256) as u8;
            r.c = (v % 256) as u8;
        },
        R16::DE => {
            r.d = (v / 256) as u8;
            r.e = (v % 256) as u8;
        },
        R16::HL => {
            r.h = (v / 256) as u8;
            r.l = (v % 256) as u8;
        },
        R16::SP => r.sp = v,
    }
}

/// A conditional relative jump, absolute jump, call or return on C is taken exactly when the
/// carry flag is set and on NC exactly when it is clear; on Z exactly when the zero flag is set
/// and on NZ exactly when it is clear. Read from the F register byte, the carry flag is bit 4.
#[verifier::spinoff_prover]
pub proof fn law_conditions_follow_flags(r: Registers, v: Seq<u8>, f_byte: u8)
    ensures
        effect(Instruction::JrCond(Cond::C), r, v).jump == r.flags.c,
        effect(Instruction::JrCond(Cond::NC), r, v).jump == !r.flags.c,
        effect(Instruction::JrCond(Cond::Z), r, v).jump == r.flags.z,
        effect(Instruction::JrCond(Cond::NZ), r, v).jump == !r.flags.z,
        effect(Instruction::JpCond(Cond::C), r, v).jump == r.flags.c,
        effect(Instruction::JpCond(Cond::NC), r, v).jump == !r.flags.c,
        effect(Instruction::JpCond(Cond::Z), r, v).jump == r.flags.z,
        effect(Instruction::JpCond(Cond::NZ), r, v).jump == !r.flags.z,
        effect(Instruction::CallCond(Cond::C), r, v).jump == r.flags.c,
        effect(Instruction::CallCond(Cond::NC), r, v).jump == !r.flags.c,
        effect(Instruction::CallCond(Cond::Z), r, v).jump == r.flags.z,
        effect(Instruction::CallCond(Cond::NZ), r, v).jump == !r.flags.z,
        effect(Instruction::RetCond(Cond::C), r, v).jump == r.flags.c,
        effect(Instruction::RetCond(Cond::NC), r, v).jump == !r.flags.c,
        effect(Instruction::RetCond(Cond::Z), r, v).jump == r.flags.z,
        effect(Instruction::RetCond(Cond::NZ), r, v).jump == !r.flags.z,
        effect(Instruction::JrCond(Cond::C), Registers { flags: unpack_flags(f_byte), ..r }, v).jump == (f_byte
            & 0x10u8 != 0),
        effect(Instruction::JrCond(Cond::NC), Registers { flags: unpack_flags(f_byte), ..r }, v).jump == (f_byte
            & 0x10u8 == 0),
{
    assert(cond_holds(r.flags, Cond::C) == r.flags.c && cond_holds(r.flags, Cond::NC) == !r.flags.c);
    assert(cond_holds(r.flags, Cond::Z) == r.flags.z && cond_holds(r.flags, Cond::NZ) == !r.flags.z);
    assert((f_byte / 16) % 2 == 1 <==> f_byte & 0x10u8 != 0) by (bit_vector);
    reveal(effect);
}

#[verifier::spinoff_prover]
fn cond_true(f: Flags, c: Cond) -> (b: bool)
    ensures
        b == cond_holds(f, c),
{
    match c {
        Cond::NZ => !f.z,
        Cond::Z => f.z,
        Cond::NC => !f.c,
        Cond::C => f.c,
    }
}

/// Applies an ALU operation to A and `y`.
#[verifier::spinoff_prover]
fn alu_apply(op: AluOp, a: u8, y: u8, f: &mut Flags) -> (r: u8)
    ensures
        (r, *final(f)) == alu_result(op, a, y, *old(f)),
{
    match op {
        AluOp::Add => crate::cpu::add(a, y, f),
        AluOp::Adc => crate::cpu::adc(a, y, f),
        AluOp::Sub => crate::cpu::sub(a, y, f),
        AluOp::Sbc => crate::cpu::sbc(a, y, f),
        AluOp::And => crate::cpu::and(a, y, f),
        AluOp::Xor => crate::cpu::xor(a, y, f),
        AluOp::Or => crate::cpu::or(a, y, f),
        AluOp::Cp => crate::cpu::cp(a, y, f),
    }
}

/// Applies a rotation or shift of the $CB page to `x`.
#[verifier::spinoff_prover]
fn shift_apply(op: ShiftOp, x: u8, f: &mut Flags) -> (r: u8)
    ensures
        (r, *final(f)) == shift_result(op, x, *old(f)),
{
    match op {
        ShiftOp::Rlc => crate::cpu::rlc(x, f),
        ShiftOp::Rrc => crate::cpu::rrc(x, f),
        ShiftOp::Rl => crate::cpu::rl(x, f),
        ShiftOp::Rr => crate::cpu::rr(x, f),
        ShiftOp::Sla => crate::cpu::sla(x, f),
        ShiftOp::Sra => crate::cpu::sra(x, f),
        ShiftOp::Swap => crate::cpu::swap(x, f),
        ShiftOp::Srl => crate::cpu::srl(x, f),
    }
}


/// The bit numbers of BIT, RES and SET are below 8.
pub open spec fn operands_ok(ins: Instruction) -> bool {
    match ins {
        Instruction::Bit(b, _) => b <= 7,
        Instruction::ResBit(b, _) => b <= 7,
        Instruction::SetBit(b, _) => b <= 7,
        _ => true,
    }
}

/// The instructions that work on registers only.
pub open spec fn on_registers(ins: Instruction) -> bool {
    match ins {
        Instruction::Nop | Instruction::Stop | Instruction::Halt | Instruction::Di | Instruction::Ei | Instruction::Rlca
        | Instruction::Rrca | Instruction::Rla | Instruction::Rra | Instruction::Daa | Instruction::Cpl
        | Instruction::Scf | Instruction::Ccf | Instruction::LdSpHl => true,
        Instruction::IncR16(_) | Instruction::DecR16(_) | Instruction::AddHl(_) => true,
        Instruction::IncR8(x) | Instruction::DecR8(x) | Instruction::Shift(_, x) | Instruction::Bit(_, x)
        | Instruction::ResBit(_, x) | Instruction::SetBit(_, x) | Instruction::Alu(_, x) => x != R8::HLInd,
        Instruction::LdR8R8(d, x) => d != R8::HLInd && x != R8::HLInd,
        _ => false,
    }
}

impl<H: HandlerHolder> Cpu<H> {
    /// `after` and the accesses `a` are what `effect` says of `ins` from this CPU: the
    /// registers, the addresses read, the writes, the cycles, the jump, the master enable and
    /// the state.
    pub open spec fn executed(&self, ins: Instruction, after: &Cpu<H>, a: &Access) -> bool {
        let e = effect(ins, self.regs, values(a.reads@));
        &&& addresses(a.reads@) == e.reads
        &&& a.writes@ == e.writes
        &&& a.cycles == e.cycles
        &&& after.regs == e.regs
        &&& after.called_set_pc == (self.called_set_pc || e.jump)
        &&& after.state == (match e.state {
            Some(st) => st,
            None => self.state,
        })
        &&& after.interrupt_handler.enabled == (match e.ime {
            Some(true) => InterruptStatus::Enabling,
            Some(false) => InterruptStatus::Disabled,
            None => self.interrupt_handler.enabled,
        })
        &&& after.debug == self.debug
        &&& after.watch_addresses == self.watch_addresses
    }

    #[verifier::spinoff_prover]
    fn exec_control(&mut self, ins: Instruction, acc: &mut Access) -> (r: Result<(), Fault>)
        requires
            old(self).wf(),
            ins is Nop || ins is Stop || ins is Halt || ins is Di || ins is Ei || ins is Scf || ins is Ccf,
            operands_ok(ins),
            old(acc).reads@ == Seq::<(u16, u8)>::empty(),
            old(acc).writes@ == Seq::<(u16, u8)>::empty(),
            old(acc).cycles == 0,
        ensures
            final(self).wf(),
            r is Ok ==> old(self).executed(ins, &*final(self), &*final(acc)),
            r is Ok,
            r matches Err(f) ==> !(f is IllegalOpcode),
            old(self).handler_holder.faultless() ==> final(self).handler_holder.faultless(),
            r matches Err(f) ==> final(self).explains(f),
    {
        proof {
            lemma_empty_access();
            reveal(effect);
        }
        match ins {
            Instruction::Nop => {},
            Instruction::Stop => self.state = CpuState::Stop,
            Instruction::Halt => self.state = CpuState::Halt,
            Instruction::Di => self.interrupt_handler.disable(),
            Instruction::Ei => self.interrupt_handler.enable(),
            Instruction::Scf => crate::cpu::scf(&mut self.regs.flags),
            Instruction::Ccf => crate::cpu::ccf(&mut self.regs.flags),
            _ => {},
        }
        Ok(())
    }

    #[verifier::spinoff_prover]
    fn exec_accumulator(&mut self, ins: Instruction, acc: &mut Access) -> (r: Result<(), Fault>)
        requires
            old(self).wf(),
            ins is Rlca || ins is Rrca || ins is Rla || ins is Rra || ins is Daa || ins is Cpl,
            operands_ok(ins),
            old(acc).reads@ == Seq::<(u16, u8)>::empty(),
            old(acc).writes@ == Seq::<(u16, u8)>::empty(),
            old(acc).cycles == 0,
        ensures
            final(self).wf(),
            r is Ok ==> old(self).executed(ins, &*final(self), &*final(acc)),
            r is Ok,
            r matches Err(f) ==> !(f is IllegalOpcode),
            old(self).handler_holder.faultless() ==> final(self).handler_holder.faultless(),
            r matches Err(f) ==> final(self).explains(f),
    {
        proof {
            lemma_empty_access();
            reveal(effect);
        }
        match ins {
            Instruction::Rlca => {
                let mut f = self.regs.flags;
                let v = crate::cpu::rlc_base(self.regs.a, &mut f);
                f.z = false;
                self.regs.a = v;
                self.regs.flags = f;
            },
            Instruction::Rrca => {
                let mut f = self.regs.flags;
                let v = crate::cpu::rrc(self.regs.a, &mut f);
                f.z = false;
                self.regs.a = v;
                self.regs.flags = f;
            },
            Instruction::Rla => {
                let mut f = self.regs.flags;
                let v = crate::cpu::rl_base(self.regs.a, &mut f);
                f.z = false;
                self.regs.a = v;
                self.regs.flags = f;
            },
            Instruction::Rra => {
                let mut f = self.regs.flags;
                let v = crate::cpu::rr(self.regs.a, &mut f);
                f.z = false;
                self.regs.a = v;
                self.regs.flags = f;
            },
            Instruction::Daa => {
                let mut f = self.regs.flags;
                let v = crate::cpu::daa(self.regs.a, &mut f);
                self.regs.a = v;
                self.regs.flags = f;
            },
            Instruction::Cpl => {
                let mut f = self.regs.flags;
                let v = crate::cpu::cpl(self.regs.a, &mut f);
                self.regs.a = v;
                self.regs.flags = f;
            },
            _ => {},
        }
        Ok(())
    }

    #[verifier::spinoff_prover]
    fn exec_register_pair(&mut self, ins: Instruction, acc: &mut Access) -> (r: Result<(), Fault>)
        requires
            old(self).wf(),
            ins is LdSpHl || ins is IncR16 || ins is DecR16 || ins is AddHl,
            operands_ok(ins),
            old(acc).reads@ == Seq::<(u16, u8)>::empty(),
            old(acc).writes@ == Seq::<(u16, u8)>::empty(),
            old(acc).cycles == 0,
        ensures
            final(self).wf(),
            r is Ok ==> old(self).executed(ins, &*final(self), &*final(acc)),
            old(self).handler_holder.faultless() ==> r is Ok,
            r matches Err(f) ==> !(f is IllegalOpcode),
            old(self).handler_holder.faultless() ==> final(self).handler_holder.faultless(),
            r matches Err(f) ==> final(self).explains(f),
    {
        proof {
            lemma_empty_access();
            reveal(effect);
        }
        match ins {
            Instruction::LdSpHl => {
                self.tick(acc)?;
                self.regs.sp = read_hl(&self.regs);
            },
            Instruction::IncR16(x) => {
                self.tick(acc)?;
                let v = read_r16(&self.regs, x);
                write_r16(&mut self.regs, x, crate::cpu::inc_16(v));
            },
            Instruction::DecR16(x) => {
                self.tick(acc)?;
                let v = read_r16(&self.regs, x);
                write_r16(&mut self.regs, x, crate::cpu::dec_16(v));
            },
            Instruction::AddHl(x) => {
                self.tick(acc)?;
                let y = read_r16(&self.regs, x);
                let h = read_hl(&self.regs);
                let mut f = self.regs.flags;
                let v = crate::cpu::add_16(h, y, &mut f);
                write_r16(&mut self.regs, R16::HL, v);
                self.regs.flags = f;
            },
            _ => {},
        }
        Ok(())
    }

    #[verifier::spinoff_prover]
    fn exec_register_unary(&mut self, ins: Instruction, acc: &mut Access) -> (r: Result<(), Fault>)
        requires
            old(self).wf(),
            on_registers(ins) && (ins is IncR8 || ins is DecR8 || ins is Shift),
            operands_ok(ins),
            old(acc).reads@ == Seq::<(u16, u8)>::empty(),
            old(acc).writes@ == Seq::<(u16, u8)>::empty(),
            old(acc).cycles == 0,
        ensures
            final(self).wf(),
            r is Ok ==> old(self).executed(ins, &*final(self), &*final(acc)),
            r is Ok,
            r matches Err(f) ==> !(f is IllegalOpcode),
            old(self).handler_holder.faultless() ==> final(self).handler_holder.faultless(),
            r matches Err(f) ==> final(self).explains(f),
    {
        proof {
            lemma_empty_access();
            reveal(effect);
        }
        match ins {
            Instruction::IncR8(x) => {
                let mut f = self.regs.flags;
                let v = crate::cpu::inc(read_r8(&self.regs, x), &mut f);
                self.regs.flags = f;
                write_r8(&mut self.regs, x, v);
            },
            Instruction::DecR8(x) => {
                let mut f = self.regs.flags;
                let v = crate::cpu::dec(read_r8(&self.regs, x), &mut f);
                self.regs.flags = f;
                write_r8(&mut self.regs, x, v);
            },
            Instruction::Shift(op, x) => {
                let mut f = self.regs.flags;
                let v = shift_apply(op, read_r8(&self.regs, x), &mut f);
                self.regs.flags = f;
                write_r8(&mut self.regs, x, v);
            },
            _ => {},
        }
        Ok(())
    }

    #[verifier::spinoff_prover]
    fn exec_register_bits(&mut self, ins: Instruction, acc: &mut Access) -> (r: Result<(), Fault>)
        requires
            old(self).wf(),
            on_registers(ins) && (ins is Bit || ins is ResBit || ins is SetBit),
            operands_ok(ins),
            old(acc).reads@ == Seq::<(u16, u8)>::empty(),
            old(acc).writes@ == Seq::<(u16, u8)>::empty(),
            old(acc).cycles == 0,
        ensures
            final(self).wf(),
            r is Ok ==> old(self).executed(ins, &*final(self), &*final(acc)),
            r is Ok,
            r matches Err(f) ==> !(f is IllegalOpcode),
            old(self).handler_holder.faultless() ==> final(self).handler_holder.faultless(),
            r matches Err(f) ==> final(self).explains(f),
    {
        proof {
            lemma_empty_access();
            reveal(effect);
        }
        match ins {
            Instruction::Bit(b, x) => {
                crate::cpu::bit(b, read_r8(&self.regs, x), &mut self.regs.flags);
            },
            Instruction::ResBit(b, x) => {
                let v = crate::cpu::res(b, read_r8(&self.regs, x));
                write_r8(&mut self.regs, x, v);
            },
            Instruction::SetBit(b, x) => {
                let v = crate::cpu::set(b, read_r8(&self.regs, x));
                write_r8(&mut self.regs, x, v);
            },
            _ => {},
        }
        Ok(())
    }

    #[verifier::spinoff_prover]
    fn exec_register_binary(&mut self, ins: Instruction, acc: &mut Access) -> (r: Result<(), Fault>)
        requires
            old(self).wf(),
            on_registers(ins) && (ins is Alu || ins is LdR8R8),
            operands_ok(ins),
            old(acc).reads@ == Seq::<(u16, u8)>::empty(),
            old(acc).writes@ == Seq::<(u16, u8)>::empty(),
            old(acc).cycles == 0,
        ensures
            final(self).wf(),
            r is Ok ==> old(self).executed(ins, &*final(self), &*final(acc)),
            r is Ok,
            r matches Err(f) ==> !(f is IllegalOpcode),
            old(self).handler_holder.faultless() ==> final(self).handler_holder.faultless(),
            r matches Err(f) ==> final(self).explains(f),
    {
        proof {
            lemma_empty_access();
            reveal(effect);
        }
        match ins {
            Instruction::Alu(op, x) => {
                let mut f = self.regs.flags;
                let v = alu_apply(op, self.regs.a, read_r8(&self.regs, x), &mut f);
                self.regs.a = v;
                self.regs.flags = f;
            },
            Instruction::LdR8R8(d, x) => {
                let v = read_r8(&self.regs, x);
                write_r8(&mut self.regs, d, v);
            },
            _ => {},
        }
        Ok(())
    }

}

impl<H: HandlerHolder> Cpu<H> {
    #[verifier::spinoff_prover]
    fn exec_hl_unary(&mut self, ins: Instruction, acc: &mut Access) -> (r: Result<(), Fault>)
        requires
            old(self).wf(),
            (ins matches Instruction::IncR8(x) && x == R8::HLInd) || (ins matches Instruction::DecR8(x) && x == R8::HLInd) || (ins matches Instruction::Shift(_, x) && x == R8::HLInd),
            operands_ok(ins),
            old(acc).reads@ == Seq::<(u16, u8)>::empty(),
            old(acc).writes@ == Seq::<(u16, u8)>::empty(),
            old(acc).cycles == 0,
        ensures
            final(self).wf(),
            r is Ok ==> old(self).executed(ins, &*final(self), &*final(acc)),
            old(self).handler_holder.faultless() ==> r is Ok,
            r matches Err(f) ==> !(f is IllegalOpcode),
            old(self).handler_holder.faultless() ==> final(self).handler_holder.faultless(),
            r matches Err(f) ==> final(self).explains(f),
    {
        proof {
            lemma_empty_access();
            reveal(effect);
        }
        match ins {
            Instruction::IncR8(_) => {
                let a = read_hl(&self.regs);
                let v = self.read_at(a, acc)?;
                let mut f = self.regs.flags;
                let res = crate::cpu::inc(v, &mut f);
                self.regs.flags = f;
                self.write_at(a, res, acc)?;
            },
            Instruction::DecR8(_) => {
                let a = read_hl(&self.regs);
                let v = self.read_at(a, acc)?;
                let mut f = self.regs.flags;
                let res = crate::cpu::dec(v, &mut f);
                self.regs.flags = f;
                self.write_at(a, res, acc)?;
            },
            Instruction::Shift(op, _) => {
                let a = read_hl(&self.regs);
                let v = self.read_at(a, acc)?;
                let mut f = self.regs.flags;
                let res = shift_apply(op, v, &mut f);
                self.regs.flags = f;
                self.write_at(a, res, acc)?;
            },
            _ => {},
        }
        Ok(())
    }

    #[verifier::spinoff_prover]
    fn exec_hl_bits(&mut self, ins: Instruction, acc: &mut Access) -> (r: Result<(), Fault>)
        requires
            old(self).wf(),
            (ins matches Instruction::Bit(_, x) && x == R8::HLInd) || (ins matches Instruction::ResBit(_, x) && x == R8::HLInd) || (ins matches Instruction::SetBit(_, x) && x == R8::HLInd),
            operands_ok(ins),
            old(acc).reads@ == Seq::<(u16, u8)>::empty(),
            old(acc).writes@ == Seq::<(u16, u8)>::empty(),
            old(acc).cycles == 0,
        ensures
            final(self).wf(),
            r is Ok ==> old(self).executed(ins, &*final(self), &*final(acc)),
            old(self).handler_holder.faultless() ==> r is Ok,
            r matches Err(f) ==> !(f is IllegalOpcode),
            old(self).handler_holder.faultless() ==> final(self).handler_holder.faultless(),
            r matches Err(f) ==> final(self).explains(f),
    {
        proof {
            lemma_empty_access();
            reveal(effect);
        }
        match ins {
            Instruction::Bit(b, _) => {
                let a = read_hl(&self.regs);
                let v = self.read_at(a, acc)?;
                crate::cpu::bit(b, v, &mut self.regs.flags);
            },
            Instruction::ResBit(b, _) => {
                let a = read_hl(&self.regs);
                let v = self.read_at(a, acc)?;
                let res = crate::cpu::res(b, v);
                self.write_at(a, res, acc)?;
            },
            Instruction::SetBit(b, _) => {
                let a = read_hl(&self.regs);
                let v = self.read_at(a, acc)?;
                let res = crate::cpu::set(b, v);
                self.write_at(a, res, acc)?;
            },
            _ => {},
        }
        Ok(())
    }

    #[verifier::spinoff_prover]
    fn exec_alu_hl(&mut self, ins: Instruction, acc: &mut Access) -> (r: Result<(), Fault>)
        requires
            old(self).wf(),
            ins matches Instruction::Alu(_, x) && x == R8::HLInd,
            operands_ok(ins),
            old(acc).reads@ == Seq::<(u16, u8)>::empty(),
            old(acc).writes@ == Seq::<(u16, u8)>::empty(),
            old(acc).cycles == 0,
        ensures
            final(self).wf(),
            r is Ok ==> old(self).executed(ins, &*final(self), &*final(acc)),
            old(self).handler_holder.faultless() ==> r is Ok,
            r matches Err(f) ==> !(f is IllegalOpcode),
            old(self).handler_holder.faultless() ==> final(self).handler_holder.faultless(),
            r matches Err(f) ==> final(self).explains(f),
    {
        proof {
            lemma_empty_access();
            reveal(effect);
        }
        match ins {
            Instruction::Alu(op, _) => {
                let a = read_hl(&self.regs);
                let v = self.read_at(a, acc)?;
                let mut f = self.regs.flags;
                let res = alu_apply(op, self.regs.a, v, &mut f);
                self.regs.a = res;
                self.regs.flags = f;
            },
            _ => {},
        }
        Ok(())
    }

    #[verifier::spinoff_prover]
    fn exec_ld_hl(&mut self, ins: Instruction, acc: &mut Access) -> (r: Result<(), Fault>)
        requires
            old(self).wf(),
            ins matches Instruction::LdR8R8(d, x) && (x == R8::HLInd || d == R8::HLInd) && !(x == R8::HLInd && d == R8::HLInd),
            operands_ok(ins),
            old(acc).reads@ == Seq::<(u16, u8)>::empty(),
            old(acc).writes@ == Seq::<(u16, u8)>::empty(),
            old(acc).cycles == 0,
        ensures
            final(self).wf(),
            r is Ok ==> old(self).executed(ins, &*final(self), &*final(acc)),
            old(self).handler_holder.faultless() ==> r is Ok,
            r matches Err(f) ==> !(f is IllegalOpcode),
            old(self).handler_holder.faultless() ==> final(self).handler_holder.faultless(),
            r matches Err(f) ==> final(self).explains(f),
    {
        proof {
            lemma_empty_access();
            reveal(effect);
        }
        match ins {
            Instruction::LdR8R8(d, x) => {
                let a = read_hl(&self.regs);
                if x == R8::HLInd {
                    let v = self.read_at(a, acc)?;
                    write_r8(&mut self.regs, d, v);
                } else {
                    let v = read_r8(&self.regs, x);
                    self.write_at(a, v, acc)?;
                }
            },
            _ => {},
        }
        Ok(())
    }

    #[verifier::spinoff_prover]
    fn exec_ld_imm8(&mut self, ins: Instruction, acc: &mut Access) -> (r: Result<(), Fault>)
        requires
            old(self).wf(),
            ins is LdR8Imm,
            operands_ok(ins),
            old(acc).reads@ == Seq::<(u16, u8)>::empty(),
            old(acc).writes@ == Seq::<(u16, u8)>::empty(),
            old(acc).cycles == 0,
        ensures
            final(self).wf(),
            r is Ok ==> old(self).executed(ins, &*final(self), &*final(acc)),
            old(self).handler_holder.faultless() ==> r is Ok,
            r matches Err(f) ==> !(f is IllegalOpcode),
            old(self).handler_holder.faultless() ==> final(self).handler_holder.faultless(),
            r matches Err(f) ==> final(self).explains(f),
    {
        proof {
            lemma_empty_access();
            reveal(effect);
        }
        match ins {
            Instruction::LdR8Imm(x) => {
                let n = self.fetch(acc)?;
                if x == R8::HLInd {
                    let a = read_hl(&self.regs);
                    self.write_at(a, n, acc)?;
                } else {
                    write_r8(&mut self.regs, x, n);
                }
            },
            _ => {},
        }
        Ok(())
    }


    #[verifier::spinoff_prover]
    fn exec_alu_imm(&mut self, ins: Instruction, acc: &mut Access) -> (r: Result<(), Fault>)
        requires
            old(self).wf(),
            ins is AluImm,
            operands_ok(ins),
            old(acc).reads@ == Seq::<(u16, u8)>::empty(),
            old(acc).writes@ == Seq::<(u16, u8)>::empty(),
            old(acc).cycles == 0,
        ensures
            final(self).wf(),
            r is Ok ==> old(self).executed(ins, &*final(self), &*final(acc)),
            old(self).handler_holder.faultless() ==> r is Ok,
            r matches Err(f) ==> !(f is IllegalOpcode),
            old(self).handler_holder.faultless() ==> final(self).handler_holder.faultless(),
            r matches Err(f) ==> final(self).explains(f),
    {
        proof {
            lemma_empty_access();
            reveal(effect);
        }
        match ins {
            Instruction::AluImm(op) => {
                let n = self.fetch(acc)?;
                let mut f = self.regs.flags;
                let res = alu_apply(op, self.regs.a, n, &mut f);
                self.regs.a = res;
                self.regs.flags = f;
            },
            _ => {},
        }
        Ok(())
    }

    #[verifier::spinoff_prover]
    fn exec_ldh_store(&mut self, ins: Instruction, acc: &mut Access) -> (r: Result<(), Fault>)
        requires
            old(self).wf(),
            ins is LdhImmA,
            operands_ok(ins),
            old(acc).reads@ == Seq::<(u16, u8)>::empty(),
            old(acc).writes@ == Seq::<(u16, u8)>::empty(),
            old(acc).cycles == 0,
        ensures
            final(self).wf(),
            r is Ok ==> old(self).executed(ins, &*final(self), &*final(acc)),
            old(self).handler_holder.faultless() ==> r is Ok,
            r matches Err(f) ==> !(f is IllegalOpcode),
            old(self).handler_holder.faultless() ==> final(self).handler_holder.faultless(),
            r matches Err(f) ==> final(self).explains(f),
    {
        proof {
            lemma_empty_access();
            reveal(effect);
        }
        match ins {
            Instruction::LdhImmA => {
                let n = self.fetch(acc)?;
                let a = 0xFF00 + n as u16;
                let v = self.regs.a;
                self.write_at(a, v, acc)?;
            },
            _ => {},
        }
        Ok(())
    }

    #[verifier::spinoff_prover]
    fn exec_ldh_load(&mut self, ins: Instruction, acc: &mut Access) -> (r: Result<(), Fault>)
        requires
            old(self).wf(),
            ins is LdhAImm,
            operands_ok(ins),
            old(acc).reads@ == Seq::<(u16, u8)>::empty(),
            old(acc).writes@ == Seq::<(u16, u8)>::empty(),
            old(acc).cycles == 0,
        ensures
            final(self).wf(),
            r is Ok ==> old(self).executed(ins, &*final(self), &*final(acc)),
            old(self).handler_holder.faultless() ==> r is Ok,
            r matches Err(f) ==> !(f is IllegalOpcode),
            old(self).handler_holder.faultless() ==> final(self).handler_holder.faultless(),
            r matches Err(f) ==> final(self).explains(f),
    {
        proof {
            lemma_empty_access();
            reveal(effect);
        }
        match ins {
            Instruction::LdhAImm => {
                let ghost pc0 = self.regs.pc;
                let n = self.fetch(acc)?;
                let a = 0xFF00 + n as u16;
                let v = self.read_at(a, acc)?;
                assert(addresses(acc.reads@) =~= seq![next16(pc0), a]);
                assert(values(acc.reads@) =~= seq![n, v]);
                self.regs.a = v;
            },
            _ => {},
        }
        Ok(())
    }

    #[verifier::spinoff_prover]
    fn exec_add_sp(&mut self, ins: Instruction, acc: &mut Access) -> (r: Result<(), Fault>)
        requires
            old(self).wf(),
            ins is AddSpImm,
            operands_ok(ins),
            old(acc).reads@ == Seq::<(u16, u8)>::empty(),
            old(acc).writes@ == Seq::<(u16, u8)>::empty(),
            old(acc).cycles == 0,
        ensures
            final(self).wf(),
            r is Ok ==> old(self).executed(ins, &*final(self), &*final(acc)),
            old(self).handler_holder.faultless() ==> r is Ok,
            r matches Err(f) ==> !(f is IllegalOpcode),
            old(self).handler_holder.faultless() ==> final(self).handler_holder.faultless(),
            r matches Err(f) ==> final(self).explains(f),
    {
        proof {
            lemma_empty_access();
            reveal(effect);
        }
        match ins {
            Instruction::AddSpImm => {
                self.tick(acc)?;
                self.tick(acc)?;
                let sp = self.regs.sp;
                let n = self.fetch(acc)?;
                let mut f = self.regs.flags;
                let v = crate::cpu::add_16_8(sp, n, &mut f);
                self.regs.sp = v;
                self.regs.flags = f;
            },
            _ => {},
        }
        Ok(())
    }

    #[verifier::spinoff_prover]
    fn exec_ld_hl_sp(&mut self, ins: Instruction, acc: &mut Access) -> (r: Result<(), Fault>)
        requires
            old(self).wf(),
            ins is LdHlSpImm,
            operands_ok(ins),
            old(acc).reads@ == Seq::<(u16, u8)>::empty(),
            old(acc).writes@ == Seq::<(u16, u8)>::empty(),
            old(acc).cycles == 0,
        ensures
            final(self).wf(),
            r is Ok ==> old(self).executed(ins, &*final(self), &*final(acc)),
            old(self).handler_holder.faultless() ==> r is Ok,
            r matches Err(f) ==> !(f is IllegalOpcode),
            old(self).handler_holder.faultless() ==> final(self).handler_holder.faultless(),
            r matches Err(f) ==> final(self).explains(f),
    {
        proof {
            lemma_empty_access();
            reveal(effect);
        }
        match ins {
            Instruction::LdHlSpImm => {
                let sp = self.regs.sp;
                let n = self.fetch(acc)?;
                self.tick(acc)?;
                let mut f = self.regs.flags;
                let v = crate::cpu::add_16_8(sp, n, &mut f);
                write_r16(&mut self.regs, R16::HL, v);
                self.regs.flags = f;
            },
            _ => {},
        }
        Ok(())
    }


    #[verifier::spinoff_prover]
    fn exec_ld_imm16(&mut self, ins: Instruction, acc: &mut Access) -> (r: Result<(), Fault>)
        requires
            old(self).wf(),
            ins is LdR16Imm,
            operands_ok(ins),
            old(acc).reads@ == Seq::<(u16, u8)>::empty(),
            old(acc).writes@ == Seq::<(u16, u8)>::empty(),
            old(acc).cycles == 0,
        ensures
            final(self).wf(),
            r is Ok ==> old(self).executed(ins, &*final(self), &*final(acc)),
            old(self).handler_holder.faultless() ==> r is Ok,
            r matches Err(f) ==> !(f is IllegalOpcode),
            old(self).handler_holder.faultless() ==> final(self).handler_holder.faultless(),
            r matches Err(f) ==> final(self).explains(f),
    {
        proof {
            lemma_empty_access();
            reveal(effect);
        }
        match ins {
            Instruction::LdR16Imm(x) => {
                let ghost pc0 = self.regs.pc;
                let lo = self.fetch(acc)?;
                let hi = self.fetch(acc)?;
                assert(addresses(acc.reads@) =~= seq![next16(pc0), next16(next16(pc0))]);
                assert(values(acc.reads@) =~= seq![lo, hi]);
                write_r16(&mut self.regs, x, lo as u16 + 256 * hi as u16);
            },
            _ => {},
        }
        Ok(())
    }

    #[verifier::spinoff_prover]
    fn exec_store_abs(&mut self, ins: Instruction, acc: &mut Access) -> (r: Result<(), Fault>)
        requires
            old(self).wf(),
            ins is LdAbsA,
            operands_ok(ins),
            old(acc).reads@ == Seq::<(u16, u8)>::empty(),
            old(acc).writes@ == Seq::<(u16, u8)>::empty(),
            old(acc).cycles == 0,
        ensures
            final(self).wf(),
            r is Ok ==> old(self).executed(ins, &*final(self), &*final(acc)),
            old(self).handler_holder.faultless() ==> r is Ok,
            r matches Err(f) ==> !(f is IllegalOpcode),
            old(self).handler_holder.faultless() ==> final(self).handler_holder.faultless(),
            r matches Err(f) ==> final(self).explains(f),
    {
        proof {
            lemma_empty_access();
            reveal(effect);
        }
        match ins {
            Instruction::LdAbsA => {
                let ghost pc0 = self.regs.pc;
                let lo = self.fetch(acc)?;
                let hi = self.fetch(acc)?;
                assert(addresses(acc.reads@) =~= seq![next16(pc0), next16(next16(pc0))]);
                assert(values(acc.reads@) =~= seq![lo, hi]);
                let v = self.regs.a;
                self.write_at(lo as u16 + 256 * hi as u16, v, acc)?;
            },
            _ => {},
        }
        Ok(())
    }

    #[verifier::spinoff_prover]
    fn exec_load_abs(&mut self, ins: Instruction, acc: &mut Access) -> (r: Result<(), Fault>)
        requires
            old(self).wf(),
            ins is LdAAbs,
            operands_ok(ins),
            old(acc).reads@ == Seq::<(u16, u8)>::empty(),
            old(acc).writes@ == Seq::<(u16, u8)>::empty(),
            old(acc).cycles == 0,
        ensures
            final(self).wf(),
            r is Ok ==> old(self).executed(ins, &*final(self), &*final(acc)),
            old(self).handler_holder.faultless() ==> r is Ok,
            r matches Err(f) ==> !(f is IllegalOpcode),
            old(self).handler_holder.faultless() ==> final(self).handler_holder.faultless(),
            r matches Err(f) ==> final(self).explains(f),
    {
        proof {
            lemma_empty_access();
            reveal(effect);
        }
        match ins {
            Instruction::LdAAbs => {
                let ghost pc0 = self.regs.pc;
                let lo = self.fetch(acc)?;
                let hi = self.fetch(acc)?;
                let v = self.read_at(lo as u16 + 256 * hi as u16, acc)?;
                assert(addresses(acc.reads@) =~= seq![next16(pc0), next16(next16(pc0)), word(lo, hi)]);
                assert(values(acc.reads@) =~= seq![lo, hi, v]);
                self.regs.a = v;
            },
            _ => {},
        }
        Ok(())
    }

    #[verifier::spinoff_prover]
    fn exec_store_sp(&mut self, ins: Instruction, acc: &mut Access) -> (r: Result<(), Fault>)
        requires
            old(self).wf(),
            ins is LdImmSp,
            operands_ok(ins),
            old(acc).reads@ == Seq::<(u16, u8)>::empty(),
            old(acc).writes@ == Seq::<(u16, u8)>::empty(),
            old(acc).cycles == 0,
        ensures
            final(self).wf(),
            r is Ok ==> old(self).executed(ins, &*final(self), &*final(acc)),
            old(self).handler_holder.faultless() ==> r is Ok,
            r matches Err(f) ==> !(f is IllegalOpcode),
            old(self).handler_holder.faultless() ==> final(self).handler_holder.faultless(),
            r matches Err(f) ==> final(self).explains(f),
    {
        proof {
            lemma_empty_access();
            reveal(effect);
        }
        match ins {
            Instruction::LdImmSp => {
                let ghost pc0 = self.regs.pc;
                let lo = self.fetch(acc)?;
                let hi = self.fetch(acc)?;
                assert(addresses(acc.reads@) =~= seq![next16(pc0), next16(next16(pc0))]);
                assert(values(acc.reads@) =~= seq![lo, hi]);
                let a = lo as u16 + 256 * hi as u16;
                let sp = self.regs.sp;
                self.write_at(a, (sp % 256) as u8, acc)?;
                let a2 = if a == 0xFFFF { 0 } else { a + 1 };
                assert(a2 == next16(a));
                self.write_at(a2, (sp / 256) as u8, acc)?;
                assert(acc.writes@ =~= seq![(a, (sp % 256) as u8), (a2, (sp / 256) as u8)]);
            },
            _ => {},
        }
        Ok(())
    }


    #[verifier::spinoff_prover]
    fn exec_indirect(&mut self, ins: Instruction, acc: &mut Access) -> (r: Result<(), Fault>)
        requires
            old(self).wf(),
            ins is LdIndA || ins is LdAInd || ins is LdhCA || ins is LdhAC,
            operands_ok(ins),
            old(acc).reads@ == Seq::<(u16, u8)>::empty(),
            old(acc).writes@ == Seq::<(u16, u8)>::empty(),
            old(acc).cycles == 0,
        ensures
            final(self).wf(),
            r is Ok ==> old(self).executed(ins, &*final(self), &*final(acc)),
            old(self).handler_holder.faultless() ==> r is Ok,
            r matches Err(f) ==> !(f is IllegalOpcode),
            old(self).handler_holder.faultless() ==> final(self).handler_holder.faultless(),
            r matches Err(f) ==> final(self).explains(f),
    {
        proof {
            lemma_empty_access();
            reveal(effect);
        }
        match ins {
            Instruction::LdIndA(i) => {
                let a = match i {
                    Indirect::BC => read_r16(&self.regs, R16::BC),
                    Indirect::DE => read_r16(&self.regs, R16::DE),
                    _ => read_hl(&self.regs),
                };
                let v = self.regs.a;
                self.write_at(a, v, acc)?;
                match i {
                    Indirect::HLInc => write_r16(&mut self.regs, R16::HL, crate::cpu::inc_16(a)),
                    Indirect::HLDec => write_r16(&mut self.regs, R16::HL, crate::cpu::dec_16(a)),
                    _ => {},
                }
            },
            Instruction::LdAInd(i) => {
                let a = match i {
                    Indirect::BC => read_r16(&self.regs, R16::BC),
                    Indirect::DE => read_r16(&self.regs, R16::DE),
                    _ => read_hl(&self.regs),
                };
                let v = self.read_at(a, acc)?;
                match i {
                    Indirect::HLInc => write_r16(&mut self.regs, R16::HL, crate::cpu::inc_16(a)),
                    Indirect::HLDec => write_r16(&mut self.regs, R16::HL, crate::cpu::dec_16(a)),
                    _ => {},
                }
                self.regs.a = v;
            },
            Instruction::LdhCA => {
                let a = 0xFF00 + self.regs.c as u16;
                let v = self.regs.a;
                self.write_at(a, v, acc)?;
            },
            Instruction::LdhAC => {
                let a = 0xFF00 + self.regs.c as u16;
                let v = self.read_at(a, acc)?;
                self.regs.a = v;
            },
            _ => {},
        }
        Ok(())
    }
}

impl<H: HandlerHolder> Cpu<H> {
    #[verifier::spinoff_prover]
    fn exec_jr(&mut self, ins: Instruction, acc: &mut Access) -> (r: Result<(), Fault>)
        requires
            old(self).wf(),
            ins is Jr || ins is JrCond,
            old(acc).reads@ == Seq::<(u16, u8)>::empty(),
            old(acc).writes@ == Seq::<(u16, u8)>::empty(),
            old(acc).cycles == 0,
        ensures
            final(self).wf(),
            r is Ok ==> old(self).executed(ins, &*final(self), &*final(acc)),
            old(self).handler_holder.faultless() ==> (r is Err ==> (r matches Err(Fault::Jump(t)) && no_code(t))),
            r matches Err(f) ==> !(f is IllegalOpcode),
            old(self).handler_holder.faultless() ==> final(self).handler_holder.faultless(),
            old(self).handler_holder.faultless() && (ins matches Instruction::JrCond(c) && !cond_holds(old(self).regs.flags, c)) ==> r is Ok,
            r matches Err(f) ==> final(self).explains(f),
    {
        proof {
            lemma_empty_access();
            reveal(effect);
        }
        let taken = match ins {
            Instruction::JrCond(c) => cond_true(self.regs.flags, c),
            _ => true,
        };
        let ghost pc0 = self.regs.pc;
        let n = self.fetch(acc)?;
        assert(addresses(acc.reads@) =~= seq![next16(pc0)]);
        assert(values(acc.reads@) =~= seq![n]);
        if taken {
            let offset: i32 = if n > 0x81 { n as i32 - 256 } else { n as i32 };
            let pc = self.regs.pc;
            let target = ((pc as i32 + offset + 1 + 65536) % 65536) as u16;
            self.tick(acc)?;
            self.set_pc(target)?;
        }
        Ok(())
    }

    #[verifier::spinoff_prover]
    fn exec_ret(&mut self, ins: Instruction, acc: &mut Access) -> (r: Result<(), Fault>)
        requires
            old(self).wf(),
            ins is Ret || ins is Reti || ins is RetCond,
            old(acc).reads@ == Seq::<(u16, u8)>::empty(),
            old(acc).writes@ == Seq::<(u16, u8)>::empty(),
            old(acc).cycles == 0,
        ensures
            final(self).wf(),
            r is Ok ==> old(self).executed(ins, &*final(self), &*final(acc)),
            old(self).handler_holder.faultless() ==> (r is Err ==> (r matches Err(Fault::Jump(t)) && no_code(t))),
            r matches Err(f) ==> !(f is IllegalOpcode),
            old(self).handler_holder.faultless() ==> final(self).handler_holder.faultless(),
            old(self).handler_holder.faultless() && (ins matches Instruction::RetCond(c) && !cond_holds(old(self).regs.flags, c)) ==> r is Ok,
            r matches Err(f) ==> final(self).explains(f),
    {
        proof {
            lemma_empty_access();
            reveal(effect);
        }
        let ghost sp0 = self.regs.sp;
        match ins {
            Instruction::RetCond(c) => {
                self.tick(acc)?;
                if !cond_true(self.regs.flags, c) {
                    return Ok(());
                }
            },
            _ => {},
        }
        let lo = self.pop_byte(acc)?;
        let hi = self.pop_byte(acc)?;
        assert(addresses(acc.reads@) =~= seq![sp0, next16(sp0)]);
        assert(values(acc.reads@) =~= seq![lo, hi]);
        self.tick(acc)?;
        self.set_pc(lo as u16 + 256 * hi as u16)?;
        match ins {
            Instruction::Reti => self.interrupt_handler.enable(),
            _ => {},
        }
        Ok(())
    }

    #[verifier::spinoff_prover]
    fn exec_pop(&mut self, ins: Instruction, acc: &mut Access) -> (r: Result<(), Fault>)
        requires
            old(self).wf(),
            ins is Pop,
            old(acc).reads@ == Seq::<(u16, u8)>::empty(),
            old(acc).writes@ == Seq::<(u16, u8)>::empty(),
            old(acc).cycles == 0,
        ensures
            final(self).wf(),
            r is Ok ==> old(self).executed(ins, &*final(self), &*final(acc)),
            old(self).handler_holder.faultless() ==> r is Ok,
            r matches Err(f) ==> !(f is IllegalOpcode),
            old(self).handler_holder.faultless() ==> final(self).handler_holder.faultless(),
            r matches Err(f) ==> final(self).explains(f),
    {
        proof {
            lemma_empty_access();
            reveal(effect);
        }
        let ghost sp0 = self.regs.sp;
        let lo = self.pop_byte(acc)?;
        let hi = self.pop_byte(acc)?;
        assert(addresses(acc.reads@) =~= seq![sp0, next16(sp0)]);
        assert(values(acc.reads@) =~= seq![lo, hi]);
        match ins {
            Instruction::Pop(R16Stack::BC) => {
                self.regs.b = hi;
                self.regs.c = lo;
            },
            Instruction::Pop(R16Stack::DE) => {
                self.regs.d = hi;
                self.regs.e = lo;
            },
            Instruction::Pop(R16Stack::HL) => {
                self.regs.h = hi;
                self.regs.l = lo;
            },
            _ => {
                self.regs.set_f(lo);
                self.regs.a = hi;
            },
        }
        Ok(())
    }

    #[verifier::spinoff_prover]
    fn exec_push(&mut self, ins: Instruction, acc: &mut Access) -> (r: Result<(), Fault>)
        requires
            old(self).wf(),
            ins is Push,
            old(acc).reads@ == Seq::<(u16, u8)>::empty(),
            old(acc).writes@ == Seq::<(u16, u8)>::empty(),
            old(acc).cycles == 0,
        ensures
            final(self).wf(),
            r is Ok ==> old(self).executed(ins, &*final(self), &*final(acc)),
            old(self).handler_holder.faultless() ==> r is Ok,
            r matches Err(f) ==> !(f is IllegalOpcode),
            old(self).handler_holder.faultless() ==> final(self).handler_holder.faultless(),
            r matches Err(f) ==> final(self).explains(f),
    {
        proof {
            lemma_empty_access();
            reveal(effect);
        }
        let (hi, lo) = match ins {
            Instruction::Push(R16Stack::BC) => (self.regs.b, self.regs.c),
            Instruction::Push(R16Stack::DE) => (self.regs.d, self.regs.e),
            Instruction::Push(R16Stack::HL) => (self.regs.h, self.regs.l),
            _ => (self.regs.a, self.regs.get_f()),
        };
        let ghost sp0 = self.regs.sp;
        self.tick(acc)?;
        self.push_byte(hi, acc)?;
        self.push_byte(lo, acc)?;
        assert(acc.writes@ =~= seq![(prev16(sp0), hi), (prev16(prev16(sp0)), lo)]);
        Ok(())
    }

    #[verifier::spinoff_prover]
    fn exec_jp(&mut self, ins: Instruction, acc: &mut Access) -> (r: Result<(), Fault>)
        requires
            old(self).wf(),
            ins is Jp || ins is JpCond,
            old(acc).reads@ == Seq::<(u16, u8)>::empty(),
            old(acc).writes@ == Seq::<(u16, u8)>::empty(),
            old(acc).cycles == 0,
        ensures
            final(self).wf(),
            r is Ok ==> old(self).executed(ins, &*final(self), &*final(acc)),
            old(self).handler_holder.faultless() ==> (r is Err ==> (r matches Err(Fault::Jump(t)) && no_code(t))),
            r matches Err(f) ==> !(f is IllegalOpcode),
            old(self).handler_holder.faultless() ==> final(self).handler_holder.faultless(),
            old(self).handler_holder.faultless() && (ins matches Instruction::JpCond(c) && !cond_holds(old(self).regs.flags, c)) ==> r is Ok,
            r matches Err(f) ==> final(self).explains(f),
    {
        proof {
            lemma_empty_access();
            reveal(effect);
        }
        let taken = match ins {
            Instruction::JpCond(c) => cond_true(self.regs.flags, c),
            _ => true,
        };
        let ghost pc0 = self.regs.pc;
        let lo = self.fetch(acc)?;
        let hi = self.fetch(acc)?;
        assert(addresses(acc.reads@) =~= seq![next16(pc0), next16(next16(pc0))]);
        assert(values(acc.reads@) =~= seq![lo, hi]);
        if taken {
            self.tick(acc)?;
            self.set_pc(lo as u16 + 256 * hi as u16)?;
        }
        Ok(())
    }

    #[verifier::spinoff_prover]
    fn exec_jp_hl(&mut self, ins: Instruction, acc: &mut Access) -> (r: Result<(), Fault>)
        requires
            old(self).wf(),
            ins is JpHl,
            old(acc).reads@ == Seq::<(u16, u8)>::empty(),
            old(acc).writes@ == Seq::<(u16, u8)>::empty(),
            old(acc).cycles == 0,
        ensures
            final(self).wf(),
            r is Ok ==> old(self).executed(ins, &*final(self), &*final(acc)),
            old(self).handler_holder.faultless() ==> (r is Err ==> (r matches Err(Fault::Jump(t)) && no_code(t))),
            r matches Err(f) ==> !(f is IllegalOpcode),
            old(self).handler_holder.faultless() ==> final(self).handler_holder.faultless(),
            old(self).handler_holder.faultless() ==> (r is Ok <==> !no_code(hl(old(self).regs))),
            r matches Err(f) ==> final(self).explains(f),
    {
        proof {
            lemma_empty_access();
            reveal(effect);
        }
        let target = read_hl(&self.regs);
        self.set_pc(target)?;
        Ok(())
    }

    #[verifier::spinoff_prover]
    fn exec_call(&mut self, ins: Instruction, acc: &mut Access) -> (r: Result<(), Fault>)
        requires
            old(self).wf(),
            ins is Call || ins is CallCond,
            old(acc).reads@ == Seq::<(u16, u8)>::empty(),
            old(acc).writes@ == Seq::<(u16, u8)>::empty(),
            old(acc).cycles == 0,
        ensures
            final(self).wf(),
            r is Ok ==> old(self).executed(ins, &*final(self), &*final(acc)),
            old(self).handler_holder.faultless() ==> (r is Err ==> (r matches Err(Fault::Jump(t)) && no_code(t))),
            r matches Err(f) ==> !(f is IllegalOpcode),
            old(self).handler_holder.faultless() ==> final(self).handler_holder.faultless(),
            old(self).handler_holder.faultless() && (ins matches Instruction::CallCond(c) && !cond_holds(old(self).regs.flags, c)) ==> r is Ok,
            r matches Err(f) ==> final(self).explains(f),
    {
        proof {
            lemma_empty_access();
            reveal(effect);
        }
        let taken = match ins {
            Instruction::CallCond(c) => cond_true(self.regs.flags, c),
            _ => true,
        };
        let ghost pc0 = self.regs.pc;
        let ghost sp0 = self.regs.sp;
        let lo = self.fetch(acc)?;
        let hi = self.fetch(acc)?;
        assert(addresses(acc.reads@) =~= seq![next16(pc0), next16(next16(pc0))]);
        assert(values(acc.reads@) =~= seq![lo, hi]);
        if taken {
            let next = crate::cpu::inc_16(self.regs.pc);
            self.regs.pc = next;
            self.push_byte((next / 256) as u8, acc)?;
            self.push_byte((next % 256) as u8, acc)?;
            assert(acc.writes@ =~= seq![(prev16(sp0), (next / 256) as u8), (prev16(prev16(sp0)), (next % 256) as u8)]);
            self.tick(acc)?;
            self.set_pc(lo as u16 + 256 * hi as u16)?;
        }
        Ok(())
    }

    #[verifier::spinoff_prover]
    fn exec_rst(&mut self, ins: Instruction, acc: &mut Access) -> (r: Result<(), Fault>)
        requires
            old(self).wf(),
            ins is Rst,
            old(acc).reads@ == Seq::<(u16, u8)>::empty(),
            old(acc).writes@ == Seq::<(u16, u8)>::empty(),
            old(acc).cycles == 0,
        ensures
            final(self).wf(),
            r is Ok ==> old(self).executed(ins, &*final(self), &*final(acc)),
            old(self).handler_holder.faultless() ==> r is Ok,
            r matches Err(f) ==> !(f is IllegalOpcode),
            old(self).handler_holder.faultless() ==> final(self).handler_holder.faultless(),
            r matches Err(f) ==> final(self).explains(f),
    {
        proof {
            lemma_empty_access();
            reveal(effect);
        }
        let k = match ins {
            Instruction::Rst(k) => k,
            _ => 0,
        };
        let ghost sp0 = self.regs.sp;
        let next = crate::cpu::inc_16(self.regs.pc);
        self.regs.pc = next;
        self.push_byte((next / 256) as u8, acc)?;
        self.push_byte((next % 256) as u8, acc)?;
        assert(acc.writes@ =~= seq![(prev16(sp0), (next / 256) as u8), (prev16(prev16(sp0)), (next % 256) as u8)]);
        self.tick(acc)?;
        self.set_pc((8 * k as u32) as u16)?;
        Ok(())
    }
}


/// The instructions that `execute` takes: bit numbers below 8, and no LD (HL),(HL).
pub open spec fn executable(ins: Instruction) -> bool {
    operands_ok(ins) && ins != Instruction::LdR8R8(R8::HLInd, R8::HLInd)
}

/// Every decoded instruction can be executed.
#[verifier::spinoff_prover]
pub proof fn lemma_decoded_executable(b: u8, prefixed: bool)
    ensures
        (if prefixed { crate::opcode::decode_cb_spec(b) } else { crate::opcode::decode_spec(b) }) matches Some(i)
            ==> executable(i),
{
}

/// An interrupt is served only when it is requested.
#[verifier::spinoff_prover]
proof fn lemma_served_requested(status: InterruptStatus, reg: crate::interrupt::InterruptRegister)
    ensures
        crate::interrupt::served(status, reg) is Some ==> reg.v_blank || reg.stat || reg.timer || reg.joypad,
{
}

/// The interrupt register with the request of `i`, if any, added.
pub open spec fn noted(reg: InterruptRegister, i: Option<Interrupt>) -> InterruptRegister {
    match i {
        Some(Interrupt::VBlank) => InterruptRegister { v_blank: true, ..reg },
        Some(Interrupt::Stat) => InterruptRegister { stat: true, ..reg },
        Some(Interrupt::Timer) => InterruptRegister { timer: true, ..reg },
        Some(Interrupt::Joypad) => InterruptRegister { joypad: true, ..reg },
        None => reg,
    }
}

/// The instructions that can jump.
pub open spec fn may_jump(ins: Instruction) -> bool {
    ins is Jr || ins is JrCond || ins is Ret || ins is Reti || ins is RetCond || ins is Jp || ins is JpCond
        || ins is JpHl || ins is Call || ins is CallCond
}

/// A conditional jump, call or return whose condition does not hold with the flags `f`.
pub open spec fn jump_skipped(ins: Instruction, f: Flags) -> bool {
    match ins {
        Instruction::JrCond(c) | Instruction::JpCond(c) | Instruction::CallCond(c) | Instruction::RetCond(c) => !cond_holds(
            f, c),
        _ => false,
    }
}

/// The address that the CPU jumps to for an interrupt.
pub open spec fn vector(i: Interrupt) -> u16 {
    match i {
        Interrupt::VBlank => 0x0040,
        Interrupt::Stat => 0x0048,
        Interrupt::Timer => 0x0050,
        Interrupt::Joypad => 0x0060,
    }
}

/// What one step of the CPU did.
pub enum Step {
    /// An interrupt was served: the CPU pushed the PC and jumped to the interrupt's vector.
    Interrupt(Interrupt),
    /// The instruction of `opcode` (after the $CB prefix when `prefixed`) ran, with its accesses.
    Instruction { instruction: Instruction, opcode: u8, prefixed: bool, access: Access },
    /// The CPU is halted or stopped, and waited for 4 cycles.
    Wait,
}

impl<H: HandlerHolder> Cpu<H> {
    /// Executes an instruction, with the PC at its last byte of opcode.
    #[verifier::spinoff_prover]
    pub fn execute(&mut self, ins: Instruction) -> (r: Result<Access, Fault>)
        requires
            old(self).wf(),
            executable(ins),
        ensures
            final(self).wf(),
            r matches Ok(a) ==> old(self).executed(ins, &*final(self), &a),
            old(self).handler_holder.faultless() ==> (r is Err ==> (r matches Err(Fault::Jump(t)) && no_code(t))),
            old(self).handler_holder.faultless() && (!may_jump(ins) || jump_skipped(ins, old(self).regs.flags)) ==> r is Ok,
            old(self).handler_holder.faultless() && ins is JpHl ==> (r is Ok <==> !no_code(hl(old(self).regs))),
            r matches Err(f) ==> !(f is IllegalOpcode),
            old(self).handler_holder.faultless() ==> final(self).handler_holder.faultless(),
            r matches Err(f) ==> final(self).explains(f),
    {
        let mut acc = Access { reads: Vec::new(), writes: Vec::new(), cycles: 0 };
        let r = match ins {
            Instruction::Nop | Instruction::Stop | Instruction::Halt | Instruction::Di | Instruction::Ei
            | Instruction::Scf | Instruction::Ccf => self.exec_control(ins, &mut acc),
            Instruction::Rlca | Instruction::Rrca | Instruction::Rla | Instruction::Rra | Instruction::Daa
            | Instruction::Cpl => self.exec_accumulator(ins, &mut acc),
            Instruction::LdSpHl | Instruction::IncR16(_) | Instruction::DecR16(_) | Instruction::AddHl(_) => {
                self.exec_register_pair(ins, &mut acc)
            },
            Instruction::IncR8(x) | Instruction::DecR8(x) | Instruction::Shift(_, x) => {
                if x == R8::HLInd {
                    self.exec_hl_unary(ins, &mut acc)
                } else {
                    self.exec_register_unary(ins, &mut acc)
                }
            },
            Instruction::Bit(_, x) | Instruction::ResBit(_, x) | Instruction::SetBit(_, x) => {
                if x == R8::HLInd {
                    self.exec_hl_bits(ins, &mut acc)
                } else {
                    self.exec_register_bits(ins, &mut acc)
                }
            },
            Instruction::Alu(_, x) => {
                if x == R8::HLInd {
                    self.exec_alu_hl(ins, &mut acc)
                } else {
                    self.exec_register_binary(ins, &mut acc)
                }
            },
            Instruction::LdR8R8(d, x) => {
                if x == R8::HLInd || d == R8::HLInd {
                    self.exec_ld_hl(ins, &mut acc)
                } else {
                    self.exec_register_binary(ins, &mut acc)
                }
            },
            Instruction::LdR8Imm(_) => self.exec_ld_imm8(ins, &mut acc),
            Instruction::AluImm(_) => self.exec_alu_imm(ins, &mut acc),
            Instruction::LdhImmA => self.exec_ldh_store(ins, &mut acc),
            Instruction::LdhAImm => self.exec_ldh_load(ins, &mut acc),
            Instruction::AddSpImm => self.exec_add_sp(ins, &mut acc),
            Instruction::LdHlSpImm => self.exec_ld_hl_sp(ins, &mut acc),
            Instruction::LdR16Imm(_) => self.exec_ld_imm16(ins, &mut acc),
            Instruction::LdAbsA => self.exec_store_abs(ins, &mut acc),
            Instruction::LdAAbs => self.exec_load_abs(ins, &mut acc),
            Instruction::LdImmSp => self.exec_store_sp(ins, &mut acc),
            Instruction::LdIndA(_) | Instruction::LdAInd(_) | Instruction::LdhCA | Instruction::LdhAC => {
                self.exec_indirect(ins, &mut acc)
            },
            Instruction::Jr | Instruction::JrCond(_) => self.exec_jr(ins, &mut acc),
            Instruction::Ret | Instruction::Reti | Instruction::RetCond(_) => self.exec_ret(ins, &mut acc),
            Instruction::Pop(_) => self.exec_pop(ins, &mut acc),
            Instruction::Push(_) => self.exec_push(ins, &mut acc),
            Instruction::Jp | Instruction::JpCond(_) => self.exec_jp(ins, &mut acc),
            Instruction::JpHl => self.exec_jp_hl(ins, &mut acc),
            Instruction::Call | Instruction::CallCond(_) => self.exec_call(ins, &mut acc),
            Instruction::Rst(_) => self.exec_rst(ins, &mut acc),
        };
        match r {
            Ok(()) => Ok(acc),
            Err(f) => Err(f),
        }
    }
}

impl<H: HandlerHolder> Cpu<H> {
    /// Pushes `v` without a step of the components.
    #[verifier::spinoff_prover]
    fn push_raw(&mut self, v: u8) -> (r: Result<(), Fault>)
        requires
            old(self).wf(),
        ensures
            final(self).wf(),
            r is Ok ==> final(self).regs == (Registers { sp: prev16(old(self).regs.sp), ..old(self).regs }),
            old(self).kept(&*final(self)),
            old(self).handler_holder.faultless() ==> r is Ok && final(self).handler_holder.faultless(),
            r matches Err(f) ==> !(f is IllegalOpcode),
            r matches Err(f) ==> final(self).explains(f),
    {
        self.regs.sp = if self.regs.sp == 0 { 0xFFFF } else { self.regs.sp - 1 };
        let sp = self.regs.sp;
        self.set_deref(sp, v)
    }

    /// Serves an interrupt: the master enable goes off, the PC is pushed, and the CPU jumps to
    /// the interrupt's vector.
    #[verifier::spinoff_prover]
    fn serve(&mut self, i: Interrupt) -> (r: Result<(), Fault>)
        requires
            old(self).wf(),
        ensures
            final(self).wf(),
            r is Ok ==> final(self).regs == (Registers { pc: vector(i), sp: prev16(prev16(old(self).regs.sp)),
                ..old(self).regs }),
            final(self).interrupt_handler.enabled == InterruptStatus::Disabled,
            final(self).state == old(self).state,
            r is Ok ==> !final(self).called_set_pc,
            old(self).handler_holder.faultless() ==> r is Ok && final(self).handler_holder.faultless(),
            r matches Err(f) ==> !(f is IllegalOpcode),
            r matches Err(f) ==> final(self).explains(f),
    {
        self.interrupt_handler.disable();
        let next = self.regs.pc;
        self.push_raw((next / 256) as u8)?;
        self.push_raw((next % 256) as u8)?;
        let address: u16 = match i {
            Interrupt::VBlank => 0x0040,
            Interrupt::Stat => 0x0048,
            Interrupt::Timer => 0x0050,
            Interrupt::Joypad => 0x0060,
        };
        self.set_pc(address)?;
        self.called_set_pc = false;
        Ok(())
    }

    /// Asks for an interrupt.
    #[verifier::spinoff_prover]
    pub fn request_interrupt(&mut self, i: Interrupt)
        requires
            old(self).wf(),
        ensures
            final(self).wf(),
            *final(self) == (Cpu { interrupt_handler: final(self).interrupt_handler, ..*old(self) }),
            final(self).interrupt_handler.enabled == old(self).interrupt_handler.enabled,
            i == Interrupt::VBlank ==> final(self).interrupt_handler.register.v_blank,
            i == Interrupt::Stat ==> final(self).interrupt_handler.register.stat,
            i == Interrupt::Timer ==> final(self).interrupt_handler.register.timer,
            i == Interrupt::Joypad ==> final(self).interrupt_handler.register.joypad,
            final(self).interrupt_handler == (InterruptHandler { register: noted(old(self).interrupt_handler.register, Some(i)),
                ..old(self).interrupt_handler }),
    {
        let v = vec![i];
        assert(v@[0] == i);
        self.interrupt_handler.add_interrupts(v);
    }

    /// Fetches, decodes and executes the instruction at the PC, and moves the PC past it unless
    /// it jumped.
    #[verifier::spinoff_prover]
    fn run_instruction(&mut self) -> (r: Result<Step, Fault>)
        requires
            old(self).wf(),
        ensures
            final(self).wf(),
            r matches Ok(st) ==> st is Instruction,
            r matches Ok(Step::Instruction { instruction, opcode, prefixed, access }) ==> ({
                let r0 = if prefixed { Registers { pc: next16(old(self).regs.pc), ..old(self).regs } } else {
                    old(self).regs };
                let e = effect(instruction, r0, values(access.reads@));
                &&& Some(instruction) == (if prefixed { crate::opcode::decode_cb_spec(opcode) } else {
                    crate::opcode::decode_spec(opcode) })
                &&& addresses(access.reads@) == e.reads
                &&& access.writes@ == e.writes
                &&& access.cycles == e.cycles
                &&& final(self).regs == (Registers { pc: if old(self).called_set_pc || e.jump { e.regs.pc } else {
                    next16(e.regs.pc) }, ..e.regs })
                &&& !final(self).called_set_pc
                &&& final(self).state == (match e.state {
                    Some(st) => st,
                    None => old(self).state,
                })
                &&& final(self).interrupt_handler.enabled == (match e.ime {
                    Some(true) => InterruptStatus::Enabling,
                    Some(false) => InterruptStatus::Disabled,
                    None => old(self).interrupt_handler.enabled,
                })
            }),
            r matches Err(Fault::IllegalOpcode { prefixed, byte }) ==> (if prefixed { crate::opcode::decode_cb_spec(byte) }
                else { crate::opcode::decode_spec(byte) }) is None,
            old(self).handler_holder.faultless() ==> (r matches Err(f) ==> (f matches Fault::Jump(t) && no_code(t))
                || f is IllegalOpcode),
            r matches Err(f) ==> final(self).explains(f),
            r matches Err(Fault::IllegalOpcode { .. }) ==> final(self).state == old(self).state,
    {
        let pc = self.regs.pc;
        let hex = self.deref(pc)?;
        let prefixed = hex == 0xCB;
        let opcode = if prefixed {
            self.regs.pc = crate::cpu::inc_16(pc);
            self.step_components()?;
            let at = self.regs.pc;
            self.deref(at)?
        } else {
            hex
        };
        let instruction = match crate::opcode::from_byte(opcode, prefixed) {
            Some(i) => i,
            None => {
                return Err(Fault::IllegalOpcode { prefixed, byte: opcode });
            },
        };
        proof { lemma_decoded_executable(opcode, prefixed); }
        let access = self.execute(instruction)?;
        self.step_components()?;
        if !self.called_set_pc {
            self.regs.pc = crate::cpu::inc_16(self.regs.pc);
        } else {
            self.called_set_pc = false;
        }
        Ok(Step::Instruction { instruction, opcode, prefixed, access })
    }

    /// Notes the interrupt that the bus requests.
    #[verifier::spinoff_prover]
    fn note_requests(&mut self) -> (r: Result<(), Fault>)
        requires
            old(self).wf(),
        ensures
            final(self).wf(),
            final(self).regs == old(self).regs,
            final(self).called_set_pc == old(self).called_set_pc,
            final(self).state == old(self).state,
            final(self).interrupt_handler.enabled == old(self).interrupt_handler.enabled,
            old(self).handler_holder.faultless() ==> r is Ok && final(self).handler_holder.faultless(),
            r is Err ==> r == Err::<(), Fault>(Fault::Bus),
            exists|x: Result<Option<Interrupt>, Fault>| #![trigger old(self).handler_holder.interrupt_result(x,
                &final(self).handler_holder)] old(self).handler_holder.interrupt_result(x,
                &final(self).handler_holder) && (x is Err <==> r is Err) && final(self).interrupt_handler == (InterruptHandler {
                register: noted(old(self).interrupt_handler.register, if x is Ok { x->Ok_0 } else { None }),
                ..old(self).interrupt_handler }),
            r matches Err(f) ==> !(f is IllegalOpcode),
            r matches Err(f) ==> final(self).explains(f),
    {
        let requested = self.handler_holder.check_interrupts();
        let ghost before = *old(self);
        match requested {
            Err(f) => {
                assert(before.handler_holder.interrupt_result(requested, &self.handler_holder));
                return Err(f);
            },
            Ok(Some(i)) => self.request_interrupt(i),
            Ok(None) => {},
        }
        assert(before.handler_holder.interrupt_result(requested, &self.handler_holder));
        Ok(())
    }

    /// Notes the interrupt that the bus requests, wakes the CPU up if any interrupt is
    /// requested, and takes the interrupt to serve, if interrupts are enabled.
    #[verifier::spinoff_prover]
    fn poll_interrupts(&mut self) -> (r: Result<Option<Interrupt>, Fault>)
        requires
            old(self).wf(),
        ensures
            final(self).wf(),
            final(self).regs == old(self).regs,
            final(self).called_set_pc == old(self).called_set_pc,
            final(self).state == old(self).state || final(self).state == CpuState::Running,
            r matches Ok(Some(_)) ==> final(self).state == CpuState::Running,
            r matches Ok(None) ==> final(self).interrupt_handler.enabled == (if old(self).interrupt_handler.enabled
                == InterruptStatus::Enabling { InterruptStatus::Enabled } else { old(self).interrupt_handler.enabled }),
            old(self).handler_holder.faultless() ==> r is Ok && final(self).handler_holder.faultless(),
            r is Err ==> r == Err::<Option<Interrupt>, Fault>(Fault::Bus),
            r matches Err(f) ==> !(f is IllegalOpcode),
            r matches Err(f) ==> final(self).explains(f),
    {
        self.note_requests()?;
        let waiting = self.interrupt_handler.has_interrupts();
        if waiting {
            self.state = CpuState::Running;
        }
        let ghost reg = self.interrupt_handler.register;
        let ghost status = self.interrupt_handler.enabled;
        let served = self.interrupt_handler.get_interrupt();
        proof { lemma_served_requested(status, reg); }
        Ok(served)
    }

    /// One step of the CPU: the interrupt that the bus requests is noted; a requested interrupt
    /// wakes the CPU up; an interrupt that is enabled and served is taken; otherwise a running
    /// CPU fetches, decodes and executes the instruction at the PC, and moves the PC past it
    /// unless it jumped; a halted or stopped CPU waits.
    #[verifier::spinoff_prover]
    pub fn next_instruction(&mut self) -> (r: Result<Step, Fault>)
        requires
            old(self).wf(),
        ensures
            final(self).wf(),
            r matches Ok(Step::Interrupt(i)) ==> final(self).regs == (Registers { pc: vector(i), sp: prev16(prev16(
                old(self).regs.sp)), ..old(self).regs }) && final(self).interrupt_handler.enabled == InterruptStatus::Disabled
                && !final(self).called_set_pc && final(self).state == CpuState::Running,
            r matches Ok(Step::Wait) ==> final(self).regs == old(self).regs && final(self).state == old(self).state
                && old(self).state != CpuState::Running,
            r matches Ok(Step::Instruction { instruction, opcode, prefixed, access }) ==> ({
                let r0 = if prefixed { Registers { pc: next16(old(self).regs.pc), ..old(self).regs } } else {
                    old(self).regs };
                let e = effect(instruction, r0, values(access.reads@));
                &&& Some(instruction) == (if prefixed { crate::opcode::decode_cb_spec(opcode) } else {
                    crate::opcode::decode_spec(opcode) })
                &&& addresses(access.reads@) == e.reads
                &&& access.writes@ == e.writes
                &&& access.cycles == e.cycles
                &&& final(self).regs == (Registers { pc: if old(self).called_set_pc || e.jump { e.regs.pc } else {
                    next16(e.regs.pc) }, ..e.regs })
                &&& !final(self).called_set_pc
                &&& final(self).state == (match e.state {
                    Some(st) => st,
                    None => CpuState::Running,
                })
                &&& final(self).interrupt_handler.enabled == (match e.ime {
                    Some(true) => InterruptStatus::Enabling,
                    Some(false) => InterruptStatus::Disabled,
                    None => if old(self).interrupt_handler.enabled == InterruptStatus::Enabling {
                        InterruptStatus::Enabled
                    } else {
                        old(self).interrupt_handler.enabled
                    },
                })
            }),
            r matches Err(Fault::IllegalOpcode { prefixed, byte }) ==> (if prefixed { crate::opcode::decode_cb_spec(byte) }
                else { crate::opcode::decode_spec(byte) }) is None,
            old(self).handler_holder.faultless() ==> (r matches Err(f) ==> (f matches Fault::Jump(t) && no_code(t))
                || f is IllegalOpcode),
            r matches Err(f) ==> final(self).explains(f),
            r matches Err(Fault::IllegalOpcode { .. }) ==> final(self).state == CpuState::Running,
    {
        let interrupt = self.poll_interrupts()?;
        match interrupt {
            Some(i) => {
                self.serve(i)?;
                return Ok(Step::Interrupt(i));
            },
            None => {},
        }
        match self.state {
            CpuState::Running => self.run_instruction(),
            _ => {
                self.step_components()?;
                Ok(Step::Wait)
            },
        }
    }
}

/// The register accessors of the CPU, each changing nothing else.
#[allow(non_snake_case)]
impl<H: HandlerHolder> Cpu<H> {
    #[verifier::spinoff_prover]
    pub fn get_A_reg(&self) -> (r: u8)
        ensures
            r == self.regs.a,
    {
        self.regs.a
    }

    #[verifier::spinoff_prover]
    pub fn set_A_reg(&mut self, v: u8)
        ensures
            *final(self) == (Cpu { regs: Registers { a: v, ..old(self).regs }, ..*old(self) }),
    {
        self.regs.a = v;
    }

    #[verifier::spinoff_prover]
    pub fn get_B_reg(&self) -> (r: u8)
        ensures
            r == self.regs.b,
    {
        self.regs.b
    }

    #[verifier::spinoff_prover]
    pub fn set_B_reg(&mut self, v: u8)
        ensures
            *final(self) == (Cpu { regs: Registers { b: v, ..old(self).regs }, ..*old(self) }),
    {
        self.regs.b = v;
    }

    #[verifier::spinoff_prover]
    pub fn get_C_reg(&self) -> (r: u8)
        ensures
            r == self.regs.c,
    {
        self.regs.c
    }

    #[verifier::spinoff_prover]
    pub fn set_C_reg(&mut self, v: u8)
        ensures
            *final(self) == (Cpu { regs: Registers { c: v, ..old(self).regs }, ..*old(self) }),
    {
        self.regs.c = v;
    }

    #[verifier::spinoff_prover]
    pub fn get_D_reg(&self) -> (r: u8)
        ensures
            r == self.regs.d,
    {
        self.regs.d
    }

    #[verifier::spinoff_prover]
    pub fn set_D_reg(&mut self, v: u8)
        ensures
            *final(self) == (Cpu { regs: Registers { d: v, ..old(self).regs }, ..*old(self) }),
    {
        self.regs.d = v;
    }

    #[verifier::spinoff_prover]
    pub fn get_E_reg(&self) -> (r: u8)
        ensures
            r == self.regs.e,
    {
        self.regs.e
    }

    #[verifier::spinoff_prover]
    pub fn set_E_reg(&mut self, v: u8)
        ensures
            *final(self) == (Cpu { regs: Registers { e: v, ..old(self).regs }, ..*old(self) }),
    {
        self.regs.e = v;
    }

    #[verifier::spinoff_prover]
    pub fn get_H_reg(&self) -> (r: u8)
        ensures
            r == self.regs.h,
    {
        self.regs.h
    }

    #[verifier::spinoff_prover]
    pub fn set_H_reg(&mut self, v: u8)
        ensures
            *final(self) == (Cpu { regs: Registers { h: v, ..old(self).regs }, ..*old(self) }),
    {
        self.regs.h = v;
    }

    #[verifier::spinoff_prover]
    pub fn get_L_reg(&self) -> (r: u8)
        ensures
            r == self.regs.l,
    {
        self.regs.l
    }

    #[verifier::spinoff_prover]
    pub fn set_L_reg(&mut self, v: u8)
        ensures
            *final(self) == (Cpu { regs: Registers { l: v, ..old(self).regs }, ..*old(self) }),
    {
        self.regs.l = v;
    }

    #[verifier::spinoff_prover]
    pub fn get_Z_flag(&self) -> (r: bool)
        ensures
            r == self.regs.flags.z,
    {
        self.regs.flags.z
    }

    #[verifier::spinoff_prover]
    pub fn set_Z_flag(&mut self)
        ensures
            *final(self) == (Cpu { regs: Registers { flags: Flags { z: true, ..old(self).regs.flags }, ..old(self).regs },
                ..*old(self) }),
    {
        self.regs.flags.z = true;
    }

    #[verifier::spinoff_prover]
    pub fn reset_Z(&mut self)
        ensures
            *final(self) == (Cpu { regs: Registers { flags: Flags { z: false, ..old(self).regs.flags }, ..old(self).regs },
                ..*old(self) }),
    {
        self.regs.flags.z = false;
    }

    #[verifier::spinoff_prover]
    pub fn get_N_flag(&self) -> (r: bool)
        ensures
            r == self.regs.flags.n,
    {
        self.regs.flags.n
    }

    #[verifier::spinoff_prover]
    pub fn set_N_flag(&mut self)
        ensures
            *final(self) == (Cpu { regs: Registers { flags: Flags { n: true, ..old(self).regs.flags }, ..old(self).regs },
                ..*old(self) }),
    {
        self.regs.flags.n = true;
    }

    #[verifier::spinoff_prover]
    pub fn reset_N(&mut self)
        ensures
            *final(self) == (Cpu { regs: Registers { flags: Flags { n: false, ..old(self).regs.flags }, ..old(self).regs },
                ..*old(self) }),
    {
        self.regs.flags.n = false;
    }

    #[verifier::spinoff_prover]
    pub fn get_H_flag(&self) -> (r: bool)
        ensures
            r == self.regs.flags.h,
    {
        self.regs.flags.h
    }

    #[verifier::spinoff_prover]
    pub fn set_H_flag(&mut self)
        ensures
            *final(self) == (Cpu { regs: Registers { flags: Flags { h: true, ..old(self).regs.flags }, ..old(self).regs },
                ..*old(self) }),
    {
        self.regs.flags.h = true;
    }

    #[verifier::spinoff_prover]
    pub fn reset_H(&mut self)
        ensures
            *final(self) == (Cpu { regs: Registers { flags: Flags { h: false, ..old(self).regs.flags }, ..old(self).regs },
                ..*old(self) }),
    {
        self.regs.flags.h = false;
    }

    #[verifier::spinoff_prover]
    pub fn get_C_flag(&self) -> (r: bool)
        ensures
            r == self.regs.flags.c,
    {
        self.regs.flags.c
    }

    #[verifier::spinoff_prover]
    pub fn set_C_flag(&mut self)
        ensures
            *final(self) == (Cpu { regs: Registers { flags: Flags { c: true, ..old(self).regs.flags }, ..old(self).regs },
                ..*old(self) }),
    {
        self.regs.flags.c = true;
    }

    #[verifier::spinoff_prover]
    pub fn reset_C(&mut self)
        ensures
            *final(self) == (Cpu { regs: Registers { flags: Flags { c: false, ..old(self).regs.flags }, ..old(self).regs },
                ..*old(self) }),
    {
        self.regs.flags.c = false;
    }

    /// The F register: the flags in bits 4-7.
    #[verifier::spinoff_prover]
    pub fn get_F_reg(&self) -> (r: u8)
        ensures
            r == pack_flags(self.regs.flags),
    {
        self.regs.get_f()
    }

    /// Sets the flags from bits 4-7 of `v`.
    #[verifier::spinoff_prover]
    pub fn set_F_reg(&mut self, v: u8)
        ensures
            *final(self) == (Cpu { regs: Registers { flags: unpack_flags(v), ..old(self).regs }, ..*old(self) }),
    {
        self.regs.set_f(v);
    }

    #[verifier::spinoff_prover]
    pub fn get_BC(&self) -> (r: u16)
        ensures
            r == get16(self.regs, R16::BC),
    {
        read_r16(&self.regs, R16::BC)
    }

    #[verifier::spinoff_prover]
    pub fn get_DE(&self) -> (r: u16)
        ensures
            r == get16(self.regs, R16::DE),
    {
        read_r16(&self.regs, R16::DE)
    }

    #[verifier::spinoff_prover]
    pub fn get_HL(&self) -> (r: u16)
        ensures
            r == get16(self.regs, R16::HL),
    {
        read_r16(&self.regs, R16::HL)
    }

    #[verifier::spinoff_prover]
    pub fn set_BC(&mut self, v: u16)
        ensures
            *final(self) == (Cpu { regs: set16(old(self).regs, R16::BC, v), ..*old(self) }),
    {
        write_r16(&mut self.regs, R16::BC, v);
    }

    #[verifier::spinoff_prover]
    pub fn set_DE(&mut self, v: u16)
        ensures
            *final(self) == (Cpu { regs: set16(old(self).regs, R16::DE, v), ..*old(self) }),
    {
        write_r16(&mut self.regs, R16::DE, v);
    }

    #[verifier::spinoff_prover]
    pub fn set_HL(&mut self, v: u16)
        ensures
            *final(self) == (Cpu { regs: set16(old(self).regs, R16::HL, v), ..*old(self) }),
    {
        write_r16(&mut self.regs, R16::HL, v);
    }

    #[verifier::spinoff_prover]
    pub fn get_SP(&self) -> (r: u16)
        ensures
            r == self.regs.sp,
    {
        self.regs.sp
    }

    #[verifier::spinoff_prover]
    pub fn set_SP(&mut self, v: u16)
        ensures
            *final(self) == (Cpu { regs: Registers { sp: v, ..old(self).regs }, ..*old(self) }),
    {
        self.regs.sp = v;
    }

    #[verifier::spinoff_prover]
    pub fn get_PC(&self) -> (r: u16)
        ensures
            r == self.regs.pc,
    {
        self.regs.pc
    }

    /// Jumps to `v`, which the next step does not move past; a jump where no code can be is
    /// refused.
    #[verifier::spinoff_prover]
    pub fn set_PC(&mut self, v: u16) -> (r: Result<(), Fault>)
        ensures
            r is Ok <==> !no_code(v),
            r is Err ==> *final(self) == *old(self),
            r is Ok ==> *final(self) == (Cpu { regs: Registers { pc: v, ..old(self).regs }, called_set_pc: true,
                ..*old(self) }),
    {
        self.set_pc(v)
    }

    #[verifier::spinoff_prover]
    pub fn reset_call_set_PC(&mut self)
        ensures
            *final(self) == (Cpu { called_set_pc: false, ..*old(self) }),
    {
        self.called_set_pc = false;
    }

    /// Watches `address`: an access to it raises the address breakpoint.
    #[verifier::spinoff_prover]
    pub fn watch(&mut self, address: u16)
        ensures
            final(self).watch_addresses@.contains(address),
            forall|a: u16| a != address ==> (final(self).watch_addresses@.contains(a) <==> old(
                self).watch_addresses@.contains(a)),
            final(self).regs == old(self).regs,
            final(self).handler_holder == old(self).handler_holder,
    {
        if !self.watched(address) {
            self.watch_addresses.push(address);
            assert(self.watch_addresses@[self.watch_addresses@.len() - 1] == address);
            assert forall|a: u16| a != address && old(self).watch_addresses@.contains(a) implies self.watch_addresses@.contains(
                a) by {
                let j = choose|j: int| 0 <= j < old(self).watch_addresses@.len() && old(self).watch_addresses@[j] == a;
                assert(self.watch_addresses@[j] == a);
            }
        }
    }

    /// Watches no address any more.
    #[verifier::spinoff_prover]
    pub fn clear_watch(&mut self)
        ensures
            final(self).watch_addresses@ == Seq::<u16>::empty(),
            final(self).regs == old(self).regs,
            final(self).handler_holder == old(self).handler_holder,
    {
        self.watch_addresses.clear();
    }

    /// Whether a watched address was accessed since the last call; the flag is cleared.
    #[verifier::spinoff_prover]
    pub fn address_breakpoint(&mut self) -> (r: bool)
        ensures
            r == old(self).address_breakpoint,
            *final(self) == (Cpu { address_breakpoint: false, ..*old(self) }),
    {
        let hit = self.address_breakpoint;
        self.address_breakpoint = false;
        hit
    }

    #[verifier::spinoff_prover]
    pub fn get_state(&self) -> (r: CpuState)
        ensures
            r == self.state,
    {
        self.state
    }

    #[verifier::spinoff_prover]
    pub fn get_cycles(&self) -> (r: u64)
        ensures
            r == self.cycles,
    {
        self.cycles
    }

    #[verifier::spinoff_prover]
    pub fn set_debug(&mut self, debug: bool)
        ensures
            *final(self) == (Cpu { debug, ..*old(self) }),
    {
        self.debug = debug;
    }

    #[verifier::spinoff_prover]
    pub fn get_debug(&self) -> (r: bool)
        ensures
            r == self.debug,
    {
        self.debug
    }

    #[verifier::spinoff_prover]
    pub fn set_state(&mut self, state: CpuState)
        ensures
            *final(self) == (Cpu { state, ..*old(self) }),
    {
        self.state = state;
    }

    /// Whether the running instruction has set the PC.
    #[verifier::spinoff_prover]
    pub fn did_call_set_PC(&self) -> (r: bool)
        ensures
            r == self.called_set_pc,
    {
        self.called_set_pc
    }

    /// Clears the interrupt master enable.
    #[verifier::spinoff_prover]
    pub fn disable_interrupts(&mut self)
        ensures
            *final(self) == (Cpu { interrupt_handler: InterruptHandler { enabled: InterruptStatus::Disabled,
                ..old(self).interrupt_handler }, ..*old(self) }),
    {
        self.interrupt_handler.disable();
    }

    /// Sets the interrupt master enable, which takes effect after the next instruction.
    #[verifier::spinoff_prover]
    pub fn enable_interrupts(&mut self)
        ensures
            *final(self) == (Cpu { interrupt_handler: InterruptHandler { enabled: InterruptStatus::Enabling,
                ..old(self).interrupt_handler }, ..*old(self) }),
    {
        self.interrupt_handler.enable();
    }

    /// Moves the PC on by one, wrapping.
    #[verifier::spinoff_prover]
    pub fn inc_PC(&mut self)
        ensures
            *final(self) == (Cpu { regs: Registers { pc: next16(old(self).regs.pc), ..old(self).regs }, ..*old(self) }),
    {
        self.regs.pc = if self.regs.pc == 0xFFFF { 0 } else { self.regs.pc + 1 };
    }

    /// Moves the SP on by one, wrapping.
    #[verifier::spinoff_prover]
    pub fn inc_SP(&mut self)
        ensures
            *final(self) == (Cpu { regs: Registers { sp: next16(old(self).regs.sp), ..old(self).regs }, ..*old(self) }),
    {
        self.regs.sp = if self.regs.sp == 0xFFFF { 0 } else { self.regs.sp + 1 };
    }

    /// Reads the byte at the PC, as `deref` does.
    #[verifier::spinoff_prover]
    pub fn deref_PC(&mut self) -> (r: Result<u8, Fault>)
        requires
            old(self).wf(),
        ensures
            final(self).wf(),
            final(self).regs == old(self).regs,
            old(self).kept(&*final(self)),
            r is Err <==> !is_timer_or_interrupt(old(self).regs.pc) && !old(self).handler_holder.can_read(
                old(self).regs.pc),
            r matches Ok(v) ==> (!is_timer_or_interrupt(old(self).regs.pc) ==> old(self).handler_holder.read_result(
                old(self).regs.pc, v)),
            *final(self) == (Cpu { address_breakpoint: final(self).address_breakpoint, ..*old(self) }),
    {
        let address = self.regs.pc;
        self.deref(address)
    }

    /// Reads the byte at BC, as `deref` does.
    #[verifier::spinoff_prover]
    pub fn deref_BC(&mut self) -> (r: Result<u8, Fault>)
        requires
            old(self).wf(),
        ensures
            final(self).wf(),
            final(self).regs == old(self).regs,
            old(self).kept(&*final(self)),
            r is Err <==> !is_timer_or_interrupt(get16(old(self).regs, R16::BC)) && !old(self).handler_holder.can_read(
                get16(old(self).regs, R16::BC)),
            r matches Ok(v) ==> (!is_timer_or_interrupt(get16(old(self).regs, R16::BC))
                ==> old(self).handler_holder.read_result(get16(old(self).regs, R16::BC), v)),
            *final(self) == (Cpu { address_breakpoint: final(self).address_breakpoint, ..*old(self) }),
    {
        let address = self.get_BC();
        self.deref(address)
    }

    /// Reads the byte at DE, as `deref` does.
    #[verifier::spinoff_prover]
    pub fn deref_DE(&mut self) -> (r: Result<u8, Fault>)
        requires
            old(self).wf(),
        ensures
            final(self).wf(),
            final(self).regs == old(self).regs,
            old(self).kept(&*final(self)),
            r is Err <==> !is_timer_or_interrupt(get16(old(self).regs, R16::DE)) && !old(self).handler_holder.can_read(
                get16(old(self).regs, R16::DE)),
            r matches Ok(v) ==> (!is_timer_or_interrupt(get16(old(self).regs, R16::DE))
                ==> old(self).handler_holder.read_result(get16(old(self).regs, R16::DE), v)),
            *final(self) == (Cpu { address_breakpoint: final(self).address_breakpoint, ..*old(self) }),
    {
        let address = self.get_DE();
        self.deref(address)
    }

    /// Reads the byte at HL, as `deref` does.
    #[verifier::spinoff_prover]
    pub fn deref_HL(&mut self) -> (r: Result<u8, Fault>)
        requires
            old(self).wf(),
        ensures
            final(self).wf(),
            final(self).regs == old(self).regs,
            old(self).kept(&*final(self)),
            r is Err <==> !is_timer_or_interrupt(hl(old(self).regs)) && !old(self).handler_holder.can_read(
                hl(old(self).regs)),
            r matches Ok(v) ==> (!is_timer_or_interrupt(hl(old(self).regs)) ==> old(self).handler_holder.read_result(
                hl(old(self).regs), v)),
            *final(self) == (Cpu { address_breakpoint: final(self).address_breakpoint, ..*old(self) }),
    {
        let address = self.get_HL();
        self.deref(address)
    }

    /// Reads the byte at the SP, as `deref` does.
    #[verifier::spinoff_prover]
    pub fn deref_SP(&mut self) -> (r: Result<u8, Fault>)
        requires
            old(self).wf(),
        ensures
            final(self).wf(),
            final(self).regs == old(self).regs,
            old(self).kept(&*final(self)),
            r is Err <==> !is_timer_or_interrupt(old(self).regs.sp) && !old(self).handler_holder.can_read(
                old(self).regs.sp),
            r matches Ok(v) ==> (!is_timer_or_interrupt(old(self).regs.sp) ==> old(self).handler_holder.read_result(
                old(self).regs.sp, v)),
            *final(self) == (Cpu { address_breakpoint: final(self).address_breakpoint, ..*old(self) }),
    {
        let address = self.regs.sp;
        self.deref(address)
    }

    /// Writes `v` at BC, as `set_deref` does.
    #[verifier::spinoff_prover]
    pub fn set_deref_BC(&mut self, v: u8) -> (r: Result<(), Fault>)
        requires
            old(self).wf(),
        ensures
            final(self).wf(),
            final(self).regs == old(self).regs,
            old(self).kept(&*final(self)),
            r is Err <==> !is_timer_or_interrupt(get16(old(self).regs, R16::BC)) && !old(self).handler_holder.can_write(
                get16(old(self).regs, R16::BC), v),
    {
        let address = self.get_BC();
        self.set_deref(address, v)
    }

    /// Writes `v` at DE, as `set_deref` does.
    #[verifier::spinoff_prover]
    pub fn set_deref_DE(&mut self, v: u8) -> (r: Result<(), Fault>)
        requires
            old(self).wf(),
        ensures
            final(self).wf(),
            final(self).regs == old(self).regs,
            old(self).kept(&*final(self)),
            r is Err <==> !is_timer_or_interrupt(get16(old(self).regs, R16::DE)) && !old(self).handler_holder.can_write(
                get16(old(self).regs, R16::DE), v),
    {
        let address = self.get_DE();
        self.set_deref(address, v)
    }

    /// Writes `v` at HL, as `set_deref` does.
    #[verifier::spinoff_prover]
    pub fn set_deref_HL(&mut self, v: u8) -> (r: Result<(), Fault>)
        requires
            old(self).wf(),
        ensures
            final(self).wf(),
            final(self).regs == old(self).regs,
            old(self).kept(&*final(self)),
            r is Err <==> !is_timer_or_interrupt(hl(old(self).regs)) && !old(self).handler_holder.can_write(
                hl(old(self).regs), v),
    {
        let address = self.get_HL();
        self.set_deref(address, v)
    }

    /// Writes `v` at the SP, as `set_deref` does.
    #[verifier::spinoff_prover]
    pub fn set_deref_SP(&mut self, v: u8) -> (r: Result<(), Fault>)
        requires
            old(self).wf(),
        ensures
            final(self).wf(),
            final(self).regs == old(self).regs,
            old(self).kept(&*final(self)),
            r is Err <==> !is_timer_or_interrupt(old(self).regs.sp) && !old(self).handler_holder.can_write(
                old(self).regs.sp, v),
    {
        let address = self.regs.sp;
        self.set_deref(address, v)
    }

    /// Pushes `v`: the SP moves down by one, wrapping, and `v` is written there.
    #[verifier::spinoff_prover]
    pub fn push_SP(&mut self, v: u8) -> (r: Result<(), Fault>)
        requires
            old(self).wf(),
        ensures
            final(self).wf(),
            final(self).regs == (Registers { sp: prev16(old(self).regs.sp), ..old(self).regs }),
            old(self).kept(&*final(self)),
            r is Err <==> !is_timer_or_interrupt(prev16(old(self).regs.sp)) && !old(self).handler_holder.can_write(
                prev16(old(self).regs.sp), v),
    {
        self.regs.sp = if self.regs.sp == 0 { 0xFFFF } else { self.regs.sp - 1 };
        self.set_deref_SP(v)
    }

    /// Pops a byte: it is read at the SP, which then moves up by one, wrapping.
    #[verifier::spinoff_prover]
    pub fn pop_SP(&mut self) -> (r: Result<u8, Fault>)
        requires
            old(self).wf(),
        ensures
            final(self).wf(),
            old(self).kept(&*final(self)),
            r is Err <==> !is_timer_or_interrupt(old(self).regs.sp) && !old(self).handler_holder.can_read(
                old(self).regs.sp),
            r is Err ==> final(self).regs == old(self).regs,
            r is Ok ==> final(self).regs == (Registers { sp: next16(old(self).regs.sp), ..old(self).regs }),
            r matches Ok(v) ==> (!is_timer_or_interrupt(old(self).regs.sp) ==> old(self).handler_holder.read_result(
                old(self).regs.sp, v)),
    {
        let v = self.deref_SP()?;
        self.inc_SP();
        Ok(v)
    }
}


#[verifier::spinoff_prover]
proof fn lemma_effect_push(r: Registers, x: R16Stack, v: Seq<u8>)
    ensures
        effect(Instruction::Push(x), r, v) == plain(Registers { sp: prev16(prev16(r.sp)), ..r }, seq![], seq![(
            prev16(r.sp), stack_pair(r, x).0), (prev16(prev16(r.sp)), stack_pair(r, x).1)], 12),
{
    reveal(effect);
}

#[verifier::spinoff_prover]
proof fn lemma_effect_pop(r: Registers, x: R16Stack, v: Seq<u8>)
    ensures
        effect(Instruction::Pop(x), r, v) == plain(pop_into(Registers { sp: next16(next16(r.sp)), ..r }, x, v[0], v[1]),
            seq![r.sp, next16(r.sp)], seq![], 8),
{
    reveal(effect);
}

#[verifier::spinoff_prover]
proof fn lemma_effect_call(r: Registers, v: Seq<u8>)
    ensures
        effect(Instruction::Call, r, v) == jump_to(Registers { sp: prev16(prev16(r.sp)), ..r }, word(v[0], v[1]), seq![
            next16(r.pc), next16(next16(r.pc))], seq![(prev16(r.sp), (next16(next16(next16(r.pc))) / 256) as u8), (prev16(
            prev16(r.sp)), (next16(next16(next16(r.pc))) % 256) as u8)], 20),
{
    reveal(effect);
}

#[verifier::spinoff_prover]
proof fn lemma_effect_ret(r: Registers, v: Seq<u8>)
    ensures
        effect(Instruction::Ret, r, v) == jump_to(Registers { sp: next16(next16(r.sp)), ..r }, word(v[0], v[1]), seq![
            r.sp, next16(r.sp)], seq![], 12),
{
    reveal(effect);
}

#[verifier::spinoff_prover]
proof fn lemma_stack_round_trip(sp: u16)
    ensures
        next16(prev16(prev16(sp))) == prev16(sp),
        next16(prev16(sp)) == sp,
{
}

/// PUSH then POP of the same register pair gives back the registers: the POP reads the bytes
/// that the PUSH wrote, from the addresses it wrote them to.
#[verifier::spinoff_prover]
pub proof fn law_push_pop(r: Registers, x: R16Stack)
    ensures
        ({
            let pushed = effect(Instruction::Push(x), r, Seq::empty());
            let w = pushed.writes;
            let popped = effect(Instruction::Pop(x), pushed.regs, seq![w[1].1, w[0].1]);
            &&& popped.reads == seq![w[1].0, w[0].0]
            &&& popped.regs == r
        }),
{
    lemma_effect_push(r, x, Seq::empty());
    let pushed = effect(Instruction::Push(x), r, Seq::empty());
    let w = pushed.writes;
    lemma_effect_pop(pushed.regs, x, seq![w[1].1, w[0].1]);
    lemma_stack_round_trip(r.sp);
    lemma_stack_round_trip(prev16(r.sp));
    crate::cpu::law_flags_round_trip(0, r.flags);
}

/// CALL then RET comes back to the instruction after the CALL, with the stack pointer where it
/// was: the RET reads the return address that the CALL pushed.
#[verifier::spinoff_prover]
pub proof fn law_call_ret(r: Registers, v: Seq<u8>)
    requires
        v.len() == 2,
    ensures
        ({
            let called = effect(Instruction::Call, r, v);
            let w = called.writes;
            let returned = effect(Instruction::Ret, called.regs, seq![w[1].1, w[0].1]);
            &&& returned.reads == seq![w[1].0, w[0].0]
            &&& returned.regs == (Registers { pc: next16(next16(next16(r.pc))), ..r })
            &&& returned.jump
        }),
{
    lemma_effect_call(r, v);
    let called = effect(Instruction::Call, r, v);
    let w = called.writes;
    lemma_effect_ret(called.regs, seq![w[1].1, w[0].1]);
    lemma_stack_round_trip(r.sp);
    lemma_stack_round_trip(prev16(r.sp));
    let ret = next16(next16(next16(r.pc)));
    assert(word((ret % 256) as u8, (ret / 256) as u8) == ret);
}

} // verus!
