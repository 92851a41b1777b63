//! The instruction set: the instructions of the CPU and their encoding in one byte, or in a
//! byte after the $CB prefix. A byte `b` splits into `x = b / 64`, `y = (b / 8) % 8` and
//! `z = b % 8`, which select the instruction and its operands.

use vstd::prelude::*;

verus! {

/// An 8-bit operand: a register, or the byte at the address in HL.
#[derive(PartialEq, Eq, Structural, Debug, Clone, Copy)]
pub enum R8 {
    B,
    C,
    D,
    E,
    H,
    L,
    HLInd,
    A,
}

/// A register pair for loads and arithmetic.
#[derive(PartialEq, Eq, Structural, Debug, Clone, Copy)]
pub enum R16 {
    BC,
    DE,
    HL,
    SP,
}

/// A register pair for the stack.
#[derive(PartialEq, Eq, Structural, Debug, Clone, Copy)]
pub enum R16Stack {
    BC,
    DE,
    HL,
    AF,
}

/// The address of a load to or from A: a register pair, or HL incremented or decremented after
/// the access.
#[derive(PartialEq, Eq, Structural, Debug, Clone, Copy)]
pub enum Indirect {
    BC,
    DE,
    HLInc,
    HLDec,
}

/// A branch condition on the flags.
#[derive(PartialEq, Eq, Structural, Debug, Clone, Copy)]
pub enum Cond {
    NZ,
    Z,
    NC,
    C,
}

/// An operation of the arithmetic and logic unit on A.
#[derive(PartialEq, Eq, Structural, Debug, Clone, Copy)]
pub enum AluOp {
    Add,
    Adc,
    Sub,
    Sbc,
    And,
    Xor,
    Or,
    Cp,
}

/// A rotation or shift of the $CB page.
#[derive(PartialEq, Eq, Structural, Debug, Clone, Copy)]
pub enum ShiftOp {
    Rlc,
    Rrc,
    Rl,
    Rr,
    Sla,
    Sra,
    Swap,
    Srl,
}

/// An instruction of the CPU.
#[derive(PartialEq, Eq, Structural, Debug, Clone, Copy)]
pub enum Instruction {
    Nop,
    Stop,
    Halt,
    Di,
    Ei,
    /// LD rr,nn
    LdR16Imm(R16),
    /// LD (BC),A; LD (DE),A; LDI (HL),A; LDD (HL),A
    LdIndA(Indirect),
    /// LD A,(BC); LD A,(DE); LDI A,(HL); LDD A,(HL)
    LdAInd(Indirect),
    IncR16(R16),
    DecR16(R16),
    /// ADD HL,rr
    AddHl(R16),
    IncR8(R8),
    DecR8(R8),
    /// LD r,n
    LdR8Imm(R8),
    Rlca,
    Rrca,
    Rla,
    Rra,
    Daa,
    Cpl,
    Scf,
    Ccf,
    /// LD (nn),SP
    LdImmSp,
    /// JR n
    Jr,
    JrCond(Cond),
    /// LD r,r' (destination, source)
    LdR8R8(R8, R8),
    Alu(AluOp, R8),
    /// The ALU operation with an immediate byte.
    AluImm(AluOp),
    Ret,
    RetCond(Cond),
    Reti,
    Pop(R16Stack),
    Push(R16Stack),
    /// JP nn
    Jp,
    JpCond(Cond),
    /// JP (HL)
    JpHl,
    /// CALL nn
    Call,
    CallCond(Cond),
    /// RST to address `8 * n`.
    Rst(u8),
    /// LDH ($FF00+n),A
    LdhImmA,
    /// LDH A,($FF00+n)
    LdhAImm,
    /// LD ($FF00+C),A
    LdhCA,
    /// LD A,($FF00+C)
    LdhAC,
    /// LD (nn),A
    LdAbsA,
    /// LD A,(nn)
    LdAAbs,
    /// ADD SP,n
    AddSpImm,
    /// LDHL SP,n
    LdHlSpImm,
    /// LD SP,HL
    LdSpHl,
    Shift(ShiftOp, R8),
    /// BIT b,r
    Bit(u8, R8),
    /// RES b,r
    ResBit(u8, R8),
    /// SET b,r
    SetBit(u8, R8),
}

pub open spec fn r8_spec(k: int) -> R8 {
    if k == 0 { R8::B } else if k == 1 { R8::C } else if k == 2 { R8::D } else if k == 3 { R8::E }
    else if k == 4 { R8::H } else if k == 5 { R8::L } else if k == 6 { R8::HLInd } else { R8::A }
}

pub open spec fn r16_spec(k: int) -> R16 {
    if k == 0 { R16::BC } else if k == 1 { R16::DE } else if k == 2 { R16::HL } else { R16::SP }
}

pub open spec fn r16_stack_spec(k: int) -> R16Stack {
    if k == 0 { R16Stack::BC } else if k == 1 { R16Stack::DE } else if k == 2 { R16Stack::HL } else { R16Stack::AF }
}

pub open spec fn indirect_spec(k: int) -> Indirect {
    if k == 0 { Indirect::BC } else if k == 1 { Indirect::DE } else if k == 2 { Indirect::HLInc } else { Indirect::HLDec }
}

pub open spec fn cond_spec(k: int) -> Cond {
    if k == 0 { Cond::NZ } else if k == 1 { Cond::Z } else if k == 2 { Cond::NC } else { Cond::C }
}

pub open spec fn alu_spec(k: int) -> AluOp {
    if k == 0 { AluOp::Add } else if k == 1 { AluOp::Adc } else if k == 2 { AluOp::Sub } else if k == 3 { AluOp::Sbc }
    else if k == 4 { AluOp::And } else if k == 5 { AluOp::Xor } else if k == 6 { AluOp::Or } else { AluOp::Cp }
}

pub open spec fn shift_spec(k: int) -> ShiftOp {
    if k == 0 { ShiftOp::Rlc } else if k == 1 { ShiftOp::Rrc } else if k == 2 { ShiftOp::Rl } else if k == 3 { ShiftOp::Rr }
    else if k == 4 { ShiftOp::Sla } else if k == 5 { ShiftOp::Sra } else if k == 6 { ShiftOp::Swap } else { ShiftOp::Srl }
}

/// The instruction of byte `b` without prefix: `None` for $CB (the prefix) and for the bytes
/// that are no instruction ($D3, $DB, $DD, $E3, $E4, $EB, $EC, $ED, $F4, $FC, $FD).
pub open spec fn decode_spec(b: u8) -> Option<Instruction> {
    let x = b as int / 64;
    let y = (b as int / 8) % 8;
    let z = b as int % 8;
    let p = y / 2;
    let q = y % 2;
    if x == 0 {
        if z == 0 {
            if y == 0 { Some(Instruction::Nop) } else if y == 1 { Some(Instruction::LdImmSp) } else if y == 2 {
                Some(Instruction::Stop) } else if y == 3 { Some(Instruction::Jr) } else { Some(
                Instruction::JrCond(cond_spec(y - 4))) }
        } else if z == 1 {
            if q == 0 { Some(Instruction::LdR16Imm(r16_spec(p))) } else { Some(Instruction::AddHl(r16_spec(p))) }
        } else if z == 2 {
            if q == 0 { Some(Instruction::LdIndA(indirect_spec(p))) } else { Some(Instruction::LdAInd(indirect_spec(p))) }
        } else if z == 3 {
            if q == 0 { Some(Instruction::IncR16(r16_spec(p))) } else { Some(Instruction::DecR16(r16_spec(p))) }
        } else if z == 4 {
            Some(Instruction::IncR8(r8_spec(y)))
        } else if z == 5 {
            Some(Instruction::DecR8(r8_spec(y)))
        } else if z == 6 {
            Some(Instruction::LdR8Imm(r8_spec(y)))
        } else {
            Some(if y == 0 { Instruction::Rlca } else if y == 1 { Instruction::Rrca } else if y == 2 {
                Instruction::Rla } else if y == 3 { Instruction::Rra } else if y == 4 { Instruction::Daa } else if y
                == 5 { Instruction::Cpl } else if y == 6 { Instruction::Scf } else { Instruction::Ccf })
        }
    } else if x == 1 {
        if y == 6 && z == 6 { Some(Instruction::Halt) } else { Some(Instruction::LdR8R8(r8_spec(y), r8_spec(z))) }
    } else if x == 2 {
        Some(Instruction::Alu(alu_spec(y), r8_spec(z)))
    } else {
        if z == 0 {
            if y < 4 { Some(Instruction::RetCond(cond_spec(y))) } else if y == 4 { Some(Instruction::LdhImmA) } else if y
                == 5 { Some(Instruction::AddSpImm) } else if y == 6 { Some(Instruction::LdhAImm) } else { Some(
                Instruction::LdHlSpImm) }
        } else if z == 1 {
            if q == 0 { Some(Instruction::Pop(r16_stack_spec(p))) } else if p == 0 { Some(Instruction::Ret) } else if p
                == 1 { Some(Instruction::Reti) } else if p == 2 { Some(Instruction::JpHl) } else { Some(
                Instruction::LdSpHl) }
        } else if z == 2 {
            if y < 4 { Some(Instruction::JpCond(cond_spec(y))) } else if y == 4 { Some(Instruction::LdhCA) } else if y
                == 5 { Some(Instruction::LdAbsA) } else if y == 6 { Some(Instruction::LdhAC) } else { Some(
                Instruction::LdAAbs) }
        } else if z == 3 {
            if y == 0 { Some(Instruction::Jp) } else if y == 6 { Some(Instruction::Di) } else if y == 7 { Some(
                Instruction::Ei) } else { None }
        } else if z == 4 {
            if y < 4 { Some(Instruction::CallCond(cond_spec(y))) } else { None }
        } else if z == 5 {
            if q == 0 { Some(Instruction::Push(r16_stack_spec(p))) } else if p == 0 { Some(Instruction::Call) } else {
                None }
        } else if z == 6 {
            Some(Instruction::AluImm(alu_spec(y)))
        } else {
            Some(Instruction::Rst(y as u8))
        }
    }
}

/// The instruction of byte `b` after the $CB prefix; RES 7,(HL) ($BE) is none.
pub open spec fn decode_cb_spec(b: u8) -> Option<Instruction> {
    let x = b as int / 64;
    let y = (b as int / 8) % 8;
    let z = b as int % 8;
    if x == 0 {
        Some(Instruction::Shift(shift_spec(y), r8_spec(z)))
    } else if x == 1 {
        Some(Instruction::Bit(y as u8, r8_spec(z)))
    } else if x == 2 {
        if b == 0xBE { None } else { Some(Instruction::ResBit(y as u8, r8_spec(z))) }
    } else {
        Some(Instruction::SetBit(y as u8, r8_spec(z)))
    }
}

fn r8_of(k: u8) -> (r: R8)
    requires
        k < 8,
    ensures
        r == r8_spec(k as int),
{
    match k {
        0 => R8::B,
        1 => R8::C,
        2 => R8::D,
        3 => R8::E,
        4 => R8::H,
        5 => R8::L,
        6 => R8::HLInd,
        _ => R8::A,
    }
}

fn r16_of(k: u8) -> (r: R16)
    ensures
        r == r16_spec(k as int),
{
    match k {
        0 => R16::BC,
        1 => R16::DE,
        2 => R16::HL,
        _ => R16::SP,
    }
}

fn r16_stack_of(k: u8) -> (r: R16Stack)
    ensures
        r == r16_stack_spec(k as int),
{
    match k {
        0 => R16Stack::BC,
        1 => R16Stack::DE,
        2 => R16Stack::HL,
        _ => R16Stack::AF,
    }
}

fn indirect_of(k: u8) -> (r: Indirect)
    ensures
        r == indirect_spec(k as int),
{
    match k {
        0 => Indirect::BC,
        1 => Indirect::DE,
        2 => Indirect::HLInc,
        _ => Indirect::HLDec,
    }
}

fn cond_of(k: u8) -> (r: Cond)
    ensures
        r == cond_spec(k as int),
{
    match k {
        0 => Cond::NZ,
        1 => Cond::Z,
        2 => Cond::NC,
        _ => Cond::C,
    }
}

fn alu_of(k: u8) -> (r: AluOp)
    ensures
        r == alu_spec(k as int),
{
    match k {
        0 => AluOp::Add,
        1 => AluOp::Adc,
        2 => AluOp::Sub,
        3 => AluOp::Sbc,
        4 => AluOp::And,
        5 => AluOp::Xor,
        6 => AluOp::Or,
        _ => AluOp::Cp,
    }
}

fn shift_of(k: u8) -> (r: ShiftOp)
    ensures
        r == shift_spec(k as int),
{
    match k {
        0 => ShiftOp::Rlc,
        1 => ShiftOp::Rrc,
        2 => ShiftOp::Rl,
        3 => ShiftOp::Rr,
        4 => ShiftOp::Sla,
        5 => ShiftOp::Sra,
        6 => ShiftOp::Swap,
        _ => ShiftOp::Srl,
    }
}

/// Decodes a byte: after the $CB prefix when `prefixed`.
pub fn from_byte(b: u8, prefixed: bool) -> (r: Option<Instruction>)
    ensures
        r == (if prefixed { decode_cb_spec(b) } else { decode_spec(b) }),
{
    let x = b / 64;
    let y = (b / 8) % 8;
    let z = b % 8;
    if prefixed {
        return if x == 0 {
            Some(Instruction::Shift(shift_of(y), r8_of(z)))
        } else if x == 1 {
            Some(Instruction::Bit(y, r8_of(z)))
        } else if x == 2 {
            if b == 0xBE { None } else { Some(Instruction::ResBit(y, r8_of(z))) }
        } else {
            Some(Instruction::SetBit(y, r8_of(z)))
        };
    }
    let p = y / 2;
    let q = y % 2;
    if x == 0 {
        if z == 0 {
            if y == 0 { Some(Instruction::Nop) } else if y == 1 { Some(Instruction::LdImmSp) } else if y == 2 {
                Some(Instruction::Stop) } else if y == 3 { Some(Instruction::Jr) } else { Some(
                Instruction::JrCond(cond_of(y - 4))) }
        } else if z == 1 {
            if q == 0 { Some(Instruction::LdR16Imm(r16_of(p))) } else { Some(Instruction::AddHl(r16_of(p))) }
        } else if z == 2 {
            if q == 0 { Some(Instruction::LdIndA(indirect_of(p))) } else { Some(Instruction::LdAInd(indirect_of(p))) }
        } else if z == 3 {
            if q == 0 { Some(Instruction::IncR16(r16_of(p))) } else { Some(Instruction::DecR16(r16_of(p))) }
        } else if z == 4 {
            Some(Instruction::IncR8(r8_of(y)))
        } else if z == 5 {
            Some(Instruction::DecR8(r8_of(y)))
        } else if z == 6 {
            Some(Instruction::LdR8Imm(r8_of(y)))
        } else {
            Some(if y == 0 { Instruction::Rlca } else if y == 1 { Instruction::Rrca } else if y == 2 {
                Instruction::Rla } else if y == 3 { Instruction::Rra } else if y == 4 { Instruction::Daa } else if y
                == 5 { Instruction::Cpl } else if y == 6 { Instruction::Scf } else { Instruction::Ccf })
        }
    } else if x == 1 {
        if y == 6 && z == 6 { Some(Instruction::Halt) } else { Some(Instruction::LdR8R8(r8_of(y), r8_of(z))) }
    } else if x == 2 {
        Some(Instruction::Alu(alu_of(y), r8_of(z)))
    } else {
        if z == 0 {
            if y < 4 { Some(Instruction::RetCond(cond_of(y))) } else if y == 4 { Some(Instruction::LdhImmA) } else if y
                == 5 { Some(Instruction::AddSpImm) } else if y == 6 { Some(Instruction::LdhAImm) } else { Some(
                Instruction::LdHlSpImm) }
        } else if z == 1 {
            if q == 0 { Some(Instruction::Pop(r16_stack_of(p))) } else if p == 0 { Some(Instruction::Ret) } else if p
                == 1 { Some(Instruction::Reti) } else if p == 2 { Some(Instruction::JpHl) } else { Some(
                Instruction::LdSpHl) }
        } else if z == 2 {
            if y < 4 { Some(Instruction::JpCond(cond_of(y))) } else if y == 4 { Some(Instruction::LdhCA) } else if y
                == 5 { Some(Instruction::LdAbsA) } else if y == 6 { Some(Instruction::LdhAC) } else { Some(
                Instruction::LdAAbs) }
        } else if z == 3 {
            if y == 0 { Some(Instruction::Jp) } else if y == 6 { Some(Instruction::Di) } else if y == 7 { Some(
                Instruction::Ei) } else { None }
        } else if z == 4 {
            if y < 4 { Some(Instruction::CallCond(cond_of(y))) } else { None }
        } else if z == 5 {
            if q == 0 { Some(Instruction::Push(r16_stack_of(p))) } else if p == 0 { Some(Instruction::Call) } else {
                None }
        } else if z == 6 {
            Some(Instruction::AluImm(alu_of(y)))
        } else {
            Some(Instruction::Rst(y))
        }
    }
}


pub open spec fn r8_index(r: R8) -> int {
    match r {
        R8::B => 0,
        R8::C => 1,
        R8::D => 2,
        R8::E => 3,
        R8::H => 4,
        R8::L => 5,
        R8::HLInd => 6,
        R8::A => 7,
    }
}

pub open spec fn r16_index(r: R16) -> int {
    match r {
        R16::BC => 0,
        R16::DE => 1,
        R16::HL => 2,
        R16::SP => 3,
    }
}

pub open spec fn r16_stack_index(r: R16Stack) -> int {
    match r {
        R16Stack::BC => 0,
        R16Stack::DE => 1,
        R16Stack::HL => 2,
        R16Stack::AF => 3,
    }
}

pub open spec fn indirect_index(r: Indirect) -> int {
    match r {
        Indirect::BC => 0,
        Indirect::DE => 1,
        Indirect::HLInc => 2,
        Indirect::HLDec => 3,
    }
}

pub open spec fn cond_index(c: Cond) -> int {
    match c {
        Cond::NZ => 0,
        Cond::Z => 1,
        Cond::NC => 2,
        Cond::C => 3,
    }
}

pub open spec fn alu_index(op: AluOp) -> int {
    match op {
        AluOp::Add => 0,
        AluOp::Adc => 1,
        AluOp::Sub => 2,
        AluOp::Sbc => 3,
        AluOp::And => 4,
        AluOp::Xor => 5,
        AluOp::Or => 6,
        AluOp::Cp => 7,
    }
}

pub open spec fn shift_index(op: ShiftOp) -> int {
    match op {
        ShiftOp::Rlc => 0,
        ShiftOp::Rrc => 1,
        ShiftOp::Rl => 2,
        ShiftOp::Rr => 3,
        ShiftOp::Sla => 4,
        ShiftOp::Sra => 5,
        ShiftOp::Swap => 6,
        ShiftOp::Srl => 7,
    }
}

/// The encoding of an instruction: its byte, and whether the $CB prefix comes first.
pub open spec fn encode_spec(i: Instruction) -> (int, bool) {
    match i {
        Instruction::Nop => (0x00, false),
        Instruction::LdImmSp => (0x08, false),
        Instruction::Stop => (0x10, false),
        Instruction::Jr => (0x18, false),
        Instruction::JrCond(c) => (0x20 + 8 * cond_index(c), false),
        Instruction::LdR16Imm(r) => (0x01 + 16 * r16_index(r), false),
        Instruction::AddHl(r) => (0x09 + 16 * r16_index(r), false),
        Instruction::LdIndA(r) => (0x02 + 16 * indirect_index(r), false),
        Instruction::LdAInd(r) => (0x0A + 16 * indirect_index(r), false),
        Instruction::IncR16(r) => (0x03 + 16 * r16_index(r), false),
        Instruction::DecR16(r) => (0x0B + 16 * r16_index(r), false),
        Instruction::IncR8(r) => (0x04 + 8 * r8_index(r), false),
        Instruction::DecR8(r) => (0x05 + 8 * r8_index(r), false),
        Instruction::LdR8Imm(r) => (0x06 + 8 * r8_index(r), false),
        Instruction::Rlca => (0x07, false),
        Instruction::Rrca => (0x0F, false),
        Instruction::Rla => (0x17, false),
        Instruction::Rra => (0x1F, false),
        Instruction::Daa => (0x27, false),
        Instruction::Cpl => (0x2F, false),
        Instruction::Scf => (0x37, false),
        Instruction::Ccf => (0x3F, false),
        Instruction::Halt => (0x76, false),
        Instruction::LdR8R8(d, s) => (0x40 + 8 * r8_index(d) + r8_index(s), false),
        Instruction::Alu(op, r) => (0x80 + 8 * alu_index(op) + r8_index(r), false),
        Instruction::RetCond(c) => (0xC0 + 8 * cond_index(c), false),
        Instruction::LdhImmA => (0xE0, false),
        Instruction::AddSpImm => (0xE8, false),
        Instruction::LdhAImm => (0xF0, false),
        Instruction::LdHlSpImm => (0xF8, false),
        Instruction::Pop(r) => (0xC1 + 16 * r16_stack_index(r), false),
        Instruction::Ret => (0xC9, false),
        Instruction::Reti => (0xD9, false),
        Instruction::JpHl => (0xE9, false),
        Instruction::LdSpHl => (0xF9, false),
        Instruction::JpCond(c) => (0xC2 + 8 * cond_index(c), false),
        Instruction::LdhCA => (0xE2, false),
        Instruction::LdAbsA => (0xEA, false),
        Instruction::LdhAC => (0xF2, false),
        Instruction::LdAAbs => (0xFA, false),
        Instruction::Jp => (0xC3, false),
        Instruction::Di => (0xF3, false),
        Instruction::Ei => (0xFB, false),
        Instruction::CallCond(c) => (0xC4 + 8 * cond_index(c), false),
        Instruction::Push(r) => (0xC5 + 16 * r16_stack_index(r), false),
        Instruction::Call => (0xCD, false),
        Instruction::AluImm(op) => (0xC6 + 8 * alu_index(op), false),
        Instruction::Rst(n) => (0xC7 + 8 * n, false),
        Instruction::Shift(op, r) => (8 * shift_index(op) + r8_index(r), true),
        Instruction::Bit(n, r) => (0x40 + 8 * n + r8_index(r), true),
        Instruction::ResBit(n, r) => (0x80 + 8 * n + r8_index(r), true),
        Instruction::SetBit(n, r) => (0xC0 + 8 * n + r8_index(r), true),
    }
}

/// Decoding a byte and encoding the instruction gives back the byte: no two bytes decode to the
/// same instruction, and the prefix is told apart.
pub proof fn law_decode_encode(b: u8, prefixed: bool)
    ensures
        ({
            let d = if prefixed { decode_cb_spec(b) } else { decode_spec(b) };
            d matches Some(i) ==> encode_spec(i) == (b as int, prefixed)
        }),
{
    let x = b as int / 64;
    let y = (b as int / 8) % 8;
    let z = b as int % 8;
    assert(b as int == 64 * x + 8 * y + z);
    assert(0 <= x < 4 && 0 <= y < 8 && 0 <= z < 8);
    assert(y / 2 * 2 + y % 2 == y);
}

} // verus!
