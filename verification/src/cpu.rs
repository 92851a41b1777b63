//! The registers of the CPU and its arithmetic and logic unit: each operation computes its
//! result and sets the flags the way the Game Boy's CPU does.

use vstd::prelude::*;

verus! {

/// The state of the CPU between instructions.
#[derive(PartialEq, Eq, Structural, Debug, Clone, Copy)]
pub enum CpuState {
    Running,
    Halt,
    Stop,
}

/// The four flags: zero, subtract, half carry, carry.
#[derive(PartialEq, Eq, Structural, Debug, Clone, Copy)]
pub struct Flags {
    pub z: bool,
    pub n: bool,
    pub h: bool,
    pub c: bool,
}

/// What the shifts, masks and complements of a byte or a word are in arithmetic terms.
pub proof fn lemma_byte_ops()
    ensures
        forall|x: u8| #[trigger] (x & 0x0Fu8) == x % 16,
        forall|x: u8| #[trigger] (x >> 7u8) == x / 128,
        forall|x: u8| #[trigger] (x >> 1u8) == x / 2,
        forall|x: u8| #[trigger] (x >> 4u8) == x / 16,
        forall|x: u8| #[trigger] (x << 1u8) == (x % 128) * 2,
        forall|x: u8| #[trigger] (x << 4u8) == (x % 16) * 16,
        forall|x: u8| #[trigger] (x << 7u8) == (x % 2) * 128,
        forall|x: u8| #[trigger] (!x) == 255 - x,
        forall|x: u16| #[trigger] (x & 0x0FFFu16) == x % 4096,
        forall|x: u16| #[trigger] (x & 0x00FFu16) == x % 256,
        forall|x: u16| #[trigger] (x & 0x000Fu16) == x % 16,
        forall|x: u16| #[trigger] (x >> 8u16) == x / 256,
{
    lemma_bits_of_bytes();
    lemma_shifts_of_bytes();
    lemma_word_ops();
}

/// What the masks and right shifts of a byte are in arithmetic terms.
proof fn lemma_bits_of_bytes()
    by (bit_vector)
    ensures
        forall|x: u8| #[trigger] (x & 0x0Fu8) == x % 16,
        forall|x: u8| #[trigger] (x >> 7u8) == x / 128,
        forall|x: u8| #[trigger] (x >> 1u8) == x / 2,
        forall|x: u8| #[trigger] (x >> 4u8) == x / 16,
{
}

/// What the left shifts and complement of a byte are in arithmetic terms.
proof fn lemma_shifts_of_bytes()
    by (bit_vector)
    ensures
        forall|x: u8| #[trigger] (x << 1u8) == (x % 128) * 2,
        forall|x: u8| #[trigger] (x << 4u8) == (x % 16) * 16,
        forall|x: u8| #[trigger] (x << 7u8) == (x % 2) * 128,
        forall|x: u8| #[trigger] (!x) == 255 - x,
{
}

/// What the masks and shifts of a word are in arithmetic terms.
proof fn lemma_word_ops()
    by (bit_vector)
    ensures
        forall|x: u16| #[trigger] (x & 0x0FFFu16) == x % 4096,
        forall|x: u16| #[trigger] (x & 0x00FFu16) == x % 256,
        forall|x: u16| #[trigger] (x & 0x000Fu16) == x % 16,
        forall|x: u16| #[trigger] (x >> 8u16) == x / 256,
{
}

/// Bit `b` of `x` as a mask.
pub open spec fn bit_mask(b: u8) -> u8 {
    if b == 0 { 1 } else if b == 1 { 2 } else if b == 2 { 4 } else if b == 3 { 8 } else if b == 4 { 16 }
    else if b == 5 { 32 } else if b == 6 { 64 } else { 128 }
}

/// Whether bit `b` of `x` is set.
pub open spec fn has_bit(x: u8, b: u8) -> bool {
    (x / bit_mask(b)) % 2 == 1
}

fn mask_of(b: u8) -> (r: u8)
    requires
        b <= 7,
    ensures
        r == bit_mask(b),
{
    match b {
        0 => 0b00000001,
        1 => 0b00000010,
        2 => 0b00000100,
        3 => 0b00001000,
        4 => 0b00010000,
        5 => 0b00100000,
        6 => 0b01000000,
        _ => 0b10000000,
    }
}

/// Masks of single bits select that bit.
proof fn lemma_masks()
    by (bit_vector)
    ensures
        forall|x: u8| #[trigger] (1u8 & x) == x % 2,
        forall|x: u8| #[trigger] (2u8 & x) == ((x / 2) % 2) * 2,
        forall|x: u8| #[trigger] (4u8 & x) == ((x / 4) % 2) * 4,
        forall|x: u8| #[trigger] (8u8 & x) == ((x / 8) % 2) * 8,
        forall|x: u8| #[trigger] (16u8 & x) == ((x / 16) % 2) * 16,
        forall|x: u8| #[trigger] (32u8 & x) == ((x / 32) % 2) * 32,
        forall|x: u8| #[trigger] (64u8 & x) == ((x / 64) % 2) * 64,
        forall|x: u8| #[trigger] (128u8 & x) == ((x / 128) % 2) * 128,
{
}

/// Adds `y` to `x`: Z when the byte result is 0, N cleared, H on a carry out of bit 3, C on a
/// carry out of bit 7.
pub fn add(x: u8, y: u8, f: &mut Flags) -> (r: u8)
    ensures
        r == (x + y) % 256,
        final(f).z == (r == 0),
        !final(f).n,
        final(f).h == (x % 16 + y % 16 > 15),
        final(f).c == (x + y > 255),
{
    proof { lemma_byte_ops(); }
    let result = x as u16 + y as u16;

    f.n = false;
    f.z = result == 0x100 || result == 0x00;
    f.c = result > 0xFF;
    f.h = (x & 0x0F) + (y & 0x0F) > 0xF;

    (result % 256) as u8
}

/// Adds `y` and the carry to `x`, with the flags of `add`.
pub fn adc(x: u8, y: u8, f: &mut Flags) -> (r: u8)
    ensures
        ({
            let carry: int = if old(f).c { 1 } else { 0 };
            &&& r == (x + y + carry) % 256
            &&& final(f).z == (r == 0)
            &&& !final(f).n
            &&& final(f).h == (x % 16 + y % 16 + carry > 15)
            &&& final(f).c == (x + y + carry > 255)
        }),
{
    proof { lemma_byte_ops(); }
    if f.c {
        let result = x as u16 + y as u16 + 1;

        f.n = false;
        f.z = result == 0x100;
        f.c = result > 0xFF;
        f.h = (x & 0x0F) + (y & 0x0F) + 1 > 0xF;

        (result % 256) as u8
    } else {
        self::add(x, y, f)
    }
}

/// Subtracts `y` from `x`: Z when equal, N set, H on a borrow from bit 4, C on a borrow.
pub fn sub(x: u8, y: u8, f: &mut Flags) -> (r: u8)
    ensures
        r == (x - y + 256) % 256,
        final(f).z == (x == y),
        final(f).n,
        final(f).h == (x % 16 < y % 16),
        final(f).c == (x < y),
{
    proof { lemma_byte_ops(); }
    f.n = true;
    f.z = x == y;
    f.c = x < y;
    f.h = (x & 0xF) < (y & 0xF);

    x.wrapping_sub(y)
}

/// Subtracts `y` and the carry from `x`, with the flags of `sub`.
pub fn sbc(x: u8, y: u8, f: &mut Flags) -> (r: u8)
    ensures
        ({
            let carry: int = if old(f).c { 1 } else { 0 };
            &&& r == (x - y - carry + 512) % 256
            &&& final(f).z == (r == 0)
            &&& final(f).n
            &&& final(f).h == (x % 16 - y % 16 - carry < 0)
            &&& final(f).c == (x - y - carry < 0)
        }),
{
    proof { lemma_byte_ops(); }
    if f.c {
        let result = x as i16 - y as i16 - 1;

        f.n = true;
        let r = ((result + 512) % 256) as u8;
        f.z = r == 0;
        f.c = result < 0;
        f.h = (x & 0xF) as i8 - (y & 0xF) as i8 - 1 < 0;

        r
    } else {
        self::sub(x, y, f)
    }
}

/// `x & y`: Z when 0, H set, N and C cleared.
pub fn and(x: u8, y: u8, f: &mut Flags) -> (r: u8)
    ensures
        r == x & y,
        *final(f) == (Flags { z: r == 0, n: false, h: true, c: false }),
{
    let result = x & y;
    f.z = result == 0;
    f.n = false;
    f.h = true;
    f.c = false;
    result
}

/// `x | y`: Z when 0, the others cleared.
pub fn or(x: u8, y: u8, f: &mut Flags) -> (r: u8)
    ensures
        r == x | y,
        *final(f) == (Flags { z: r == 0, n: false, h: false, c: false }),
{
    let result = x | y;
    f.z = result == 0;
    f.n = false;
    f.h = false;
    f.c = false;
    result
}

/// `x ^ y`: Z when 0, the others cleared.
pub fn xor(x: u8, y: u8, f: &mut Flags) -> (r: u8)
    ensures
        r == x ^ y,
        *final(f) == (Flags { z: r == 0, n: false, h: false, c: false }),
{
    let result = x ^ y;
    f.z = result == 0;
    f.n = false;
    f.h = false;
    f.c = false;
    result
}

/// Compares `y` with `x`: the flags of `sub`, and `x` unchanged.
pub fn cp(x: u8, y: u8, f: &mut Flags) -> (r: u8)
    ensures
        r == x,
        final(f).z == (x == y),
        final(f).n,
        final(f).h == (x % 16 < y % 16),
        final(f).c == (x < y),
{
    self::sub(x, y, f);
    x
}

/// `v + 1`: Z when it wraps to 0, H on a carry out of bit 3, N cleared, C kept.
pub fn inc(v: u8, f: &mut Flags) -> (r: u8)
    ensures
        r == (v + 1) % 256,
        *final(f) == (Flags { z: r == 0, n: false, h: v % 16 == 15, c: old(f).c }),
{
    proof { lemma_byte_ops(); }
    let result;

    if v == 0xFF {
        f.z = true;
        result = 0x00;
    } else {
        f.z = false;
        result = v + 1;
    }

    f.h = (v & 0x0F) == 0x0F;
    f.n = false;

    result
}

/// `v - 1`: Z when 0, H on a borrow from bit 4, N set, C kept.
pub fn dec(v: u8, f: &mut Flags) -> (r: u8)
    ensures
        r == (v + 255) % 256,
        *final(f) == (Flags { z: r == 0, n: true, h: v % 16 == 0, c: old(f).c }),
{
    proof { lemma_byte_ops(); }
    let result;

    if v == 0x00 {
        result = 0xFF;
    } else {
        result = v - 1;
    }

    f.z = result == 0;
    f.h = (v & 0x0F) == 0x00;
    f.n = true;

    result
}

/// Adds two words: H on a carry out of bit 11, C on a carry out of bit 15, N cleared, Z kept.
pub fn add_16(x: u16, y: u16, f: &mut Flags) -> (r: u16)
    ensures
        r == (x + y) % 65536,
        *final(f) == (Flags { z: old(f).z, n: false, h: x % 4096 + y % 4096 > 4095, c: x + y > 65535 }),
{
    proof { lemma_byte_ops(); }
    let result = x as u32 + y as u32;

    f.c = result > 0xFFFF;
    f.h = (x & 0x0FFF) + (y & 0x0FFF) > 0x0FFF;
    f.n = false;

    (result % 65536) as u16
}

/// Adds the signed byte `y` to the word `x`; H and C come from the unsigned addition of `y` to
/// the low byte of `x`, Z and N are cleared.
pub fn add_16_8(x: u16, y: u8, f: &mut Flags) -> (r: u16)
    ensures
        r == (x + (if y < 128 { y as int } else { y - 256 }) + 65536) % 65536,
        *final(f) == (Flags { z: false, n: false, h: x % 16 + y % 16 > 15, c: x % 256 + y > 255 }),
{
    proof { lemma_byte_ops(); }
    // The C and H Flags are based on the unsigned value of n,
    // rather than the signed value and the lower byte
    // of SP
    f.c = (x & 0x00FF) + y as u16 > 0x00FF;
    f.h = (x & 0x000F) + (y & 0x0F) as u16 > 0x000F;
    f.z = false;
    f.n = false;

    let y_signed: i32 = if y < 128 { y as i32 } else { y as i32 - 256 };
    ((x as i32 + y_signed + 65536) % 65536) as u16
}

/// `x + 1` on a word, wrapping.
pub fn inc_16(x: u16) -> (r: u16)
    ensures
        r == (x + 1) % 65536,
{
    if x == 0xFFFF { 0 } else { x + 1 }
}

/// `x - 1` on a word, wrapping.
pub fn dec_16(x: u16) -> (r: u16)
    ensures
        r == (x + 65535) % 65536,
{
    if x == 0x0 { 0xFFFF } else { x - 1 }
}

/// The decimal adjustment of `v` after a BCD addition (N clear) or subtraction (N set): after an
/// addition, 6 is added when H is set or the low digit is above 9, then $60 when C is set or
/// the result is above $9F; after a subtraction, 6 is taken away (within the byte) when H is
/// set and $60 when C is set. H is cleared, C is set when the adjusted value reaches bit 8 (and
/// kept otherwise), Z tells whether the byte result is 0.
pub open spec fn daa_value(v: u8, f: Flags) -> int {
    if !f.n {
        let r1: int = if f.h || v % 16 > 9 { v + 6 } else { v as int };
        if f.c || r1 > 0x9F { r1 + 0x60 } else { r1 }
    } else {
        let r1: int = if f.h { (v - 6 + 256) % 256 } else { v as int };
        if f.c { r1 - 0x60 } else { r1 }
    }
}

/// Bit 8 of an adjusted value in two's complement.
pub open spec fn bit8(x: int) -> bool {
    ((x + 512) / 256) % 2 == 1
}

pub fn daa(v: u8, f: &mut Flags) -> (r: u8)
    ensures
        r == (daa_value(v, *old(f)) + 512) % 256,
        final(f).z == (r == 0),
        !final(f).h,
        final(f).n == old(f).n,
        final(f).c == (old(f).c || bit8(daa_value(v, *old(f)))),
{
    proof { lemma_byte_ops(); }
    let mut result = v as i32;

    if !f.n {
        if f.h || v & 0xF > 0x9 {
            result = result + 0x06;
        }

        if f.c || result > 0x9F {
            result = result + 0x60;
        }
    } else {
        if f.h {
            result = (result - 6 + 256) % 256;
        }

        if f.c {
            result = result - 0x60;
        }
    }

    f.h = false;
    f.z = false;

    let shifted = result + 512;
    if (shifted / 256) % 2 == 1 {
        f.c = true;
    }

    let byte = (shifted % 256) as u8;

    if byte == 0 {
        f.z = true;
    }

    byte
}

/// The complement of `x`; N and H set.
pub fn cpl(x: u8, f: &mut Flags) -> (r: u8)
    ensures
        r == 255 - x,
        *final(f) == (Flags { n: true, h: true, ..*old(f) }),
{
    proof { lemma_byte_ops(); }
    f.n = true;
    f.h = true;
    !x
}

/// Flips the carry; N and H cleared.
pub fn ccf(f: &mut Flags)
    ensures
        *final(f) == (Flags { z: old(f).z, n: false, h: false, c: !old(f).c }),
{
    f.c = !f.c;
    f.n = false;
    f.h = false;
}

/// Sets the carry; N and H cleared.
pub fn scf(f: &mut Flags)
    ensures
        *final(f) == (Flags { z: old(f).z, n: false, h: false, c: true }),
{
    f.n = false;
    f.h = false;
    f.c = true;
}

/// Rotates left: bit 7 goes to bit 0 and to C; N and H cleared, Z kept.
pub fn rlc_base(x: u8, f: &mut Flags) -> (r: u8)
    ensures
        r == (x * 2) % 256 + x / 128,
        *final(f) == (Flags { z: old(f).z, n: false, h: false, c: x >= 128 }),
{
    proof { lemma_byte_ops(); }
    let bit_7 = x >> 7;
    let result = (x << 1) + bit_7;

    f.c = bit_7 == 1;
    f.n = false;
    f.h = false;

    result
}

/// `rlc_base` with Z telling whether the result is 0.
pub fn rlc(x: u8, f: &mut Flags) -> (r: u8)
    ensures
        r == (x * 2) % 256 + x / 128,
        *final(f) == (Flags { z: r == 0, n: false, h: false, c: x >= 128 }),
{
    let result = rlc_base(x, f);
    f.z = result == 0;
    result
}

/// Rotates left through the carry: C goes to bit 0, bit 7 to C; N and H cleared, Z kept.
pub fn rl_base(x: u8, f: &mut Flags) -> (r: u8)
    ensures
        r == (x * 2) % 256 + (if old(f).c { 1int } else { 0 }),
        *final(f) == (Flags { z: old(f).z, n: false, h: false, c: x >= 128 }),
{
    proof { lemma_byte_ops(); }
    let c_flag: u8 = if f.c { 1 } else { 0 };

    f.c = (x >> 7) == 1;

    let result = (x << 1) + c_flag;

    f.n = false;
    f.h = false;

    result
}

/// `rl_base` with Z telling whether the result is 0.
pub fn rl(x: u8, f: &mut Flags) -> (r: u8)
    ensures
        r == (x * 2) % 256 + (if old(f).c { 1int } else { 0 }),
        *final(f) == (Flags { z: r == 0, n: false, h: false, c: x >= 128 }),
{
    let result = rl_base(x, f);
    f.z = result == 0;
    result
}

/// Rotates right: bit 0 goes to bit 7 and to C; Z tells whether the result is 0; N and H
/// cleared.
pub fn rrc(x: u8, f: &mut Flags) -> (r: u8)
    ensures
        r == x / 2 + (x % 2) * 128,
        *final(f) == (Flags { z: r == 0, n: false, h: false, c: x % 2 == 1 }),
{
    proof { lemma_byte_ops(); }
    let bit_7 = x << 7;

    f.c = bit_7 == 0x80;

    let result = (x >> 1) + bit_7;

    f.z = result == 0;
    f.n = false;
    f.h = false;

    result
}

/// Rotates right through the carry: C goes to bit 7, bit 0 to C; Z tells whether the result is
/// 0; N and H cleared.
pub fn rr(x: u8, f: &mut Flags) -> (r: u8)
    ensures
        r == x / 2 + (if old(f).c { 128int } else { 0 }),
        *final(f) == (Flags { z: r == 0, n: false, h: false, c: x % 2 == 1 }),
{
    proof { lemma_byte_ops(); }
    let c_flag: u8 = if f.c { 0x80 } else { 0 };

    f.c = (x << 7) == 0x80;

    let result = (x >> 1) + c_flag;

    f.z = result == 0;
    f.n = false;
    f.h = false;

    result
}

/// Swaps the two digits of `x`; Z tells whether the result is 0, the others cleared.
pub fn swap(x: u8, f: &mut Flags) -> (r: u8)
    ensures
        r == (x % 16) * 16 + x / 16,
        *final(f) == (Flags { z: r == 0, n: false, h: false, c: false }),
{
    proof { lemma_byte_ops(); }
    let result = (x >> 4) + (x << 4);

    f.z = result == 0;
    f.n = false;
    f.h = false;
    f.c = false;

    result
}

/// Shifts left: bit 7 goes to C, bit 0 becomes 0; Z tells whether the result is 0.
pub fn sla(x: u8, f: &mut Flags) -> (r: u8)
    ensures
        r == (x * 2) % 256,
        *final(f) == (Flags { z: r == 0, n: false, h: false, c: x >= 128 }),
{
    proof { lemma_byte_ops(); }
    let bit_7 = x >> 7;
    f.c = bit_7 == 1;
    f.n = false;
    f.h = false;

    let result = x << 1;

    f.z = result == 0;

    result
}

/// Shifts right keeping bit 7: bit 0 goes to C; Z tells whether the result is 0.
pub fn sra(x: u8, f: &mut Flags) -> (r: u8)
    ensures
        r == x / 2 + (x / 128) * 128,
        *final(f) == (Flags { z: r == 0, n: false, h: false, c: x % 2 == 1 }),
{
    proof { lemma_byte_ops(); }
    let bit_0 = x << 7;
    f.c = bit_0 == 0x80;
    f.n = false;
    f.h = false;

    let result = (x >> 1) + ((x >> 7) << 7);

    f.z = result == 0;

    result
}

/// Shifts right: bit 0 goes to C, bit 7 becomes 0; Z tells whether the result is 0.
pub fn srl(x: u8, f: &mut Flags) -> (r: u8)
    ensures
        r == x / 2,
        *final(f) == (Flags { z: r == 0, n: false, h: false, c: x % 2 == 1 }),
{
    proof { lemma_byte_ops(); }
    let bit_0 = x << 7;
    f.c = bit_0 == 0x80;
    f.n = false;
    f.h = false;

    let result = x >> 1;

    f.z = result == 0;

    result
}

/// Tests bit `b` of `x`: Z when it is 0, N cleared, H set, C kept.
pub fn bit(b: u8, x: u8, f: &mut Flags)
    requires
        b <= 7,
    ensures
        *final(f) == (Flags { z: !has_bit(x, b), n: false, h: true, c: old(f).c }),
{
    let mask = mask_of(b);
    proof {
        lemma_masks();
        if b == 0 {
            assert(1u8 & x == x % 2);
            assert(mask == 1u8);
            assert(has_bit(x, b) == ((x / 1) % 2 == 1));
        } else if b == 1 {
            assert(2u8 & x == ((x / 2) % 2) * 2);
            assert(mask == 2u8);
            assert(has_bit(x, b) == ((x / 2) % 2 == 1));
        } else if b == 2 {
            assert(4u8 & x == ((x / 4) % 2) * 4);
            assert(mask == 4u8);
            assert(has_bit(x, b) == ((x / 4) % 2 == 1));
        } else if b == 3 {
            assert(8u8 & x == ((x / 8) % 2) * 8);
            assert(mask == 8u8);
            assert(has_bit(x, b) == ((x / 8) % 2 == 1));
        } else if b == 4 {
            assert(16u8 & x == ((x / 16) % 2) * 16);
            assert(mask == 16u8);
            assert(has_bit(x, b) == ((x / 16) % 2 == 1));
        } else if b == 5 {
            assert(32u8 & x == ((x / 32) % 2) * 32);
            assert(mask == 32u8);
            assert(has_bit(x, b) == ((x / 32) % 2 == 1));
        } else if b == 6 {
            assert(64u8 & x == ((x / 64) % 2) * 64);
            assert(mask == 64u8);
            assert(has_bit(x, b) == ((x / 64) % 2 == 1));
        } else {
            assert(128u8 & x == ((x / 128) % 2) * 128);
            assert(mask == 128u8);
            assert(has_bit(x, b) == ((x / 128) % 2 == 1));
        }
    }

    let c = f.c;
    *f = Flags { z: (mask & x) == 0, n: false, h: true, c: c };
}

/// `x` with bit `b` set.
pub fn set(b: u8, x: u8) -> (r: u8)
    requires
        b <= 7,
    ensures
        r == bit_mask(b) | x,
{
    mask_of(b) | x
}

/// `x` with bit `b` cleared.
pub fn res(b: u8, x: u8) -> (r: u8)
    requires
        b <= 7,
    ensures
        r == !bit_mask(b) & x,
{
    !mask_of(b) & x
}

/// The flags packed into the F register: Z in bit 7, N in bit 6, H in bit 5, C in bit 4.
pub open spec fn pack_flags(f: Flags) -> int {
    (if f.z { 0x80int } else { 0 }) + (if f.n { 0x40int } else { 0 }) + (if f.h { 0x20int } else { 0 }) + (if f.c {
        0x10int } else { 0 })
}

/// The flags that the F register value `v` holds.
pub open spec fn unpack_flags(v: u8) -> Flags {
    Flags { z: (v / 128) % 2 == 1, n: (v / 64) % 2 == 1, h: (v / 32) % 2 == 1, c: (v / 16) % 2 == 1 }
}

/// The registers of the CPU.
#[derive(PartialEq, Eq, Structural, Debug, Clone, Copy)]
pub struct Registers {
    pub a: u8,
    pub b: u8,
    pub c: u8,
    pub d: u8,
    pub e: u8,
    pub h: u8,
    pub l: u8,
    pub sp: u16,
    pub pc: u16,
    pub flags: Flags,
}

impl Registers {
    /// The values that the boot ROM leaves in the registers.
    pub fn new() -> (r: Registers)
        ensures
            r == (Registers { a: 0x01, b: 0x00, c: 0x13, d: 0x00, e: 0xD8, h: 0x01, l: 0x4D, sp: 0xFFFE, pc: 0x0100,
                flags: Flags { z: false, n: false, h: false, c: false } }),
    {
        Registers {
            a: 0x01,
            b: 0x00,
            c: 0x13,
            d: 0x00,
            e: 0xD8,
            h: 0x01,
            l: 0x4D,
            sp: 0xFFFE,
            pc: 0x0100,
            flags: Flags { z: false, n: false, h: false, c: false },
        }
    }

    /// The F register: the flags in bits 4-7, the low bits zero.
    pub fn get_f(&self) -> (r: u8)
        ensures
            r == pack_flags(self.flags),
    {
        (if self.flags.z { 0b10000000u8 } else { 0 }) + (if self.flags.n { 0b01000000u8 } else { 0 }) + (if self.flags.h {
            0b00100000u8 } else { 0 }) + (if self.flags.c { 0b00010000u8 } else { 0 })
    }

    /// Sets the flags from bits 4-7 of `v`.
    pub fn set_f(&mut self, v: u8)
        ensures
            *final(self) == (Registers { flags: unpack_flags(v), ..*old(self) }),
    {
        proof { lemma_masks(); }
        self.flags = Flags {
            z: (0b10000000u8 & v) > 0,
            n: (0b01000000u8 & v) > 0,
            h: (0b00100000u8 & v) > 0,
            c: (0b00010000u8 & v) > 0,
        };
    }

    pub fn get_bc(&self) -> (r: u16)
        ensures
            r == self.b * 256 + self.c,
    {
        self.b as u16 * 256 + self.c as u16
    }

    pub fn get_de(&self) -> (r: u16)
        ensures
            r == self.d * 256 + self.e,
    {
        self.d as u16 * 256 + self.e as u16
    }

    pub fn get_hl(&self) -> (r: u16)
        ensures
            r == self.h * 256 + self.l,
    {
        self.h as u16 * 256 + self.l as u16
    }

    pub fn set_bc(&mut self, v: u16)
        ensures
            *final(self) == (Registers { b: (v / 256) as u8, c: (v % 256) as u8, ..*old(self) }),
    {
        self.b = (v / 256) as u8;
        self.c = (v % 256) as u8;
    }

    pub fn set_de(&mut self, v: u16)
        ensures
            *final(self) == (Registers { d: (v / 256) as u8, e: (v % 256) as u8, ..*old(self) }),
    {
        self.d = (v / 256) as u8;
        self.e = (v % 256) as u8;
    }

    pub fn set_hl(&mut self, v: u16)
        ensures
            *final(self) == (Registers { h: (v / 256) as u8, l: (v % 256) as u8, ..*old(self) }),
    {
        self.h = (v / 256) as u8;
        self.l = (v % 256) as u8;
    }
}

/// A register pair gives back the word it was set to.
pub proof fn law_pair_round_trip(r: Registers, v: u16)
    ensures
        (Registers { b: (v / 256) as u8, c: (v % 256) as u8, ..r }).b * 256 + (Registers { b: (v / 256) as u8, c: (v
            % 256) as u8, ..r }).c == v,
{
}

/// The F register gives back the top four bits of what it was set to, and setting it to its
/// own value keeps the flags.
pub proof fn law_flags_round_trip(v: u8, f: Flags)
    ensures
        pack_flags(unpack_flags(v)) == (v / 16) * 16,
        unpack_flags(pack_flags(f) as u8) == f,
{
}

} // verus!
