//! A byte whose bits and bit ranges are read and written as register fields.

use vstd::prelude::*;

verus! {

/// Bit `k` of `x`, as the number 0 or 1.
pub open spec fn bit_of(x: u8, k: u8) -> u8 {
    (x >> k) & 1
}

/// `x` with bit `k` forced to one when `on` holds and to zero otherwise.
pub open spec fn with_bit(x: u8, k: u8, on: bool) -> u8 {
    if on {
        x | (1u8 << k)
    } else {
        x & !(1u8 << k)
    }
}

/// The field of `x` that starts at bit `lo` and is selected by `mask` once shifted down.
pub open spec fn field_of(x: u8, lo: u8, mask: u8) -> u8 {
    (x >> lo) & mask
}

/// The bits of `x` that lie outside the field at `lo` selected by `mask`.
pub open spec fn outside_field(x: u8, lo: u8, mask: u8) -> u8 {
    x & !(mask << lo)
}

/// A field never exceeds its mask, and a bit is 0 or 1.
pub proof fn lemma_field_bound()
    by (bit_vector)
    ensures
        forall|x: u8, lo: u8, mask: u8| #[trigger] ((x >> lo) & mask) <= mask,
        forall|x: u8| #[trigger] (x | 0u8) == x,
        forall|x: u8| #[trigger] (x & 0xFFu8) == x,
{
}

/// A register byte.
#[derive(PartialEq, Eq, Structural, Debug, Clone, Copy)]
pub struct Bitfield {
    data: u8,
}

impl View for Bitfield {
    type V = u8;

    closed spec fn view(&self) -> u8 {
        self.data
    }
}

/// Reading a single bit through its mask.
pub(crate) proof fn lemma_bit_reads()
    by (bit_vector)
    ensures
        forall|x: u8| #[trigger] (x & 0b00000001u8) > 0 <==> (x >> 0u8) & 1 == 1,
        forall|x: u8| #[trigger] (x & 0b00000010u8) > 0 <==> (x >> 1u8) & 1 == 1,
        forall|x: u8| #[trigger] (x & 0b00000100u8) > 0 <==> (x >> 2u8) & 1 == 1,
        forall|x: u8| #[trigger] (x & 0b00001000u8) > 0 <==> (x >> 3u8) & 1 == 1,
        forall|x: u8| #[trigger] (x & 0b00010000u8) > 0 <==> (x >> 4u8) & 1 == 1,
        forall|x: u8| #[trigger] (x & 0b00100000u8) > 0 <==> (x >> 5u8) & 1 == 1,
        forall|x: u8| #[trigger] (x & 0b01000000u8) > 0 <==> (x >> 6u8) & 1 == 1,
        forall|x: u8| #[trigger] (x & 0b10000000u8) > 0 <==> (x >> 7u8) & 1 == 1,
        forall|x: u8, k: u8| #[trigger] ((x >> k) & 1) <= 1,
{
}

/// The masks that force one bit to one or to zero.
pub(crate) proof fn lemma_bit_masks()
    by (bit_vector)
    ensures
        1u8 << 0u8 == 0b00000001u8,
        1u8 << 1u8 == 0b00000010u8,
        1u8 << 2u8 == 0b00000100u8,
        1u8 << 3u8 == 0b00001000u8,
        1u8 << 4u8 == 0b00010000u8,
        1u8 << 5u8 == 0b00100000u8,
        1u8 << 6u8 == 0b01000000u8,
        1u8 << 7u8 == 0b10000000u8,
        !(1u8 << 0u8) == 0b11111110u8,
        !(1u8 << 1u8) == 0b11111101u8,
        !(1u8 << 2u8) == 0b11111011u8,
        !(1u8 << 3u8) == 0b11110111u8,
        !(1u8 << 4u8) == 0b11101111u8,
        !(1u8 << 5u8) == 0b11011111u8,
        !(1u8 << 6u8) == 0b10111111u8,
        !(1u8 << 7u8) == 0b01111111u8,
{
}

/// Reading a bit range through its mask.
pub(crate) proof fn lemma_field_reads()
    by (bit_vector)
    ensures
        forall|x: u8| #[trigger] (x & 0b00000011u8) == (x >> 0u8) & 0b11u8,
        forall|x: u8| #[trigger] ((x & 0b00001100u8) >> 2u8) == (x >> 2u8) & 0b11u8,
        forall|x: u8| #[trigger] ((x & 0b00110000u8) >> 4u8) == (x >> 4u8) & 0b11u8,
        forall|x: u8| #[trigger] ((x & 0b01100000u8) >> 5u8) == (x >> 5u8) & 0b11u8,
        forall|x: u8| #[trigger] ((x & 0b11000000u8) >> 6u8) == (x >> 6u8) & 0b11u8,
        forall|x: u8| #[trigger] (x & 0b00000111u8) == (x >> 0u8) & 0b111u8,
        forall|x: u8| #[trigger] ((x & 0b01110000u8) >> 4u8) == (x >> 4u8) & 0b111u8,
        forall|x: u8| #[trigger] ((x & 0b11110000u8) >> 4u8) == (x >> 4u8) & 0b1111u8,
        forall|x: u8| #[trigger] (x & 0b00111111u8) == (x >> 0u8) & 0b111111u8,
{
}

/// The masks that clear one bit range.
pub(crate) proof fn lemma_field_masks()
    by (bit_vector)
    ensures
        !(0b11u8 << 0u8) == 0b11111100u8,
        !(0b11u8 << 2u8) == 0b11110011u8,
        !(0b11u8 << 4u8) == 0b11001111u8,
        !(0b11u8 << 5u8) == 0b10011111u8,
        !(0b11u8 << 6u8) == 0b00111111u8,
        !(0b111u8 << 0u8) == 0b11111000u8,
        !(0b111u8 << 4u8) == 0b10001111u8,
        !(0b1111u8 << 3u8) == 0b10000111u8,
        !(0b1111u8 << 4u8) == 0b00001111u8,
        !(0b111111u8 << 0u8) == 0b11000000u8,
        forall|v: u8| #[trigger] (v << 0u8) == v,
{
}

/// Writing a value that fits a bit range: the range then holds the value, no other bit
/// changes, and the sum never leaves the byte.
pub proof fn law_field_write(x: u8, lo: u8, mask: u8, v: u8)
    by (bit_vector)
    requires
        mask == 1 || mask == 3 || mask == 7 || mask == 15 || mask == 63,
        lo < 8,
        mask == 1 ==> lo <= 7,
        mask == 3 ==> lo <= 6,
        mask == 7 ==> lo <= 5,
        mask == 15 ==> lo <= 4,
        mask == 63 ==> lo <= 2,
        v <= mask,
    ensures
        outside_field(x, lo, mask) + (v << lo) <= 255,
        field_of((outside_field(x, lo, mask) + (v << lo)) as u8, lo, mask) == v,
        outside_field((outside_field(x, lo, mask) + (v << lo)) as u8, lo, mask)
            == outside_field(x, lo, mask),
{
}

/// Forcing one bit: that bit then holds the requested value and every other bit keeps
/// its value.
pub proof fn law_bit_write(x: u8, k: u8, on: bool, j: u8)
    requires
        k < 8,
        j < 8,
    ensures
        bit_of(with_bit(x, k, on), k) == (if on { 1u8 } else { 0u8 }),
        j != k ==> bit_of(with_bit(x, k, on), j) == bit_of(x, j),
{
    if on {
        assert(((x | (1u8 << k)) >> k) & 1 == 1u8) by (bit_vector)
            requires k < 8;
        assert(j != k ==> ((x | (1u8 << k)) >> j) & 1 == (x >> j) & 1) by (bit_vector)
            requires k < 8, j < 8;
    } else {
        assert(((x & !(1u8 << k)) >> k) & 1 == 0u8) by (bit_vector)
            requires k < 8;
        assert(j != k ==> ((x & !(1u8 << k)) >> j) & 1 == (x >> j) & 1) by (bit_vector)
            requires k < 8, j < 8;
    }
}

impl Bitfield {
    pub fn new(v: u8) -> (r: Bitfield)
        ensures
            r@ == v,
    {
        Bitfield { data: v }
    }

    pub fn get(&self) -> (r: u8)
        ensures
            r == self@,
    {
        self.data
    }

    pub fn set(&mut self, v: u8)
        ensures
            final(self)@ == v,
    {
        self.data = v;
    }

    pub fn get_0(&self) -> (r: u8)
        ensures
            r == bit_of(self@, 0),
    {
        proof { lemma_bit_reads(); }
        if self.data & 0b00000001 > 0 { 1 } else { 0 }
    }

    pub fn get_1(&self) -> (r: u8)
        ensures
            r == bit_of(self@, 1),
    {
        proof { lemma_bit_reads(); }
        if self.data & 0b00000010 > 0 { 1 } else { 0 }
    }

    pub fn get_2(&self) -> (r: u8)
        ensures
            r == bit_of(self@, 2),
    {
        proof { lemma_bit_reads(); }
        if self.data & 0b00000100 > 0 { 1 } else { 0 }
    }

    pub fn get_3(&self) -> (r: u8)
        ensures
            r == bit_of(self@, 3),
    {
        proof { lemma_bit_reads(); }
        if self.data & 0b00001000 > 0 { 1 } else { 0 }
    }

    pub fn get_4(&self) -> (r: u8)
        ensures
            r == bit_of(self@, 4),
    {
        proof { lemma_bit_reads(); }
        if self.data & 0b00010000 > 0 { 1 } else { 0 }
    }

    pub fn get_5(&self) -> (r: u8)
        ensures
            r == bit_of(self@, 5),
    {
        proof { lemma_bit_reads(); }
        if self.data & 0b00100000 > 0 { 1 } else { 0 }
    }

    pub fn get_6(&self) -> (r: u8)
        ensures
            r == bit_of(self@, 6),
    {
        proof { lemma_bit_reads(); }
        if self.data & 0b01000000 > 0 { 1 } else { 0 }
    }

    pub fn get_7(&self) -> (r: u8)
        ensures
            r == bit_of(self@, 7),
    {
        proof { lemma_bit_reads(); }
        if self.data & 0b10000000 > 0 { 1 } else { 0 }
    }

    /// Sets bit 0 when `v` is 1 and clears it for any other value.
    pub fn set_0(&mut self, v: u8)
        ensures
            final(self)@ == with_bit(old(self)@, 0, v == 1),
    {
        proof { lemma_bit_masks(); }
        self.data = if v == 0x1 { self.data | 0b00000001 } else { self.data & 0b11111110 };
    }

    /// Sets bit 1 when `v` is 1 and clears it for any other value.
    pub fn set_1(&mut self, v: u8)
        ensures
            final(self)@ == with_bit(old(self)@, 1, v == 1),
    {
        proof { lemma_bit_masks(); }
        self.data = if v == 0x1 { self.data | 0b00000010 } else { self.data & 0b11111101 };
    }

    /// Sets bit 2 when `v` is 1 and clears it for any other value.
    pub fn set_2(&mut self, v: u8)
        ensures
            final(self)@ == with_bit(old(self)@, 2, v == 1),
    {
        proof { lemma_bit_masks(); }
        self.data = if v == 0x1 { self.data | 0b00000100 } else { self.data & 0b11111011 };
    }

    /// Sets bit 3 when `v` is 1 and clears it for any other value.
    pub fn set_3(&mut self, v: u8)
        ensures
            final(self)@ == with_bit(old(self)@, 3, v == 1),
    {
        proof { lemma_bit_masks(); }
        self.data = if v == 0x1 { self.data | 0b00001000 } else { self.data & 0b11110111 };
    }

    /// Sets bit 4 when `v` is 1 and clears it for any other value.
    pub fn set_4(&mut self, v: u8)
        ensures
            final(self)@ == with_bit(old(self)@, 4, v == 1),
    {
        proof { lemma_bit_masks(); }
        self.data = if v == 0x1 { self.data | 0b00010000 } else { self.data & 0b11101111 };
    }

    /// Sets bit 5 when `v` is 1 and clears it for any other value.
    pub fn set_5(&mut self, v: u8)
        ensures
            final(self)@ == with_bit(old(self)@, 5, v == 1),
    {
        proof { lemma_bit_masks(); }
        self.data = if v == 0x1 { self.data | 0b00100000 } else { self.data & 0b11011111 };
    }

    /// Sets bit 6 when `v` is 1 and clears it for any other value.
    pub fn set_6(&mut self, v: u8)
        ensures
            final(self)@ == with_bit(old(self)@, 6, v == 1),
    {
        proof { lemma_bit_masks(); }
        self.data = if v == 0x1 { self.data | 0b01000000 } else { self.data & 0b10111111 };
    }

    /// Sets bit 7 when `v` is 1 and clears it for any other value.
    pub fn set_7(&mut self, v: u8)
        ensures
            final(self)@ == with_bit(old(self)@, 7, v == 1),
    {
        proof { lemma_bit_masks(); }
        self.data = if v == 0x1 { self.data | 0b10000000 } else { self.data & 0b01111111 };
    }

    pub fn get_01(&self) -> (r: u8)
        ensures
            r == field_of(self@, 0, 0b11),
    {
        proof { lemma_field_reads(); }
        self.data & 0b00000011
    }

    pub fn get_23(&self) -> (r: u8)
        ensures
            r == field_of(self@, 2, 0b11),
    {
        proof { lemma_field_reads(); }
        (self.data & 0b00001100) >> 2
    }

    pub fn get_45(&self) -> (r: u8)
        ensures
            r == field_of(self@, 4, 0b11),
    {
        proof { lemma_field_reads(); }
        (self.data & 0b00110000) >> 4
    }

    pub fn get_56(&self) -> (r: u8)
        ensures
            r == field_of(self@, 5, 0b11),
    {
        proof { lemma_field_reads(); }
        (self.data & 0b01100000) >> 5
    }

    pub fn get_67(&self) -> (r: u8)
        ensures
            r == field_of(self@, 6, 0b11),
    {
        proof { lemma_field_reads(); }
        (self.data & 0b11000000) >> 6
    }

    /// Clears bits 0-1 and adds `v`; the sum must stay within the byte.
    pub fn set_01(&mut self, v: u8)
        requires
            outside_field(old(self)@, 0, 0b11) + v <= 255,
        ensures
            final(self)@ == outside_field(old(self)@, 0, 0b11) + v,
            v <= 0b11 ==> field_of(final(self)@, 0, 0b11) == v,
            v <= 0b11 ==> outside_field(final(self)@, 0, 0b11) == outside_field(old(self)@, 0, 0b11),
    {
        proof {
            lemma_field_masks();
            if v <= 0b11 {
                law_field_write(self.data, 0, 0b11, v);
            }
        }
        self.data = (self.data & 0b11111100) + v
    }

    /// Clears bits 2-3 and adds `v` shifted to bit 2; the sum must stay within the byte.
    pub fn set_23(&mut self, v: u8)
        requires
            outside_field(old(self)@, 2, 0b11) + (v << 2u8) <= 255,
        ensures
            final(self)@ == outside_field(old(self)@, 2, 0b11) + (v << 2u8),
            v <= 0b11 ==> field_of(final(self)@, 2, 0b11) == v,
            v <= 0b11 ==> outside_field(final(self)@, 2, 0b11) == outside_field(old(self)@, 2, 0b11),
    {
        proof {
            lemma_field_masks();
            if v <= 0b11 {
                law_field_write(self.data, 2, 0b11, v);
            }
        }
        self.data = (self.data & 0b11110011) + (v << 2)
    }

    /// Clears bits 4-5 and adds `v` shifted to bit 4; the sum must stay within the byte.
    pub fn set_45(&mut self, v: u8)
        requires
            outside_field(old(self)@, 4, 0b11) + (v << 4u8) <= 255,
        ensures
            final(self)@ == outside_field(old(self)@, 4, 0b11) + (v << 4u8),
            v <= 0b11 ==> field_of(final(self)@, 4, 0b11) == v,
            v <= 0b11 ==> outside_field(final(self)@, 4, 0b11) == outside_field(old(self)@, 4, 0b11),
    {
        proof {
            lemma_field_masks();
            if v <= 0b11 {
                law_field_write(self.data, 4, 0b11, v);
            }
        }
        self.data = (self.data & 0b11001111) + (v << 4)
    }

    /// Clears bits 5-6 and adds `v` shifted to bit 5; the sum must stay within the byte.
    pub fn set_56(&mut self, v: u8)
        requires
            outside_field(old(self)@, 5, 0b11) + (v << 5u8) <= 255,
        ensures
            final(self)@ == outside_field(old(self)@, 5, 0b11) + (v << 5u8),
            v <= 0b11 ==> field_of(final(self)@, 5, 0b11) == v,
            v <= 0b11 ==> outside_field(final(self)@, 5, 0b11) == outside_field(old(self)@, 5, 0b11),
    {
        proof {
            lemma_field_masks();
            if v <= 0b11 {
                law_field_write(self.data, 5, 0b11, v);
            }
        }
        self.data = (self.data & 0b10011111) + (v << 5)
    }

    /// Clears bits 6-7 and adds `v` shifted to bit 6; the sum must stay within the byte.
    pub fn set_67(&mut self, v: u8)
        requires
            outside_field(old(self)@, 6, 0b11) + (v << 6u8) <= 255,
        ensures
            final(self)@ == outside_field(old(self)@, 6, 0b11) + (v << 6u8),
            v <= 0b11 ==> field_of(final(self)@, 6, 0b11) == v,
            v <= 0b11 ==> outside_field(final(self)@, 6, 0b11) == outside_field(old(self)@, 6, 0b11),
    {
        proof {
            lemma_field_masks();
            if v <= 0b11 {
                law_field_write(self.data, 6, 0b11, v);
            }
        }
        self.data = (self.data & 0b00111111) + (v << 6)
    }

    pub fn get_012(&self) -> (r: u8)
        ensures
            r == field_of(self@, 0, 0b111),
    {
        proof { lemma_field_reads(); }
        self.data & 0b00000111
    }

    /// Replaces bits 0-2 with `v`.
    pub fn set_012(&mut self, v: u8)
        requires
            v <= 0b111,
        ensures
            final(self)@ == outside_field(old(self)@, 0, 0b111) + v,
            field_of(final(self)@, 0, 0b111) == v,
            outside_field(final(self)@, 0, 0b111) == outside_field(old(self)@, 0, 0b111),
    {
        proof {
            lemma_field_masks();
            law_field_write(self.data, 0, 0b111, v);
        }
        self.data = (self.data & 0b11111000) + v;
    }

    pub fn get_456(&self) -> (r: u8)
        ensures
            r == field_of(self@, 4, 0b111),
    {
        proof { lemma_field_reads(); }
        (self.data & 0b01110000) >> 4
    }

    /// Replaces bits 4-6 with `v`.
    pub fn set_456(&mut self, v: u8)
        requires
            v <= 0b111,
        ensures
            final(self)@ == outside_field(old(self)@, 4, 0b111) + (v << 4u8),
            field_of(final(self)@, 4, 0b111) == v,
            outside_field(final(self)@, 4, 0b111) == outside_field(old(self)@, 4, 0b111),
    {
        proof {
            lemma_field_masks();
            law_field_write(self.data, 4, 0b111, v);
        }
        self.data = (self.data & 0b10001111) + (v << 4);
    }

    /// Replaces bits 3-6 with `v`.
    pub fn set_3456(&mut self, v: u8)
        requires
            v <= 0b1111,
        ensures
            final(self)@ == outside_field(old(self)@, 3, 0b1111) + (v << 3u8),
            field_of(final(self)@, 3, 0b1111) == v,
            outside_field(final(self)@, 3, 0b1111) == outside_field(old(self)@, 3, 0b1111),
    {
        proof {
            lemma_field_masks();
            law_field_write(self.data, 3, 0b1111, v);
        }
        self.data = (self.data & 0b10000111) + (v << 3);
    }

    pub fn get_4567(&self) -> (r: u8)
        ensures
            r == field_of(self@, 4, 0b1111),
    {
        proof { lemma_field_reads(); }
        (self.data & 0b11110000) >> 4
    }

    /// Replaces bits 4-7 with `v`.
    pub fn set_4567(&mut self, v: u8)
        requires
            v <= 0b1111,
        ensures
            final(self)@ == outside_field(old(self)@, 4, 0b1111) + (v << 4u8),
            field_of(final(self)@, 4, 0b1111) == v,
            outside_field(final(self)@, 4, 0b1111) == outside_field(old(self)@, 4, 0b1111),
    {
        proof {
            lemma_field_masks();
            law_field_write(self.data, 4, 0b1111, v);
        }
        self.data = (self.data & 0b00001111) + (v << 4);
    }

    pub fn get_012345(&self) -> (r: u8)
        ensures
            r == field_of(self@, 0, 0b111111),
    {
        proof { lemma_field_reads(); }
        self.data & 0b00111111
    }

    /// Replaces bits 0-5 with `v`.
    pub fn set_012345(&mut self, v: u8)
        requires
            v <= 0b00111111,
        ensures
            final(self)@ == outside_field(old(self)@, 0, 0b111111) + v,
            field_of(final(self)@, 0, 0b111111) == v,
            outside_field(final(self)@, 0, 0b111111) == outside_field(old(self)@, 0, 0b111111),
    {
        proof {
            lemma_field_masks();
            law_field_write(self.data, 0, 0b111111, v);
        }
        self.data = (self.data & 0b11000000) + v;
    }
}

} // verus!
