//! A register byte whose single bits are read and written as booleans.

use vstd::prelude::*;
use crate::bitfield::{bit_of, with_bit, field_of, outside_field, lemma_bit_reads, lemma_bit_masks};

verus! {

/// A register byte with boolean bit accessors.
pub struct Bitfield {
    data: u8,
}

impl View for Bitfield {
    type V = u8;

    closed spec fn view(&self) -> u8 {
        self.data
    }
}

/// Reading and clearing two-bit fields through their masks.
proof fn lemma_pair_fields()
    by (bit_vector)
    ensures
        forall|x: u8| #[trigger] (x & 0b00000011u8) == (x >> 0u8) & 0b11u8,
        forall|x: u8| #[trigger] ((x & 0b00001100u8) >> 2u8) == (x >> 2u8) & 0b11u8,
        forall|x: u8| #[trigger] ((x & 0b00110000u8) >> 4u8) == (x >> 4u8) & 0b11u8,
        forall|x: u8| #[trigger] ((x & 0b11000000u8) >> 6u8) == (x >> 6u8) & 0b11u8,
        !(0b11u8 << 0u8) == 0b11111100u8,
        !(0b11u8 << 2u8) == 0b11110011u8,
        !(0b11u8 << 4u8) == 0b11001111u8,
        !(0b11u8 << 6u8) == 0b00111111u8,
{
}

impl Bitfield {
    pub fn new(v: u8) -> (r: Bitfield)
        ensures
            r@ == v,
    {
        Bitfield { data: v }
    }

    pub fn get(&self) -> (r: u8)
        ensures
            r == self@,
    {
        self.data
    }

    pub fn set(&mut self, v: u8)
        ensures
            final(self)@ == v,
    {
        self.data = v;
    }

    pub fn get_0(&self) -> (r: bool)
        ensures
            r == (bit_of(self@, 0) == 1),
    {
        proof { lemma_bit_reads(); }
        self.data & 0b00000001 > 0
    }

    pub fn get_1(&self) -> (r: bool)
        ensures
            r == (bit_of(self@, 1) == 1),
    {
        proof { lemma_bit_reads(); }
        self.data & 0b00000010 > 0
    }

    pub fn get_2(&self) -> (r: bool)
        ensures
            r == (bit_of(self@, 2) == 1),
    {
        proof { lemma_bit_reads(); }
        self.data & 0b00000100 > 0
    }

    pub fn get_3(&self) -> (r: bool)
        ensures
            r == (bit_of(self@, 3) == 1),
    {
        proof { lemma_bit_reads(); }
        self.data & 0b00001000 > 0
    }

    pub fn get_4(&self) -> (r: bool)
        ensures
            r == (bit_of(self@, 4) == 1),
    {
        proof { lemma_bit_reads(); }
        self.data & 0b00010000 > 0
    }

    pub fn get_5(&self) -> (r: bool)
        ensures
            r == (bit_of(self@, 5) == 1),
    {
        proof { lemma_bit_reads(); }
        self.data & 0b00100000 > 0
    }

    pub fn get_6(&self) -> (r: bool)
        ensures
            r == (bit_of(self@, 6) == 1),
    {
        proof { lemma_bit_reads(); }
        self.data & 0b01000000 > 0
    }

    pub fn get_7(&self) -> (r: bool)
        ensures
            r == (bit_of(self@, 7) == 1),
    {
        proof { lemma_bit_reads(); }
        self.data & 0b10000000 > 0
    }

    pub fn set_0(&mut self, v: bool)
        ensures
            final(self)@ == with_bit(old(self)@, 0, v),
    {
        proof { lemma_bit_masks(); }
        self.data = if v { self.data | 0b00000001 } else { self.data & 0b11111110 };
    }

    pub fn set_1(&mut self, v: bool)
        ensures
            final(self)@ == with_bit(old(self)@, 1, v),
    {
        proof { lemma_bit_masks(); }
        self.data = if v { self.data | 0b00000010 } else { self.data & 0b11111101 };
    }

    pub fn set_2(&mut self, v: bool)
        ensures
            final(self)@ == with_bit(old(self)@, 2, v),
    {
        proof { lemma_bit_masks(); }
        self.data = if v { self.data | 0b00000100 } else { self.data & 0b11111011 };
    }

    pub fn set_3(&mut self, v: bool)
        ensures
            final(self)@ == with_bit(old(self)@, 3, v),
    {
        proof { lemma_bit_masks(); }
        self.data = if v { self.data | 0b00001000 } else { self.data & 0b11110111 };
    }

    pub fn set_4(&mut self, v: bool)
        ensures
            final(self)@ == with_bit(old(self)@, 4, v),
    {
        proof { lemma_bit_masks(); }
        self.data = if v { self.data | 0b00010000 } else { self.data & 0b11101111 };
    }

    pub fn set_5(&mut self, v: bool)
        ensures
            final(self)@ == with_bit(old(self)@, 5, v),
    {
        proof { lemma_bit_masks(); }
        self.data = if v { self.data | 0b00100000 } else { self.data & 0b11011111 };
    }

    pub fn set_6(&mut self, v: bool)
        ensures
            final(self)@ == with_bit(old(self)@, 6, v),
    {
        proof { lemma_bit_masks(); }
        self.data = if v { self.data | 0b01000000 } else { self.data & 0b10111111 };
    }

    pub fn set_7(&mut self, v: bool)
        ensures
            final(self)@ == with_bit(old(self)@, 7, v),
    {
        proof { lemma_bit_masks(); }
        self.data = if v { self.data | 0b10000000 } else { self.data & 0b01111111 };
    }

    pub fn get_01(&self) -> (r: u8)
        ensures
            r == field_of(self@, 0, 0b11),
    {
        proof { lemma_pair_fields(); }
        self.data & 0b00000011
    }

    pub fn get_23(&self) -> (r: u8)
        ensures
            r == field_of(self@, 2, 0b11),
    {
        proof { lemma_pair_fields(); }
        (self.data & 0b00001100) >> 2
    }

    pub fn get_45(&self) -> (r: u8)
        ensures
            r == field_of(self@, 4, 0b11),
    {
        proof { lemma_pair_fields(); }
        (self.data & 0b00110000) >> 4
    }

    pub fn get_67(&self) -> (r: u8)
        ensures
            r == field_of(self@, 6, 0b11),
    {
        proof { lemma_pair_fields(); }
        (self.data & 0b11000000) >> 6
    }

    /// Clears bits 0-1 and adds `v` shifted to bit 0; the sum must stay within the byte.
    pub fn set_01(&mut self, v: u8)
        requires
            outside_field(old(self)@, 0, 0b11) + v <= 255,
        ensures
            final(self)@ == outside_field(old(self)@, 0, 0b11) + v,
    {
        proof { lemma_pair_fields(); }
        self.data = (self.data & 0b11111100) + v
    }

    /// Clears bits 2-3 and adds `v` shifted to bit 2; the sum must stay within the byte.
    pub fn set_23(&mut self, v: u8)
        requires
            outside_field(old(self)@, 2, 0b11) + (v << 2u8) <= 255,
        ensures
            final(self)@ == outside_field(old(self)@, 2, 0b11) + (v << 2u8),
    {
        proof { lemma_pair_fields(); }
        self.data = (self.data & 0b11110011) + (v << 2)
    }

    /// Clears bits 4-5 and adds `v` shifted to bit 4; the sum must stay within the byte.
    pub fn set_45(&mut self, v: u8)
        requires
            outside_field(old(self)@, 4, 0b11) + (v << 4u8) <= 255,
        ensures
            final(self)@ == outside_field(old(self)@, 4, 0b11) + (v << 4u8),
    {
        proof { lemma_pair_fields(); }
        self.data = (self.data & 0b11001111) + (v << 4)
    }

    /// Clears bits 6-7 and adds `v` shifted to bit 6; the sum must stay within the byte.
    pub fn set_67(&mut self, v: u8)
        requires
            outside_field(old(self)@, 6, 0b11) + (v << 6u8) <= 255,
        ensures
            final(self)@ == outside_field(old(self)@, 6, 0b11) + (v << 6u8),
    {
        proof { lemma_pair_fields(); }
        self.data = (self.data & 0b00111111) + (v << 6)
    }
}

} // verus!
