//! The memory bus of the Game Boy and the small devices on it: work RAM, the serial port and
//! the joypad.

use vstd::prelude::*;
use crate::bitfield::{Bitfield, bit_of, lemma_bit_reads, lemma_field_bound};

verus! {

/// A button of the Game Boy.
#[derive(PartialEq, Eq, Structural, Debug, Clone, Copy)]
pub enum Key {
    Up,
    Down,
    Left,
    Right,
    A,
    B,
    Select,
    Start,
}

/// The joypad register ($FF00): which row of buttons is selected and which buttons are held.
pub struct JoypadRegister {
    /// The direction keys are selected.
    pub p14: bool,
    /// The action buttons are selected.
    pub p15: bool,
    pub up: bool,
    pub down: bool,
    pub left: bool,
    pub right: bool,
    pub a: bool,
    pub b: bool,
    pub select: bool,
    pub start: bool,
}

impl JoypadRegister {
    /// Whether `key` is held.
    pub open spec fn held(&self, key: Key) -> bool {
        match key {
            Key::Up => self.up,
            Key::Down => self.down,
            Key::Left => self.left,
            Key::Right => self.right,
            Key::A => self.a,
            Key::B => self.b,
            Key::Select => self.select,
            Key::Start => self.start,
        }
    }

    /// The same selection, with `key` held or released.
    pub open spec fn same_but(&self, other: &JoypadRegister, key: Key) -> bool {
        &&& other.p14 == self.p14
        &&& other.p15 == self.p15
        &&& forall|k: Key| k != key ==> other.held(k) == self.held(k)
    }

    pub fn new() -> (r: JoypadRegister)
        ensures
            !r.p14 && !r.p15,
            forall|k: Key| !r.held(k),
    {
        JoypadRegister {
            p14: false,
            p15: false,
            up: false,
            down: false,
            left: false,
            right: false,
            a: false,
            b: false,
            select: false,
            start: false,
        }
    }

    /// Releases `key`.
    pub fn key_up(&mut self, key: Key)
        ensures
            !final(self).held(key),
            old(self).same_but(&*final(self), key),
    {
        match key {
            Key::Up => self.up = false,
            Key::Down => self.down = false,
            Key::Left => self.left = false,
            Key::Right => self.right = false,
            Key::A => self.a = false,
            Key::B => self.b = false,
            Key::Select => self.select = false,
            Key::Start => self.start = false,
        }
    }

    /// Presses `key`.
    pub fn key_down(&mut self, key: Key)
        ensures
            final(self).held(key),
            old(self).same_but(&*final(self), key),
    {
        match key {
            Key::Up => self.up = true,
            Key::Down => self.down = true,
            Key::Left => self.left = true,
            Key::Right => self.right = true,
            Key::A => self.a = true,
            Key::B => self.b = true,
            Key::Select => self.select = true,
            Key::Start => self.start = true,
        }
    }

    /// Pressing a key that was not held and releasing it again gives back the register as it
    /// was: `j1` is `j0` after `key_down(key)`, and `j2` is `j1` after `key_up(key)`.
    pub proof fn law_press_release(j0: JoypadRegister, j1: JoypadRegister, j2: JoypadRegister, key: Key)
        requires
            !j0.held(key),
            j1.held(key),
            j0.same_but(&j1, key),
            !j2.held(key),
            j1.same_but(&j2, key),
        ensures
            j2 == j0,
    {
        assert(j2.held(Key::Up) == j0.held(Key::Up));
        assert(j2.held(Key::Down) == j0.held(Key::Down));
        assert(j2.held(Key::Left) == j0.held(Key::Left));
        assert(j2.held(Key::Right) == j0.held(Key::Right));
        assert(j2.held(Key::A) == j0.held(Key::A));
        assert(j2.held(Key::B) == j0.held(Key::B));
        assert(j2.held(Key::Select) == j0.held(Key::Select));
        assert(j2.held(Key::Start) == j0.held(Key::Start));
    }

    /// The four keys of the selected row, from bit 0 to bit 3: Right, Left, Up, Down when the
    /// direction keys are selected, A, B, Select, Start otherwise.
    pub open spec fn row(&self) -> (bool, bool, bool, bool) {
        if self.p14 {
            (self.right, self.left, self.up, self.down)
        } else {
            (self.a, self.b, self.select, self.start)
        }
    }

    /// What a read of $FF00 gives: the low four bits hold the selected row, 0 for a held key,
    /// 1 otherwise.
    pub open spec fn spec_read(&self) -> u8 {
        (15 - (if self.row().0 { 1int } else { 0 }) - (if self.row().1 { 2int } else { 0 })
            - (if self.row().2 { 4int } else { 0 }) - (if self.row().3 { 8int } else { 0 })) as u8
    }

    /// Reads $FF00 (see `spec_read`). A row must be selected.
    pub fn read(&self, address: u16) -> (r: u8)
        requires
            address == 0xFF00,
            self.p14 || self.p15,
        ensures
            r == 15 - (if self.row().0 { 1int } else { 0 }) - (if self.row().1 { 2int } else { 0 })
                - (if self.row().2 { 4int } else { 0 }) - (if self.row().3 { 8int } else { 0 }),
            r == self.spec_read(),
    {
        // 0 means that the button is pressed
        let mut r: u8 = 0b00001111;
        let (b0, b1, b2, b3) = if self.p14 {
            (self.right, self.left, self.up, self.down)
        } else {
            (self.a, self.b, self.select, self.start)
        };
        let ghost m0: u8 = if b0 { 0b00001110 } else { 0xFF };
        let ghost m1: u8 = if b1 { 0b00001101 } else { 0xFF };
        let ghost m2: u8 = if b2 { 0b00001011 } else { 0xFF };
        let ghost m3: u8 = if b3 { 0b00000111 } else { 0xFF };
        proof { lemma_field_bound(); }
        if b0 {
            r &= 0b00001110
        };
        assert(r == 15u8 & m0);
        if b1 {
            r &= 0b00001101
        };
        assert(r == (15u8 & m0) & m1);
        if b2 {
            r &= 0b00001011
        };
        assert(r == ((15u8 & m0) & m1) & m2);
        if b3 {
            r &= 0b00000111
        };
        assert(r == (((15u8 & m0) & m1) & m2) & m3);
        proof {
            let f0: u8 = if b0 { 1 } else { 0 };
            let f1: u8 = if b1 { 2 } else { 0 };
            let f2: u8 = if b2 { 4 } else { 0 };
            let f3: u8 = if b3 { 8 } else { 0 };
            assert((((15u8 & m0) & m1) & m2) & m3 == 15 - f0 - f1 - f2 - f3) by (bit_vector)
                requires
                    m0 == 0b00001110u8 || m0 == 0xFFu8,
                    m1 == 0b00001101u8 || m1 == 0xFFu8,
                    m2 == 0b00001011u8 || m2 == 0xFFu8,
                    m3 == 0b00000111u8 || m3 == 0xFFu8,
                    f0 == (if m0 == 0xFFu8 { 0u8 } else { 1u8 }),
                    f1 == (if m1 == 0xFFu8 { 0u8 } else { 2u8 }),
                    f2 == (if m2 == 0xFFu8 { 0u8 } else { 4u8 }),
                    f3 == (if m3 == 0xFFu8 { 0u8 } else { 8u8 }),
            ;
        }
        r
    }

    /// Writes $FF00: bit 4 selects the action buttons, bit 5 the direction keys.
    pub fn write(&mut self, address: u16, v: u8)
        requires
            address == 0xFF00,
        ensures
            final(self).p15 == (bit_of(v, 4) == 1),
            final(self).p14 == (bit_of(v, 5) == 1),
            forall|k: Key| final(self).held(k) == old(self).held(k),
    {
        proof { lemma_bit_reads(); }
        self.p15 = (0b00010000 & v) > 0;
        self.p14 = (0b00100000 & v) > 0;
        proof {
            assert((0b00010000u8 & v) == (v & 0b00010000u8)) by (bit_vector);
            assert((0b00100000u8 & v) == (v & 0b00100000u8)) by (bit_vector);
        }
    }
}

/// Whether `address` belongs to the unusable areas ($FEA0-$FEFF, $FF4C-$FF7F): reads give
/// $FF and writes do nothing.
pub open spec fn is_unusable(address: u16) -> bool {
    (0xFEA0 <= address <= 0xFEFF) || (0xFF4C <= address <= 0xFF7F)
}

/// Whether `address` is served by the work RAM holder: work RAM ($C000-$DFFF), high RAM
/// ($FF80-$FFFE) or an unusable area.
pub open spec fn is_memory_holder_address(address: u16) -> bool {
    is_unusable(address) || (0xC000 <= address <= 0xDFFF) || (0xFF80 <= address <= 0xFFFE)
}

/// Work RAM and high RAM.
pub struct MemoryHolder {
    stack: Vec<u8>,
    internal_ram: Vec<u8>,
}

/// Size of the high RAM buffer.
pub const STACK_SIZE: usize = 256;

/// Size of the work RAM buffer.
pub const INTERNAL_RAM_SIZE: usize = 8196;

impl MemoryHolder {
    pub closed spec fn wf(&self) -> bool {
        self.stack@.len() == STACK_SIZE && self.internal_ram@.len() == INTERNAL_RAM_SIZE
    }

    /// What a read of `address` gives.
    pub closed spec fn spec_read(&self, address: u16) -> u8 {
        if is_unusable(address) {
            0xFF
        } else if 0xC000 <= address <= 0xDFFF {
            self.internal_ram@[address - 0xC000]
        } else {
            self.stack@[address - 0xFF80]
        }
    }

    pub fn new() -> (r: MemoryHolder)
        ensures
            r.wf(),
            forall|a: u16| is_memory_holder_address(a) && !is_unusable(a) ==> r.spec_read(a) == 0,
    {
        MemoryHolder { stack: vec![0; STACK_SIZE], internal_ram: vec![0; INTERNAL_RAM_SIZE] }
    }

    pub fn read(&self, address: u16) -> (r: u8)
        requires
            self.wf(),
            is_memory_holder_address(address),
        ensures
            r == self.spec_read(address),
    {
        match address {
            0xFEA0..=0xFEFF | 0xFF4C..=0xFF7F => {
                // This area of the memory is not theoretically accessible but
                // some games do try to read from here because of bugs in them.
                // We will just return open bus.
                0xFF
            },
            0xC000..=0xDFFF => self.internal_ram[(address - 0xC000) as usize],
            _ => self.stack[(address - 0xFF80) as usize],
        }
    }

    /// Writes `v` at `address`; a later read of `address` gives `v` unless the address is
    /// unusable, and no other address changes.
    pub fn write(&mut self, address: u16, v: u8)
        requires
            old(self).wf(),
            is_memory_holder_address(address),
        ensures
            final(self).wf(),
            !is_unusable(address) ==> final(self).spec_read(address) == v,
            forall|a: u16| a != address && is_memory_holder_address(a) ==> final(self).spec_read(a)
                == old(self).spec_read(a),
            is_unusable(address) ==> final(self).spec_read(address) == old(self).spec_read(address),
    {
        match address {
            0xFEA0..=0xFEFF | 0xFF4C..=0xFF7F => {
                // This area is not mapped to anything in the game boy hardware,
                // so writes have no effect.
            },
            0xC000..=0xDFFF => self.internal_ram.set((address - 0xC000) as usize, v),
            _ => self.stack.set((address - 0xFF80) as usize, v),
        }
    }
}

/// The serial port registers: transfer data ($FF01) and control ($FF02).
pub struct SerialTransferController {
    pub transfer_data: u8,
    pub flags: Bitfield,
}

impl SerialTransferController {
    pub fn new() -> (r: SerialTransferController)
        ensures
            r.transfer_data == 0,
            r.flags@ == 0,
    {
        SerialTransferController { transfer_data: 0, flags: Bitfield::new(0) }
    }

    pub fn shift_clock(&self) -> (r: u8)
        ensures
            r == bit_of(self.flags@, 0),
    {
        self.flags.get_0()
    }

    pub fn fast_clock(&self) -> (r: u8)
        ensures
            r == bit_of(self.flags@, 1),
    {
        self.flags.get_1()
    }

    pub fn start_transfer(&self) -> (r: u8)
        ensures
            r == bit_of(self.flags@, 7),
    {
        self.flags.get_7()
    }

    /// Reads $FF01 or $FF02; the unused bits of $FF02 read as ones.
    pub fn read(&self, address: u16) -> (r: u8)
        requires
            address == 0xFF01 || address == 0xFF02,
        ensures
            r == (if address == 0xFF01 { self.transfer_data } else { self.flags@ | 0b01111110u8 }),
    {
        proof { lemma_field_bound(); }
        match address {
            0xFF01 => self.transfer_data | 0b00000000,
            _ => self.flags.get() | 0b01111110,
        }
    }

    pub fn write(&mut self, address: u16, v: u8)
        requires
            address == 0xFF01 || address == 0xFF02,
        ensures
            address == 0xFF01 ==> final(self).transfer_data == v && final(self).flags == old(self).flags,
            address == 0xFF02 ==> final(self).flags@ == v && final(self).transfer_data == old(self).transfer_data,
    {
        match address {
            0xFF01 => self.transfer_data = v,
            _ => self.flags.set(v),
        }
    }
}

/// The serial port; every byte written to the transfer register is also kept, in order, as
/// debug output (test ROMs print their results this way).
pub struct SerialTransfer {
    pub debug_data: Vec<u8>,
    pub mapper: SerialTransferController,
}

impl SerialTransfer {
    pub fn new() -> (r: SerialTransfer)
        ensures
            r.debug_data@ == Seq::<u8>::empty(),
            r.mapper.transfer_data == 0,
            r.mapper.flags@ == 0,
    {
        SerialTransfer { debug_data: vec![], mapper: SerialTransferController::new() }
    }

    pub fn read(&self, address: u16) -> (r: u8)
        requires
            address == 0xFF01 || address == 0xFF02,
        ensures
            r == (if address == 0xFF01 { self.mapper.transfer_data } else { self.mapper.flags@ | 0b01111110u8 }),
    {
        self.mapper.read(address)
    }

    pub fn write(&mut self, address: u16, v: u8)
        requires
            address == 0xFF01 || address == 0xFF02,
        ensures
            final(self).debug_data@ == (if address == 0xFF01 { old(self).debug_data@.push(v) } else {
                old(self).debug_data@ }),
            address == 0xFF01 ==> final(self).mapper.transfer_data == v && final(self).mapper.flags == old(self).mapper.flags,
            address == 0xFF02 ==> final(self).mapper.flags@ == v && final(self).mapper.transfer_data
                == old(self).mapper.transfer_data,
    {
        if address == 0xFF01 {
            // Blargg's test roms use this address to print debug information
            self.debug_data.push(v);
        }
        self.mapper.write(address, v);
    }
}

} // verus!
