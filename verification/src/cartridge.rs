//! The cartridge: its header, and the memory bank controllers that map its ROM and RAM into
//! $0000-$7FFF and $A000-$BFFF.

use vstd::prelude::*;

verus! {

/// Size of a ROM bank.
pub const BANK_SIZE: usize = 0x4000;

/// Size of a RAM bank.
pub const RAM_BANK_SIZE: usize = 0x2000;

/// The number of ROM banks that a header's ROM size byte stands for.
pub open spec fn rom_size_of(byte: u8) -> usize {
    if byte == 0x00 { 2 } else if byte == 0x01 { 4 } else if byte == 0x02 { 8 } else if byte == 0x03 { 16 }
    else if byte == 0x04 { 32 } else if byte == 0x05 { 64 } else if byte == 0x06 { 128 } else if byte == 0x52 { 72 }
    else if byte == 0x53 { 80 } else { 96 }
}

/// The ROM size bytes that a header may hold.
pub open spec fn is_rom_size_byte(byte: u8) -> bool {
    byte <= 0x06 || (0x52 <= byte <= 0x54)
}

/// The RAM size (in kilobits) that a header's RAM size byte stands for.
pub open spec fn ram_size_of(byte: u8) -> usize {
    if byte == 0x00 { 0 } else if byte == 0x01 { 16 } else if byte == 0x02 { 64 } else if byte == 0x03 { 256 } else {
        1024 }
}

/// The ROM size (in banks) from the header's ROM size byte.
pub fn get_rom_size(byte: u8) -> (r: usize)
    requires
        is_rom_size_byte(byte),
    ensures
        r == rom_size_of(byte),
{
    match byte {
        0x00 => 2,
        0x01 => 4,
        0x02 => 8,
        0x03 => 16,
        0x04 => 32,
        0x05 => 64,
        0x06 => 128,
        0x52 => 72,
        0x53 => 80,
        _ => 96,
    }
}

/// The RAM size (in kilobits) from the header's RAM size byte.
pub fn get_ram_size(byte: u8) -> (r: usize)
    requires
        byte <= 0x04,
    ensures
        r == ram_size_of(byte),
{
    match byte {
        0x00 => 0,
        0x01 => 16,
        0x02 => 64,
        0x03 => 256,
        _ => 1024,
    }
}

/// What both kinds of memory bank controller do.
pub trait Mbc {
    spec fn wf(&self) -> bool;

    /// The reads that the controller answers.
    spec fn can_read(&self, address: u16) -> bool;

    /// The writes that the controller takes.
    spec fn can_write(&self, address: u16, v: u8) -> bool;

    fn read(&self, address: u16) -> u8
        requires
            self.wf(),
            self.can_read(address),
    ;

    fn write(&mut self, address: u16, v: u8)
        requires
            old(self).wf(),
            old(self).can_write(address, v),
        ensures
            final(self).wf(),
    ;

    /// Whether the controller answers a read of `address`.
    fn readable(&self, address: u16) -> (r: bool)
        ensures
            r == self.can_read(address),
    ;

    /// Whether the controller takes a write of `v` to `address`.
    fn writable(&self, address: u16, v: u8) -> (r: bool)
        ensures
            r == self.can_write(address, v),
    ;
}

/// A cartridge without a controller: 32 KB of ROM and one bank of RAM.
pub struct Mbc0 {
    pub data: Vec<u8>,
    pub ram: Vec<u8>,
}

impl Mbc0 {
    pub fn new(data: Vec<u8>) -> (r: Mbc0)
        ensures
            r.data@ == data@,
            r.ram@ == Seq::new(RAM_BANK_SIZE as nat, |i: int| 0u8),
            r.wf(),
    {
        let r = Mbc0 { data: data, ram: vec![0u8; RAM_BANK_SIZE] };
        assert(r.ram@ =~= Seq::new(RAM_BANK_SIZE as nat, |i: int| 0u8));
        r
    }

    /// The cartridge RAM, for saving and loading it.
    pub fn ram(&mut self) -> (r: &mut [u8])
        ensures
            r@ == old(self).ram@,
            final(self).ram@ == final(r)@,
            final(self).data == old(self).data,
    {
        self.ram.as_mut_slice()
    }
}

impl Mbc for Mbc0 {
    open spec fn wf(&self) -> bool {
        self.ram@.len() == RAM_BANK_SIZE
    }

    /// ROM bytes that the image holds, and the RAM.
    open spec fn can_read(&self, address: u16) -> bool {
        (address <= 0x7FFF && address < self.data@.len()) || (0xA000 <= address <= 0xBFFF)
    }

    /// Every write is taken, and ignored.
    open spec fn can_write(&self, address: u16, v: u8) -> bool {
        true
    }

    fn readable(&self, address: u16) -> (r: bool) {
        (address <= 0x7FFF && (address as usize) < self.data.len()) || (address >= 0xA000 && address <= 0xBFFF)
    }

    fn writable(&self, address: u16, v: u8) -> (r: bool) {
        true
    }

    fn read(&self, address: u16) -> (r: u8)
        ensures
            address <= 0x7FFF ==> r == self.data@[address as int],
            0xA000 <= address <= 0xBFFF ==> r == self.ram@[address - 0xA000],
    {
        if address <= 0x7FFF {
            self.data[address as usize]
        } else {
            self.ram[(address as usize) - 0xA000]
        }
    }

    fn write(&mut self, address: u16, v: u8)
        ensures
            *final(self) == *old(self),
    {
        // Theoretically not supposed to write to the Mbc0 ROM, but some games do
        // it anyway.
    }
}

/// The addressing of cartridge RAM, chosen by the controller.
#[derive(PartialEq, Eq, Structural, Debug, Clone, Copy)]
pub enum MemoryMode {
    C4_32,
    C16_8,
}

/// Which controller a `Mbc13` is.
#[derive(PartialEq, Eq, Structural, Debug, Clone, Copy)]
pub enum MbcMode {
    Mbc3,
    Mbc1,
}

/// The state of the latch of the real time clock.
#[derive(PartialEq, Eq, Structural, Debug, Clone, Copy)]
pub enum RtcLatchStatus {
    Initial,
    Enabling,
    Enabled,
}

/// What $A000-$BFFF shows: a bank of cartridge RAM (by its offset) or a clock register.
#[derive(PartialEq, Eq, Structural, Debug, Clone, Copy)]
pub enum RamRtc {
    RamBank(usize),
    RtcRegister(u8),
}

/// The ROM bank that a write of `v` to $2000-$3FFF selects on an MBC1: bank numbers whose low
/// five bits are zero select the next bank, and numbers out of range wrap around.
pub open spec fn mbc1_bank(v: u8, rom_banks: usize) -> int {
    let v_bug: int = if v % 32 == 0 { v + 1 } else { v as int };
    v_bug % rom_banks as int
}

/// The ROM bank that a write of `v` to $2000-$3FFF selects on an MBC3, wrapping around.
pub open spec fn mbc3_bank(v: u8, rom_banks: usize) -> int {
    v as int % rom_banks as int
}

/// The offset added to $4000-$7FFF for ROM bank `bank` (bank 0 reads as bank 1).
pub open spec fn bank_offset(bank: int) -> int {
    if bank > 0 { (bank - 1) * (BANK_SIZE as int) } else { 0 }
}

/// An MBC1 or MBC3 controller: switchable ROM banks, four RAM banks, and on the MBC3 a real
/// time clock.
pub struct Mbc13 {
    pub selected_bank: usize,
    pub data: Vec<u8>,
    /// Added to $4000-$7FFF to address the selected ROM bank.
    pub offset: usize,
    pub ram: Vec<u8>,
    pub ram_rtc: RamRtc,
    pub ram_enabled: bool,
    /// The time stamp (seconds since 1970) that the clock counts from.
    pub rtc: i64,
    pub rtc_register: u8,
    pub rtc_latch_status: RtcLatchStatus,
    pub rom_banks: usize,
    pub mode: MbcMode,
}

impl Mbc13 {
    pub fn new(data: Vec<u8>, mode: MbcMode) -> (r: Mbc13)
        requires
            data@.len() % (BANK_SIZE as nat) == 0,
        ensures
            r.wf(),
            r.data@ == data@,
            r.mode == mode,
            r.rom_banks == data@.len() / (BANK_SIZE as nat),
            r.offset == 0,
            r.ram_rtc == RamRtc::RamBank(0),
            !r.ram_enabled,
            r.rtc == 0,
            r.rtc_latch_status == RtcLatchStatus::Initial,
            forall|i: int| 0 <= i < 4 * RAM_BANK_SIZE ==> r.ram@[i] == 0,
    {
        Mbc13 {
            selected_bank: 1,
            rom_banks: data.len() / BANK_SIZE,
            data: data,
            offset: 0,
            ram: vec![0u8; BANK_SIZE * 2],
            ram_rtc: RamRtc::RamBank(0),
            ram_enabled: false,
            rtc: 0,
            rtc_register: 0,
            rtc_latch_status: RtcLatchStatus::Initial,
            mode: mode,
        }
    }

    /// The cartridge RAM, for saving and loading it.
    pub fn ram(&mut self) -> (r: &mut [u8])
        ensures
            r@ == old(self).ram@,
            final(self).ram@ == final(r)@,
            final(self).data == old(self).data,
            final(self).offset == old(self).offset,
            final(self).ram_rtc == old(self).ram_rtc,
            final(self).rom_banks == old(self).rom_banks,
            final(self).mode == old(self).mode,
    {
        self.ram.as_mut_slice()
    }

    /// The time stamp that the clock counts from, for saving and loading it.
    pub fn rtc(&mut self) -> (r: &mut i64)
        ensures
            *r == old(self).rtc,
            final(self).rtc == *final(r),
            final(self).ram == old(self).ram,
            final(self).data == old(self).data,
            final(self).offset == old(self).offset,
            final(self).ram_rtc == old(self).ram_rtc,
            final(self).rom_banks == old(self).rom_banks,
            final(self).mode == old(self).mode,
    {
        &mut self.rtc
    }

    /// Selects ROM bank `v` (modulo the number of banks) on an MBC3.
    fn switch_bank_mbc3(&mut self, v: u8)
        requires
            old(self).wf(),
            old(self).rom_banks >= 1,
        ensures
            final(self).wf(),
            final(self).offset == bank_offset(mbc3_bank(v, old(self).rom_banks)),
            *final(self) == (Mbc13 { offset: final(self).offset, ..*old(self) }),
    {
        // Any write to this area will enable the bank of memory contained in v
        // if 0 is selected we will select 1 because 0 is already available
        // statically in 0 0000 - 3FFF
        // Moreover, if the requested bank is out of range, the DMG wraps around
        // and picks a valid bank regardless of the value.
        let n = self.data.len();
        let bank = v as usize % self.rom_banks;
        if bank > 0 {
            self.offset = (bank - 1) * BANK_SIZE;
        } else {
            self.offset = 0x0000;
        }
    }

    /// Selects ROM bank `v` on an MBC1 (see `mbc1_bank`).
    fn switch_bank_mbc1(&mut self, v: u8)
        requires
            old(self).wf(),
            old(self).rom_banks >= 1,
            mbc1_bank(v, old(self).rom_banks) != 0,
        ensures
            final(self).wf(),
            final(self).offset == bank_offset(mbc1_bank(v, old(self).rom_banks)),
            *final(self) == (Mbc13 { offset: final(self).offset, ..*old(self) }),
    {
        // There's a bug in MBC1 that makes it so that for v = 0x00, 0x20, 0x40, 0x60
        // the bank selected is actually the following one (v+1)
        proof {
            assert(v & 0b11111u8 == v % 32) by (bit_vector);
        }
        let v_bug: u8 = if v & 0b11111 == 0 { v + 1 } else { v };

        // The rom bank selected will wrap around if the value is out of range.
        let n = self.data.len();
        let bank = v_bug as usize % self.rom_banks;

        self.offset = (bank - 1) * BANK_SIZE;
    }

    /// Selects the RAM bank in the low two bits of `v` (MBC1).
    fn switch_ram_bank_mbc1(&mut self, v: u8)
        requires
            old(self).wf(),
        ensures
            final(self).wf(),
            final(self).ram_rtc == RamRtc::RamBank((RAM_BANK_SIZE * (v % 4)) as usize),
            *final(self) == (Mbc13 { ram_rtc: final(self).ram_rtc, ..*old(self) }),
    {
        // Writing to this area will cause the controller to switch
        // banks of in-cartridge RAM.
        // Only the lowest two bits are relevant for this register.
        proof {
            assert(v & 0b11u8 == v % 4) by (bit_vector);
        }
        self.ram_rtc = RamRtc::RamBank(RAM_BANK_SIZE * (v & 0b11) as usize);
    }

    /// Selects a RAM bank (0-3) or a clock register ($08-$0C) (MBC3).
    fn switch_ram_bank_mbc3(&mut self, v: u8)
        requires
            old(self).wf(),
            old(self).mode == MbcMode::Mbc3,
            v < 0x04 || (0x08 <= v <= 0x0C),
        ensures
            final(self).wf(),
            final(self).ram_rtc == (if v < 0x04 { RamRtc::RamBank((RAM_BANK_SIZE * v) as usize) } else {
                RamRtc::RtcRegister(v) }),
            *final(self) == (Mbc13 { ram_rtc: final(self).ram_rtc, ..*old(self) }),
    {
        if v < 0x04 {
            proof {
                assert(v < 4 ==> v & 0b11u8 == v) by (bit_vector);
            }
            self.ram_rtc = RamRtc::RamBank(RAM_BANK_SIZE * (v & 0b11) as usize);
        } else {
            self.ram_rtc = RamRtc::RtcRegister(v);
        }
    }

    /// The clock latch: 0 arms it, then 1 latches the clock.
    fn latch_clock_data(&mut self, v: u8)
        ensures
            final(self).rtc_latch_status == (if v == 0x00 { RtcLatchStatus::Enabling } else if v == 0x01
                && old(self).rtc_latch_status == RtcLatchStatus::Enabling { RtcLatchStatus::Enabled } else {
                old(self).rtc_latch_status }),
            *final(self) == (Mbc13 { rtc_latch_status: final(self).rtc_latch_status, ..*old(self) }),
    {
        if v == 0x00 {
            self.rtc_latch_status = RtcLatchStatus::Enabling;
        } else if v == 0x01 && self.rtc_latch_status == RtcLatchStatus::Enabling {
            self.rtc_latch_status = RtcLatchStatus::Enabled;
            // The latched clock registers are computed when read.
        }
    }
}

impl Mbc for Mbc13 {
    open spec fn wf(&self) -> bool {
        &&& self.data@.len() == self.rom_banks * BANK_SIZE
        &&& self.ram@.len() == 4 * RAM_BANK_SIZE
        &&& self.offset % BANK_SIZE == 0
        &&& (self.offset == 0 || self.offset + 2 * BANK_SIZE <= self.data@.len())
        &&& (self.ram_rtc matches RamRtc::RamBank(o) ==> o % RAM_BANK_SIZE == 0 && o <= 3 * RAM_BANK_SIZE)
        &&& (self.ram_rtc matches RamRtc::RtcRegister(reg) ==> 0x08 <= reg <= 0x0C && self.mode == MbcMode::Mbc3)
    }

    /// ROM bytes that the image holds; RAM while it is enabled (a clock register through the
    /// latch on an MBC3).
    open spec fn can_read(&self, address: u16) -> bool {
        ||| address <= 0x3FFF && address < self.data@.len()
        ||| 0x4000 <= address <= 0x7FFF && address + self.offset < self.data@.len()
        ||| 0xA000 <= address <= 0xBFFF && self.ram_enabled && (self.ram_rtc is RamBank || timestamp_in_range(self.rtc))
    }

    /// The control registers ($0000-$7FFF), with the values the controller accepts, and RAM
    /// while it is enabled.
    open spec fn can_write(&self, address: u16, v: u8) -> bool {
        ||| address <= 0x1FFF
        ||| 0x2000 <= address <= 0x3FFF && self.rom_banks >= 1 && (self.mode == MbcMode::Mbc1 ==> mbc1_bank(v,
            self.rom_banks) != 0)
        ||| 0x4000 <= address <= 0x5FFF && (self.mode == MbcMode::Mbc3 ==> v < 0x04 || (0x08 <= v <= 0x0C))
        ||| 0x6000 <= address <= 0x7FFF && self.mode == MbcMode::Mbc3
        ||| 0xA000 <= address <= 0xBFFF && self.ram_enabled
    }

    fn readable(&self, address: u16) -> (r: bool) {
        if address <= 0x3FFF {
            (address as usize) < self.data.len()
        } else if address <= 0x7FFF {
            (address as usize) < self.data.len() && self.offset < self.data.len() - address as usize
        } else if address >= 0xA000 && address <= 0xBFFF {
            self.ram_enabled && (match self.ram_rtc {
                RamRtc::RamBank(_) => true,
                RamRtc::RtcRegister(_) => self.rtc >= -8_334_601_315_200 && self.rtc <= 8_210_266_876_799,
            })
        } else {
            false
        }
    }

    fn writable(&self, address: u16, v: u8) -> (r: bool) {
        if address <= 0x1FFF {
            true
        } else if address <= 0x3FFF {
            self.rom_banks >= 1 && match self.mode {
                MbcMode::Mbc1 => {
                    let v_bug: usize = if v % 32 == 0 { v as usize + 1 } else { v as usize };
                    v_bug % self.rom_banks != 0
                },
                MbcMode::Mbc3 => true,
            }
        } else if address <= 0x5FFF {
            match self.mode {
                MbcMode::Mbc3 => v < 0x04 || (v >= 0x08 && v <= 0x0C),
                MbcMode::Mbc1 => true,
            }
        } else if address <= 0x7FFF {
            self.mode == MbcMode::Mbc3
        } else if address >= 0xA000 && address <= 0xBFFF {
            self.ram_enabled
        } else {
            false
        }
    }

    fn read(&self, address: u16) -> (r: u8)
        ensures
            address <= 0x3FFF ==> r == self.data@[address as int],
            0x4000 <= address <= 0x7FFF ==> r == self.data@[address + self.offset],
            0xA000 <= address <= 0xBFFF ==> match self.ram_rtc {
                RamRtc::RamBank(o) => r == self.ram@[address - 0xA000 + o],
                RamRtc::RtcRegister(reg) => exists|elapsed: i64| r == rtc_value(elapsed, reg),
            },
    {
        if address <= 0x3FFF {
            self.data[address as usize]
        } else if address <= 0x7FFF {
            let n = self.data.len();
            self.data[address as usize + self.offset]
        } else {
            match self.ram_rtc {
                RamRtc::RamBank(offset) => self.ram[(address - 0xA000) as usize + offset],
                RamRtc::RtcRegister(reg) => match seconds_since(self.rtc) {
                    Some(elapsed) => rtc_register_value(elapsed, reg),
                    // A system clock that cannot be read counts as no time elapsed.
                    None => rtc_register_value(0, reg),
                },
            }
        }
    }

    fn write(&mut self, address: u16, v: u8)
        ensures
            mbc13_written(*old(self), *final(self), address, v),
    {
        if address <= 0x1FFF {
            if v & 0x0A == 0x00 {
                self.ram_enabled = false;
            } else if v & 0x0A == 0x0A {
                self.ram_enabled = true;
            } else {
                // Some games write other values here; they leave RAM access as it is.
            }
        } else if address <= 0x3FFF {
            match self.mode {
                MbcMode::Mbc1 => self.switch_bank_mbc1(v),
                MbcMode::Mbc3 => self.switch_bank_mbc3(v),
            }
        } else if address <= 0x5FFF {
            proof {
                assert(v < 4 ==> v % 4 == v);
            }
            match self.mode {
                MbcMode::Mbc1 => self.switch_ram_bank_mbc1(v),
                MbcMode::Mbc3 => self.switch_ram_bank_mbc3(v),
            }
        } else if address <= 0x7FFF {
            self.latch_clock_data(v);
        } else {
            match self.ram_rtc {
                RamRtc::RamBank(offset) => {
                    self.ram.set((address - 0xA000) as usize + offset, v);
                },
                // The clock registers cannot be set yet.
                RamRtc::RtcRegister(_) => {},
            }
        }
    }
}

/// The time stamps (seconds since 1970) that chrono can turn into a date: from January 1 of
/// 262144 BC to the end of December 31 of 262142.
pub open spec fn timestamp_in_range(t: i64) -> bool {
    -8_334_601_315_200 <= t <= 8_210_266_876_799
}

/// The current time in whole seconds since 1970, from std's `SystemTime::now` and
/// `duration_since(UNIX_EPOCH)`: `None` when the system clock reads earlier than 1970. What the
/// clock reads is not stated.
#[verifier::external_body]
fn unix_time_now() -> (r: Option<u64>) {
    match std::time::SystemTime::now().duration_since(std::time::UNIX_EPOCH) {
        Ok(d) => Some(d.as_secs()),
        Err(_) => None,
    }
}

/// The seconds from the time stamp `then` to the time stamp `now`, from chrono: both are turned
/// into dates with `DateTime::from_timestamp(.., 0)`, which gives a date exactly for the time
/// stamps in `timestamp_in_range` and `None` otherwise, and `signed_duration_since(..)
/// .num_seconds()` of two whole-second dates is their difference.
#[verifier::external_body]
fn seconds_between(now: i64, then: i64) -> (r: Option<i64>)
    ensures
        r is Some <==> (timestamp_in_range(now) && timestamp_in_range(then)),
        r is Some ==> r->0 == now - then,
{
    match (chrono::DateTime::from_timestamp(now, 0), chrono::DateTime::from_timestamp(then, 0)) {
        (Some(n), Some(t)) => Some(n.signed_duration_since(t).num_seconds()),
        _ => None,
    }
}

/// The whole seconds from the time stamp `rtc` to now; `None` when `rtc` or the system clock is
/// out of the range of dates, or the clock reads earlier than 1970.
fn seconds_since(rtc: i64) -> (r: Option<i64>)
    ensures
        r is Some ==> timestamp_in_range(rtc),
        !timestamp_in_range(rtc) ==> r is None,
{
    match unix_time_now() {
        Some(now) => {
            if now <= 8_210_266_876_799 {
                seconds_between(now as i64, rtc)
            } else {
                None
            }
        },
        None => None,
    }
}

/// Integer division rounding toward zero, as Rust's `/` does.
pub open spec fn trunc_div(a: int, b: int) -> int {
    if a >= 0 { a / b } else { -((-a) / b) }
}

/// The remainder of `trunc_div`, as Rust's `%` gives it (with the sign of `a`).
pub open spec fn trunc_rem(a: int, b: int) -> int {
    a - b * trunc_div(a, b)
}

/// The value of clock register `reg` ($08 seconds, $09 minutes, $0A hours, $0B and $0C the day
/// counter) when `elapsed` seconds have passed since the clock's time stamp. The low day byte
/// counts modulo 255, and $0C holds bit 8 of the day count together with the overflow bit
/// (bit 7) once more than 511 days have passed, both masked out of the day count shifted
/// right by 8.
pub open spec fn rtc_value(elapsed: i64, reg: u8) -> u8 {
    let days = trunc_div(elapsed as int, 86400);
    if reg == 0x08 {
        trunc_rem(elapsed as int, 60) as u8
    } else if reg == 0x09 {
        trunc_rem(trunc_div(elapsed as int, 60), 60) as u8
    } else if reg == 0x0A {
        trunc_rem(trunc_div(elapsed as int, 3600), 24) as u8
    } else if reg == 0x0B {
        trunc_rem(days, 255) as u8
    } else {
        (((days as i64) >> 8u32) & (if days > 511 { 0x81i64 } else { 0x01i64 })) as u8
    }
}

/// The value of clock register `reg` ($08-$0C) when `elapsed` seconds have passed since the
/// clock's time stamp.
pub fn rtc_register_value(elapsed: i64, reg: u8) -> (r: u8)
    requires
        0x08 <= reg <= 0x0C,
    ensures
        r == rtc_value(elapsed, reg),
{
    let v: i64 = if reg == 0x08 {
        elapsed % 60
    } else if reg == 0x09 {
        (elapsed / 60) % 60
    } else if reg == 0x0A {
        (elapsed / 3600) % 24
    } else if reg == 0x0B {
        (elapsed / 86400) % 0xFF
    } else {
        let days = elapsed / 86400;
        (days >> 8u32) & (0x01 + if days > 511 { 0b10000000 } else { 0 })
    };
    v as u8
}

/// What a write of `v` to `address` does to an MBC1/MBC3 controller (see `Mbc13::write`).
pub open spec fn mbc13_written(old: Mbc13, new: Mbc13, address: u16, v: u8) -> bool {
    &&& address <= 0x1FFF ==> new == (Mbc13 { ram_enabled: if v & 0x0A == 0x00 { false } else if v & 0x0A == 0x0A {
        true } else { old.ram_enabled }, ..old })
    &&& 0x2000 <= address <= 0x3FFF ==> new == (Mbc13 { offset: new.offset, ..old }) && new.offset == bank_offset(
        if old.mode == MbcMode::Mbc1 { mbc1_bank(v, old.rom_banks) } else { mbc3_bank(v, old.rom_banks) })
    &&& 0x4000 <= address <= 0x5FFF ==> new == (Mbc13 { ram_rtc: new.ram_rtc, ..old }) && new.ram_rtc == (if old.mode
        == MbcMode::Mbc1 || v < 0x04 { RamRtc::RamBank((RAM_BANK_SIZE * (v % 4)) as usize) } else {
        RamRtc::RtcRegister(v) })
    &&& 0x6000 <= address <= 0x7FFF ==> new == (Mbc13 { rtc_latch_status: new.rtc_latch_status, ..old })
        && new.rtc_latch_status == (if v == 0x00 { RtcLatchStatus::Enabling } else if v == 0x01 && old.rtc_latch_status
        == RtcLatchStatus::Enabling { RtcLatchStatus::Enabled } else { old.rtc_latch_status })
    &&& 0xA000 <= address <= 0xBFFF ==> new == (Mbc13 { ram: new.ram, ..old }) && new.ram@ == (match old.ram_rtc {
        RamRtc::RamBank(o) => old.ram@.update(address - 0xA000 + o, v),
        RamRtc::RtcRegister(_) => old.ram@,
    })
}

/// After a write of `v` to $2000-$3FFF on an MBC3 cartridge with `n` ROM banks, address
/// $4000 + `a` reads byte `a` of ROM bank `v` mod `n` (ROM byte (`v` mod `n`) * $4000 + `a`),
/// and byte `a` of bank 1 when `v` mod `n` is 0; nothing else of the controller changes.
pub proof fn law_mbc3_bank_switch(before: Mbc13, after: Mbc13, address: u16, v: u8, a: int)
    requires
        before.wf(),
        before.mode == MbcMode::Mbc3,
        before.rom_banks >= 1,
        0x2000 <= address <= 0x3FFF,
        mbc13_written(before, after, address, v),
        0 <= a < 0x4000,
    ensures
        after.data == before.data,
        v as int % before.rom_banks as int != 0 ==> 0x4000 + a + after.offset == (v as int % before.rom_banks as int)
            * 0x4000 + a,
        v as int % before.rom_banks as int != 0 ==> after.data@[0x4000 + a + after.offset] == before.data@[(v as int
            % before.rom_banks as int) * 0x4000 + a],
        v as int % before.rom_banks as int == 0 ==> after.data@[0x4000 + a + after.offset] == before.data@[0x4000 + a],
{
}

/// The controller of a cartridge.
pub enum MbcKind {
    Mbc0(Mbc0),
    Mbc13(Mbc13),
}

/// The controller type bytes that a header may hold: none ($00), MBC1 ($01-$03) and MBC3
/// ($0F-$13).
pub open spec fn is_supported_type(t: u8) -> bool {
    t == 0x00 || (0x01 <= t <= 0x03) || (0x0F <= t <= 0x13)
}

/// The memory bank controller of a cartridge, chosen by the type byte ($0147) of its header.
pub struct MemoryController {
    pub controller: MbcKind,
}

impl MemoryController {
    pub open spec fn wf(&self) -> bool {
        match self.controller {
            MbcKind::Mbc0(c) => c.wf(),
            MbcKind::Mbc13(c) => c.wf(),
        }
    }

    pub open spec fn can_read(&self, address: u16) -> bool {
        match self.controller {
            MbcKind::Mbc0(c) => c.can_read(address),
            MbcKind::Mbc13(c) => c.can_read(address),
        }
    }

    pub open spec fn can_write(&self, address: u16, v: u8) -> bool {
        match self.controller {
            MbcKind::Mbc0(c) => c.can_write(address, v),
            MbcKind::Mbc13(c) => c.can_write(address, v),
        }
    }

    /// The controller for a ROM image: none for type $00, an MBC1 for $01-$03, an MBC3 for
    /// $0F-$13.
    pub fn from_bytes(bytes: Vec<u8>) -> (r: MemoryController)
        requires
            bytes@.len() > 0x147,
            is_supported_type(bytes@[0x147]),
            bytes@[0x147] != 0x00 ==> bytes@.len() % (BANK_SIZE as nat) == 0,
        ensures
            r.wf(),
            bytes@[0x147] == 0x00 ==> (r.controller matches MbcKind::Mbc0(c) && c.data@ == bytes@),
            0x01 <= bytes@[0x147] <= 0x03 ==> (r.controller matches MbcKind::Mbc13(c) && c.data@ == bytes@ && c.mode
                == MbcMode::Mbc1 && c.offset == 0 && !c.ram_enabled),
            0x0F <= bytes@[0x147] <= 0x13 ==> (r.controller matches MbcKind::Mbc13(c) && c.data@ == bytes@ && c.mode
                == MbcMode::Mbc3 && c.offset == 0 && !c.ram_enabled),
    {
        let t = bytes[0x147];
        let controller = if t == 0x00 {
            MbcKind::Mbc0(Mbc0::new(bytes))
        } else if t <= 0x03 {
            MbcKind::Mbc13(Mbc13::new(bytes, MbcMode::Mbc1))
        } else {
            MbcKind::Mbc13(Mbc13::new(bytes, MbcMode::Mbc3))
        };

        MemoryController { controller: controller }
    }

    pub fn read(&self, address: u16) -> (r: u8)
        requires
            self.wf(),
            self.can_read(address),
        ensures
            self.controller matches MbcKind::Mbc0(c) ==> (address <= 0x7FFF ==> r == c.data@[address as int]) && (
                0xA000 <= address <= 0xBFFF ==> r == c.ram@[address - 0xA000]),
            self.controller matches MbcKind::Mbc13(c) ==> (address <= 0x3FFF ==> r == c.data@[address as int]) && (
                0x4000 <= address <= 0x7FFF ==> r == c.data@[address + c.offset]) && (0xA000 <= address <= 0xBFFF
                ==> match c.ram_rtc {
                    RamRtc::RamBank(o) => r == c.ram@[address - 0xA000 + o],
                    RamRtc::RtcRegister(reg) => exists|elapsed: i64| r == rtc_value(elapsed, reg),
                }),
    {
        match &self.controller {
            MbcKind::Mbc0(c) => c.read(address),
            MbcKind::Mbc13(c) => c.read(address),
        }
    }

    pub fn write(&mut self, address: u16, v: u8)
        requires
            old(self).wf(),
            old(self).can_write(address, v),
        ensures
            final(self).wf(),
            old(self).controller is Mbc0 ==> *final(self) == *old(self),
            old(self).controller matches MbcKind::Mbc13(c) ==> (final(self).controller matches MbcKind::Mbc13(d) && mbc13_written(
                c, d, address, v)),
    {
        match &mut self.controller {
            MbcKind::Mbc0(c) => c.write(address, v),
            MbcKind::Mbc13(c) => c.write(address, v),
        }
    }

    /// Whether the controller answers a read of `address`.
    pub fn readable(&self, address: u16) -> (r: bool)
        ensures
            r == self.can_read(address),
    {
        match &self.controller {
            MbcKind::Mbc0(c) => c.readable(address),
            MbcKind::Mbc13(c) => c.readable(address),
        }
    }

    /// Whether the controller takes a write of `v` to `address`.
    pub fn writable(&self, address: u16, v: u8) -> (r: bool)
        ensures
            r == self.can_write(address, v),
    {
        match &self.controller {
            MbcKind::Mbc0(c) => c.writable(address, v),
            MbcKind::Mbc13(c) => c.writable(address, v),
        }
    }

    /// The cartridge RAM, for saving and loading it.
    pub fn ram(&mut self) -> (r: &mut [u8])
        ensures
            old(self).controller matches MbcKind::Mbc0(c) ==> r@ == c.ram@,
            old(self).controller matches MbcKind::Mbc13(c) ==> r@ == c.ram@,
    {
        match &mut self.controller {
            MbcKind::Mbc0(c) => c.ram(),
            MbcKind::Mbc13(c) => c.ram(),
        }
    }

    /// The time stamp of the clock, which only the MBC1/MBC3 controller has.
    pub fn rtc(&mut self) -> (r: Option<&mut i64>)
        ensures
            old(self).controller is Mbc0 ==> r is None,
            old(self).controller matches MbcKind::Mbc13(c) ==> (r matches Some(p) && *p == c.rtc),
    {
        match &mut self.controller {
            MbcKind::Mbc0(_) => None,
            MbcKind::Mbc13(c) => Some(c.rtc()),
        }
    }
}

/// The text of `bytes` when they are valid UTF-8, from std's `String::from_utf8`, which takes
/// the bytes as they are and fails exactly on invalid UTF-8.
#[verifier::external_body]
fn string_from_utf8(bytes: Vec<u8>) -> (r: Option<String>)
    ensures
        r is Some <==> vstd::utf8::valid_utf8(bytes@),
        r matches Some(s) ==> vstd::utf8::encode_utf8(s@) == bytes@,
{
    match String::from_utf8(bytes) {
        Ok(s) => Some(s),
        Err(_) => None,
    }
}

/// The bytes `start..end` of `data`.
fn copy_range(data: &[u8], start: usize, end: usize) -> (r: Vec<u8>)
    requires
        start <= end <= data@.len(),
    ensures
        r@ == data@.subrange(start as int, end as int),
{
    let mut r: Vec<u8> = Vec::new();
    let mut i = start;
    while i < end
        invariant
            start <= i <= end <= data@.len(),
            r@ == data@.subrange(start as int, i as int),
        decreases end - i,
    {
        r.push(data[i]);
        i = i + 1;
        assert(r@ =~= data@.subrange(start as int, i as int));
    }
    r
}

/// The ROM images that `Cartridge::from_data` takes: a header up to $014C with valid size bytes
/// and a supported controller, and for a banked controller a whole number of 16 KB banks.
pub open spec fn is_valid_rom(data: Seq<u8>) -> bool {
    &&& data.len() > 0x14C
    &&& is_rom_size_byte(data[0x148])
    &&& data[0x149] <= 0x04
    &&& is_supported_type(data[0x147])
    &&& data[0x147] != 0x00 ==> data.len() % (BANK_SIZE as nat) == 0
}

/// A cartridge: the data of its header and its memory bank controller.
pub struct Cartridge {
    pub startup_graphic: Vec<u8>,
    pub game_title: String,
    pub gb_color_game: bool,
    pub licence_code: u16,
    pub super_game_boy: bool,
    pub memory_controller: MemoryController,
    /// ROM size in banks.
    pub rom_size: usize,
    /// RAM size in kilobits.
    pub ram_size: usize,
    pub destination_code_jp: bool,
    pub mask_rom_version_number: u8,
}

impl Cartridge {
    pub open spec fn wf(&self) -> bool {
        self.memory_controller.wf()
    }

    /// Whether `data` is a ROM image that `from_data` takes.
    pub fn is_valid(data: &[u8]) -> (r: bool)
        ensures
            r == is_valid_rom(data@),
    {
        data.len() > 0x14C && (data[0x148] <= 0x06 || (data[0x148] >= 0x52 && data[0x148] <= 0x54))
            && data[0x149] <= 0x04 && (data[0x147] == 0x00 || (data[0x147] >= 0x01 && data[0x147] <= 0x03)
            || (data[0x147] >= 0x0F && data[0x147] <= 0x13)) && (data[0x147] == 0x00 || data.len() % BANK_SIZE == 0)
    }

    /// Reads the header of a ROM image and builds its controller: the logo ($0104-$0132), the
    /// title ($0134-$0141, "UNKNOWN" when it is not UTF-8), the color flag ($0143 = $80), the
    /// licence code ($0144-$0145), the Super Game Boy flag ($0146 = $03), the ROM and RAM sizes
    /// ($0148, $0149), the destination ($014A = 0 for Japan) and the version ($014C).
    pub fn from_data(data: &[u8]) -> (r: Cartridge)
        requires
            is_valid_rom(data@),
        ensures
            r.wf(),
            r.startup_graphic@ == data@.subrange(0x104, 0x133),
            vstd::utf8::valid_utf8(data@.subrange(0x134, 0x142)) ==> vstd::utf8::encode_utf8(r.game_title@)
                == data@.subrange(0x134, 0x142),
            !vstd::utf8::valid_utf8(data@.subrange(0x134, 0x142)) ==> r.game_title@ == "UNKNOWN"@,
            r.gb_color_game == (data@[0x143] == 0x80),
            r.licence_code == data@[0x144] * 256 + data@[0x145],
            r.super_game_boy == (data@[0x146] == 0x03),
            r.rom_size == rom_size_of(data@[0x148]),
            r.ram_size == ram_size_of(data@[0x149]),
            r.destination_code_jp == (data@[0x14A] == 0),
            r.mask_rom_version_number == data@[0x14C],
            data@[0x147] == 0x00 ==> (r.memory_controller.controller matches MbcKind::Mbc0(c) && c.data@ == data@),
            data@[0x147] != 0x00 ==> (r.memory_controller.controller matches MbcKind::Mbc13(c) && c.data@ == data@
                && c.mode == (if data@[0x147] <= 0x03 { MbcMode::Mbc1 } else { MbcMode::Mbc3 })),
    {
        let copy = copy_range(data, 0, data.len());
        assert(copy@ =~= data@);
        let title = match string_from_utf8(copy_range(data, 0x134, 0x142)) {
            Some(s) => s,
            None => String::from_str("UNKNOWN"),
        };
        let hi = data[0x144] as u16;
        proof {
            assert(hi << 8u16 == hi * 256) by (bit_vector) requires hi < 256;
        }

        Cartridge {
            startup_graphic: copy_range(data, 0x104, 0x133),
            game_title: title,
            gb_color_game: (data[0x143] == 0x80),
            licence_code: (hi << 8) + (data[0x145] as u16),
            super_game_boy: data[0x146] == 0x03,
            rom_size: get_rom_size(data[0x148]),
            ram_size: get_ram_size(data[0x149]),
            destination_code_jp: data[0x14A] == 0,
            mask_rom_version_number: data[0x14C],
            memory_controller: MemoryController::from_bytes(copy),
        }
    }

    /// What a read of `address` may give: the ROM or RAM byte there, or for a clock register
    /// its value at some time.
    pub open spec fn read_result(&self, address: u16, r: u8) -> bool {
        &&& self.memory_controller.controller matches MbcKind::Mbc0(c) ==> (address <= 0x7FFF ==> r == c.data@[address as int])
            && (0xA000 <= address <= 0xBFFF ==> r == c.ram@[address - 0xA000])
        &&& self.memory_controller.controller matches MbcKind::Mbc13(c) ==> (address <= 0x3FFF ==> r == c.data@[address as int])
            && (0x4000 <= address <= 0x7FFF ==> r == c.data@[address + c.offset]) && (0xA000 <= address <= 0xBFFF
            ==> match c.ram_rtc {
                RamRtc::RamBank(o) => r == c.ram@[address - 0xA000 + o],
                RamRtc::RtcRegister(reg) => exists|elapsed: i64| r == rtc_value(elapsed, reg),
            })
    }

    /// The reads that the cartridge answers.
    pub open spec fn can_read(&self, address: u16) -> bool {
        self.memory_controller.can_read(address)
    }

    /// The writes that the cartridge takes.
    pub open spec fn can_write(&self, address: u16, v: u8) -> bool {
        self.memory_controller.can_write(address, v)
    }

    /// Reads ROM ($0000-$7FFF) or cartridge RAM ($A000-$BFFF) through the controller.
    pub fn read(&self, address: u16) -> (r: u8)
        requires
            self.wf(),
            self.memory_controller.can_read(address),
        ensures
            self.read_result(address, r),
            self.memory_controller.controller matches MbcKind::Mbc0(c) ==> (address <= 0x7FFF ==> r == c.data@[address as int])
                && (0xA000 <= address <= 0xBFFF ==> r == c.ram@[address - 0xA000]),
            self.memory_controller.controller matches MbcKind::Mbc13(c) ==> (address <= 0x3FFF ==> r == c.data@[address as int])
                && (0x4000 <= address <= 0x7FFF ==> r == c.data@[address + c.offset]) && (0xA000 <= address <= 0xBFFF
                ==> match c.ram_rtc {
                    RamRtc::RamBank(o) => r == c.ram@[address - 0xA000 + o],
                    RamRtc::RtcRegister(reg) => exists|elapsed: i64| r == rtc_value(elapsed, reg),
                }),
    {
        self.memory_controller.read(address)
    }

    /// Writes a control register or cartridge RAM through the controller.
    pub fn write(&mut self, address: u16, v: u8)
        requires
            old(self).wf(),
            old(self).memory_controller.can_write(address, v),
        ensures
            final(self).wf(),
            *final(self) == (Cartridge { memory_controller: final(self).memory_controller, ..*old(self) }),
            old(self).memory_controller.controller is Mbc0 ==> final(self).memory_controller == old(self).memory_controller,
            old(self).memory_controller.controller matches MbcKind::Mbc13(c) ==> (final(self).memory_controller.controller
                matches MbcKind::Mbc13(d) && mbc13_written(c, d, address, v)),
    {
        self.memory_controller.write(address, v);
    }

    /// The cartridge RAM, for saving and loading it.
    pub fn ram(&mut self) -> (r: &mut [u8])
        ensures
            old(self).memory_controller.controller matches MbcKind::Mbc0(c) ==> r@ == c.ram@,
            old(self).memory_controller.controller matches MbcKind::Mbc13(c) ==> r@ == c.ram@,
    {
        self.memory_controller.ram()
    }

    /// The time stamp of the cartridge clock, if the controller has one.
    pub fn rtc(&mut self) -> (r: Option<&mut i64>)
        ensures
            old(self).memory_controller.controller is Mbc0 ==> r is None,
            old(self).memory_controller.controller matches MbcKind::Mbc13(c) ==> (r matches Some(p) && *p == c.rtc),
    {
        self.memory_controller.rtc()
    }
}

/// The boot program that runs before the cartridge: read-only bytes mapped from address 0.
pub struct BootRom {
    pub data: Vec<u8>,
}

impl BootRom {
    /// A boot ROM holding the given bytes.
    pub fn from_bytes(data: Vec<u8>) -> (r: BootRom)
        ensures
            r.data@ == data@,
    {
        BootRom { data }
    }

    /// Whether the boot ROM holds a byte at `address`.
    pub open spec fn can_read(&self, address: u16) -> bool {
        address < self.data@.len()
    }

    /// The byte of the boot ROM at `address`.
    pub fn read(&self, address: u16) -> (r: u8)
        requires
            self.can_read(address),
        ensures
            r == self.data@[address as int],
    {
        self.data[address as usize]
    }
}

} // verus!
