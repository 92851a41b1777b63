//! The audio processing unit: four sound channels, their registers ($FF10-$FF3F) and the
//! frame sequencer that clocks their length, envelope and sweep units.
//!
//! The channel and frame sequencer behaviour follows the description of the Game Boy sound
//! hardware on the gbdev wiki.

use vstd::prelude::*;
use crate::bitfield::{bit_of, field_of, lemma_field_bound, lemma_bit_reads};
use vstd::arithmetic::power2::pow2;

verus! {

/// Whether a sound output or the whole unit is on.
#[derive(PartialEq, Eq, Structural, Debug, Clone, Copy)]
pub enum SoundStatus {
    SoundOff,
    SoundOn,
}

impl SoundStatus {
    /// The number that stands for this value in its register.
    pub open spec fn spec_value(self) -> u8 {
        match self {
            SoundStatus::SoundOff => 0,
            SoundStatus::SoundOn => 1,
        }
    }

    /// The value that the number `v` stands for.
    #[verifier::spinoff_prover]
    pub fn from_u8(v: u8) -> (r: SoundStatus)
        requires
            v <= 1,
        ensures
            r.spec_value() == v,
    {
        match v {
            0 => SoundStatus::SoundOff,
            _ => SoundStatus::SoundOn,
        }
    }

    #[verifier::spinoff_prover]
    pub fn to_u8(&self) -> (r: u8)
        ensures
            r == self.spec_value(),
    {
        match self {
            SoundStatus::SoundOff => 0,
            SoundStatus::SoundOn => 1,
        }
    }
}

/// The duty cycle of a square wave channel.
#[derive(PartialEq, Eq, Structural, Debug, Clone, Copy)]
pub enum WavePattern {
    /// 12.5% duty cycle.
    C12,
    /// 25% duty cycle.
    C25,
    /// 50% duty cycle.
    C50,
    /// 75% duty cycle.
    C75,
}

impl WavePattern {
    /// The number that stands for this value in its register.
    pub open spec fn spec_value(self) -> u8 {
        match self {
            WavePattern::C12 => 0,
            WavePattern::C25 => 1,
            WavePattern::C50 => 2,
            WavePattern::C75 => 3,
        }
    }

    /// The value that the number `v` stands for.
    #[verifier::spinoff_prover]
    pub fn from_u8(v: u8) -> (r: WavePattern)
        requires
            v <= 3,
        ensures
            r.spec_value() == v,
    {
        match v {
            0 => WavePattern::C12,
            1 => WavePattern::C25,
            2 => WavePattern::C50,
            _ => WavePattern::C75,
        }
    }

    #[verifier::spinoff_prover]
    pub fn to_u8(&self) -> (r: u8)
        ensures
            r == self.spec_value(),
    {
        match self {
            WavePattern::C12 => 0,
            WavePattern::C25 => 1,
            WavePattern::C50 => 2,
            WavePattern::C75 => 3,
        }
    }
}

/// The volume of the wave channel.
#[derive(PartialEq, Eq, Structural, Debug, Clone, Copy)]
pub enum OutputLevel {
    Mute,
    /// The wave samples as they are.
    WavePattern,
    /// The wave samples shifted right once.
    RightShifted2,
    /// The wave samples shifted right twice.
    RightShifted4,
}

impl OutputLevel {
    /// The number that stands for this value in its register.
    pub open spec fn spec_value(self) -> u8 {
        match self {
            OutputLevel::Mute => 0,
            OutputLevel::WavePattern => 1,
            OutputLevel::RightShifted2 => 2,
            OutputLevel::RightShifted4 => 3,
        }
    }

    /// The value that the number `v` stands for.
    #[verifier::spinoff_prover]
    pub fn from_u8(v: u8) -> (r: OutputLevel)
        requires
            v <= 3,
        ensures
            r.spec_value() == v,
    {
        match v {
            0 => OutputLevel::Mute,
            1 => OutputLevel::WavePattern,
            2 => OutputLevel::RightShifted2,
            _ => OutputLevel::RightShifted4,
        }
    }

    #[verifier::spinoff_prover]
    pub fn to_u8(&self) -> (r: u8)
        ensures
            r == self.spec_value(),
    {
        match self {
            OutputLevel::Mute => 0,
            OutputLevel::WavePattern => 1,
            OutputLevel::RightShifted2 => 2,
            OutputLevel::RightShifted4 => 3,
        }
    }
}

/// The direction of a volume envelope.
#[derive(PartialEq, Eq, Structural, Debug, Clone, Copy)]
pub enum SweepDirection {
    Down,
    Up,
}

impl SweepDirection {
    /// The number that stands for this value in its register.
    pub open spec fn spec_value(self) -> u8 {
        match self {
            SweepDirection::Down => 0,
            SweepDirection::Up => 1,
        }
    }

    /// The value that the number `v` stands for.
    #[verifier::spinoff_prover]
    pub fn from_u8(v: u8) -> (r: SweepDirection)
        requires
            v <= 1,
        ensures
            r.spec_value() == v,
    {
        match v {
            0 => SweepDirection::Down,
            _ => SweepDirection::Up,
        }
    }

    #[verifier::spinoff_prover]
    pub fn to_u8(&self) -> (r: u8)
        ensures
            r == self.spec_value(),
    {
        match self {
            SweepDirection::Down => 0,
            SweepDirection::Up => 1,
        }
    }
}

/// The direction of the frequency sweep of channel 1.
#[derive(PartialEq, Eq, Structural, Debug, Clone, Copy)]
pub enum ToneSweepDirection {
    Up,
    Down,
}

impl ToneSweepDirection {
    /// The number that stands for this value in its register.
    pub open spec fn spec_value(self) -> u8 {
        match self {
            ToneSweepDirection::Up => 0,
            ToneSweepDirection::Down => 1,
        }
    }

    /// The value that the number `v` stands for.
    #[verifier::spinoff_prover]
    pub fn from_u8(v: u8) -> (r: ToneSweepDirection)
        requires
            v <= 1,
        ensures
            r.spec_value() == v,
    {
        match v {
            0 => ToneSweepDirection::Up,
            _ => ToneSweepDirection::Down,
        }
    }

    #[verifier::spinoff_prover]
    pub fn to_u8(&self) -> (r: u8)
        ensures
            r == self.spec_value(),
    {
        match self {
            ToneSweepDirection::Up => 0,
            ToneSweepDirection::Down => 1,
        }
    }
}

/// The width of the noise channel's shift register.
#[derive(PartialEq, Eq, Structural, Debug, Clone, Copy)]
pub enum NoisePattern {
    /// 15-bit noise register.
    C15,
    /// 7-bit noise register.
    C7,
}

impl NoisePattern {
    /// The number that stands for this value in its register.
    pub open spec fn spec_value(self) -> u8 {
        match self {
            NoisePattern::C15 => 0,
            NoisePattern::C7 => 1,
        }
    }

    /// The value that the number `v` stands for.
    #[verifier::spinoff_prover]
    pub fn from_u8(v: u8) -> (r: NoisePattern)
        requires
            v <= 1,
        ensures
            r.spec_value() == v,
    {
        match v {
            0 => NoisePattern::C15,
            _ => NoisePattern::C7,
        }
    }

    #[verifier::spinoff_prover]
    pub fn to_u8(&self) -> (r: u8)
        ensures
            r == self.spec_value(),
    {
        match self {
            NoisePattern::C15 => 0,
            NoisePattern::C7 => 1,
        }
    }
}

impl ToneSweepDirection {
    /// +1 for a sweep up, -1 for a sweep down.
    #[verifier::spinoff_prover]
    pub fn to_sign(self) -> (r: i64)
        ensures
            r == (if self == ToneSweepDirection::Down { -1int } else { 1int }),
    {
        match self {
            ToneSweepDirection::Down => -1,
            ToneSweepDirection::Up => 1,
        }
    }
}

/// The bits of register `address` ($FF10-$FF2F) that always read as one.
pub open spec fn sound_read_mask(address: u16) -> u8 {
    if address == 0xFF10 {
        0x80
    } else if address == 0xFF11 {
        0x3F
    } else if address == 0xFF12 {
        0x00
    } else if address == 0xFF13 {
        0xFF
    } else if address == 0xFF14 {
        0xBF
    } else if address == 0xFF15 {
        0xFF
    } else if address == 0xFF16 {
        0x3F
    } else if address == 0xFF17 {
        0x00
    } else if address == 0xFF18 {
        0xFF
    } else if address == 0xFF19 {
        0xBF
    } else if address == 0xFF1A {
        0x7F
    } else if address == 0xFF1B {
        0xFF
    } else if address == 0xFF1C {
        0x9F
    } else if address == 0xFF1D {
        0xFF
    } else if address == 0xFF1E {
        0xBF
    } else if address == 0xFF1F {
        0xFF
    } else if address == 0xFF20 {
        0xFF
    } else if address == 0xFF21 {
        0x00
    } else if address == 0xFF22 {
        0x00
    } else if address == 0xFF23 {
        0xBF
    } else if address == 0xFF24 {
        0x00
    } else if address == 0xFF25 {
        0x00
    } else if address == 0xFF26 {
        0x70
    } else if address == 0xFF27 {
        0xFF
    } else if address == 0xFF28 {
        0xFF
    } else if address == 0xFF29 {
        0xFF
    } else if address == 0xFF2A {
        0xFF
    } else if address == 0xFF2B {
        0xFF
    } else if address == 0xFF2C {
        0xFF
    } else if address == 0xFF2D {
        0xFF
    } else if address == 0xFF2E {
        0xFF
    } else if address == 0xFF2F {
        0xFF
    } else {
        0x00
    }
}

#[verifier::spinoff_prover]
fn read_mask(address: u16) -> (r: u8)
    requires
        0xFF10 <= address <= 0xFF2F,
    ensures
        r == sound_read_mask(address),
{
    match address {
        0xFF10 => 0x80,
        0xFF11 => 0x3F,
        0xFF12 => 0x00,
        0xFF13 => 0xFF,
        0xFF14 => 0xBF,
        0xFF15 => 0xFF,
        0xFF16 => 0x3F,
        0xFF17 => 0x00,
        0xFF18 => 0xFF,
        0xFF19 => 0xBF,
        0xFF1A => 0x7F,
        0xFF1B => 0xFF,
        0xFF1C => 0x9F,
        0xFF1D => 0xFF,
        0xFF1E => 0xBF,
        0xFF1F => 0xFF,
        0xFF20 => 0xFF,
        0xFF21 => 0x00,
        0xFF22 => 0x00,
        0xFF23 => 0xBF,
        0xFF24 => 0x00,
        0xFF25 => 0x00,
        0xFF26 => 0x70,
        0xFF27 => 0xFF,
        0xFF28 => 0xFF,
        0xFF29 => 0xFF,
        0xFF2A => 0xFF,
        0xFF2B => 0xFF,
        0xFF2C => 0xFF,
        0xFF2D => 0xFF,
        0xFF2E => 0xFF,
        0xFF2F => 0xFF,
        _ => 0x00,
    }
}

/// The value of register `address` ($FF10-$FF2F) in a register file that starts at $FF10.
pub open spec fn sound_reg(regs: Seq<u8>, address: u16) -> u8 {
    regs[address - 0xFF10]
}

/// The frequency divider of the noise channel from its polynomial register: 524288 Hz
/// divided by the ratio (a ratio of 0 counts as one half) and by 2 to the power of the shift
/// clock plus one. The quotient is exact in integers, so it equals the truncated result of
/// the same division done in floating point.
pub open spec fn noise_frequency(ratio: u8, shift: u8) -> u64 {
    if ratio == 0 {
        (1048576nat / pow2(shift as nat + 1)) as u64
    } else {
        (524288nat / (ratio as nat * pow2(shift as nat + 1))) as u64
    }
}


/// The register that holds the frequency (high bits), trigger and length enable of a line.
pub open spec fn nrx4_address(line: u8) -> u16 {
    if line == 1 { 0xFF14 } else if line == 2 { 0xFF19 } else if line == 3 { 0xFF1E } else { 0xFF23 }
}

/// The register that holds the volume envelope of a square or noise line.
pub open spec fn envelope_address(line: u8) -> u16 {
    if line == 1 { 0xFF12 } else if line == 2 { 0xFF17 } else { 0xFF21 }
}

/// Envelope period of a line (line 3 has no envelope).
pub open spec fn line_envelope_sweep(regs: Seq<u8>, line: u8) -> u8 {
    if line == 3 { 0 } else { field_of(sound_reg(regs, envelope_address(line)), 0, 0b111) }
}

/// Initial volume of a line; for line 3 the number of its output level.
pub open spec fn line_initial_volume(regs: Seq<u8>, line: u8) -> u8 {
    if line == 3 {
        field_of(sound_reg(regs, 0xFF1C), 5, 0b11)
    } else {
        field_of(sound_reg(regs, envelope_address(line)), 4, 0b1111)
    }
}

/// Envelope direction of a square or noise line.
pub open spec fn line_direction(regs: Seq<u8>, line: u8) -> SweepDirection {
    if bit_of(sound_reg(regs, envelope_address(line)), 3) == 1 { SweepDirection::Up } else { SweepDirection::Down }
}

/// The frequency of a line: the 11-bit frequency register of lines 1-3, the noise divider
/// of line 4.
pub open spec fn line_frequency(regs: Seq<u8>, line: u8) -> u64 {
    if line == 1 {
        (sound_reg(regs, 0xFF13) + field_of(sound_reg(regs, 0xFF14), 0, 0b111) * 256) as u64
    } else if line == 2 {
        (sound_reg(regs, 0xFF18) + field_of(sound_reg(regs, 0xFF19), 0, 0b111) * 256) as u64
    } else if line == 3 {
        (sound_reg(regs, 0xFF1D) + field_of(sound_reg(regs, 0xFF1E), 0, 0b111) * 256) as u64
    } else {
        noise_frequency(field_of(sound_reg(regs, 0xFF22), 0, 0b111), field_of(sound_reg(regs, 0xFF22), 4, 0b1111))
    }
}

/// Whether the length counter of a line is enabled (bit 6 of its NRx4 register).
pub open spec fn line_consecutive(regs: Seq<u8>, line: u8) -> bool {
    bit_of(sound_reg(regs, nrx4_address(line)), 6) == 1
}

/// Whether the DAC of a line is off: for line 3 when bit 7 of $FF1A is clear, for the others
/// when the initial volume is zero and the envelope goes down.
pub open spec fn line_dac_off(regs: Seq<u8>, line: u8) -> bool {
    if line == 3 {
        bit_of(sound_reg(regs, 0xFF1A), 7) == 0
    } else {
        line_initial_volume(regs, line) == 0 && line_direction(regs, line) == SweepDirection::Down
    }
}

/// Whether a line goes to the left output (SO1).
pub open spec fn line_to_left(regs: Seq<u8>, line: u8) -> bool {
    bit_of(sound_reg(regs, 0xFF25), (line - 1) as u8) == 1
}

/// Whether a line goes to the right output (SO2).
pub open spec fn line_to_right(regs: Seq<u8>, line: u8) -> bool {
    bit_of(sound_reg(regs, 0xFF25), (line + 3) as u8) == 1
}

/// An 11-bit frequency from its low byte and the register that holds its three high bits.
#[verifier::spinoff_prover]
fn frequency_11(low: u8, high: u8) -> (r: u64)
    ensures
        r == low + field_of(high, 0, 0b111) * 256,
        r < 2048,
{
    let h = (high & 0b00000111) as u64;
    proof {
        crate::bitfield::lemma_field_reads();
        lemma_field_bound();
        assert(h << 8u64 == h * 256) by (bit_vector) requires h <= 7;
    }
    low as u64 + (h << 8u64)
}

/// The sound registers $FF10-$FF2F.
pub struct SoundMemoryMapper {
    regs: Vec<u8>,
}

impl View for SoundMemoryMapper {
    type V = Seq<u8>;

    closed spec fn view(&self) -> Seq<u8> {
        self.regs@
    }
}

impl SoundMemoryMapper {
    pub open spec fn wf(&self) -> bool {
        self@.len() == 32
    }

    /// All registers zero except $FF23 ($BF) and $FF25 ($F3).
    #[verifier::spinoff_prover]
    pub fn new() -> (r: SoundMemoryMapper)
        ensures
            r.wf(),
            forall|a: u16| 0xFF10 <= a <= 0xFF2F ==> sound_reg(r@, a) == (if a == 0xFF23 { 0xBFu8 }
                else if a == 0xFF25 { 0xF3u8 } else { 0u8 }),
    {
        let mut regs = vec![0u8; 32];
        regs.set(0x13, 0xBF);
        regs.set(0x15, 0xF3);
        SoundMemoryMapper { regs }
    }

    /// The raw value of register `address`.
    #[verifier::spinoff_prover]
    pub fn reg(&self, address: u16) -> (r: u8)
        requires
            self.wf(),
            0xFF10 <= address <= 0xFF2F,
        ensures
            r == sound_reg(self@, address),
    {
        self.regs[(address - 0xFF10) as usize]
    }

    /// Reads register `address`: its value with the unreadable bits set.
    #[verifier::spinoff_prover]
    pub fn read(&self, address: u16) -> (r: u8)
        requires
            self.wf(),
            0xFF10 <= address <= 0xFF2F,
        ensures
            r == sound_reg(self@, address) | sound_read_mask(address),
    {
        self.reg(address) | read_mask(address)
    }

    /// Writes register `address`.
    #[verifier::spinoff_prover]
    pub fn write(&mut self, address: u16, v: u8)
        requires
            old(self).wf(),
            0xFF10 <= address <= 0xFF2F,
        ensures
            final(self)@ == old(self)@.update(address - 0xFF10, v),
            final(self).wf(),
    {
        self.regs.set((address - 0xFF10) as usize, v);
    }

    #[verifier::spinoff_prover]
    pub fn sound_1_sweep_shift(&self) -> (r: u8)
        requires
            self.wf(),
        ensures
            r == field_of(sound_reg(self@, 0xFF10), 0, 0b111),
            r <= 7,
    {
        proof { lemma_field_bound(); crate::bitfield::lemma_field_reads(); }
        self.reg(0xFF10) & 0b00000111
    }

    #[verifier::spinoff_prover]
    pub fn sound_1_sweep_direction(&self) -> (r: ToneSweepDirection)
        requires
            self.wf(),
        ensures
            r.spec_value() == bit_of(sound_reg(self@, 0xFF10), 3),
    {
        proof { lemma_bit_reads(); }
        ToneSweepDirection::from_u8(if self.reg(0xFF10) & 0b00001000 > 0 { 1 } else { 0 })
    }

    #[verifier::spinoff_prover]
    pub fn sound_1_sweep_period(&self) -> (r: u8)
        requires
            self.wf(),
        ensures
            r == field_of(sound_reg(self@, 0xFF10), 4, 0b111),
            r <= 7,
    {
        proof { lemma_field_bound(); crate::bitfield::lemma_field_reads(); }
        (self.reg(0xFF10) & 0b01110000) >> 4
    }

    #[verifier::spinoff_prover]
    pub fn sound_1_length(&self) -> (r: u8)
        requires
            self.wf(),
        ensures
            r == field_of(sound_reg(self@, 0xFF11), 0, 0b111111),
            r <= 63,
    {
        proof { lemma_field_bound(); crate::bitfield::lemma_field_reads(); }
        self.reg(0xFF11) & 0b00111111
    }

    #[verifier::spinoff_prover]
    pub fn sound_1_pattern(&self) -> (r: WavePattern)
        requires
            self.wf(),
        ensures
            r.spec_value() == field_of(sound_reg(self@, 0xFF11), 6, 0b11),
    {
        proof { lemma_field_bound(); crate::bitfield::lemma_field_reads(); }
        WavePattern::from_u8((self.reg(0xFF11) & 0b11000000) >> 6)
    }

    #[verifier::spinoff_prover]
    pub fn sound_2_length(&self) -> (r: u8)
        requires
            self.wf(),
        ensures
            r == field_of(sound_reg(self@, 0xFF16), 0, 0b111111),
            r <= 63,
    {
        proof { lemma_field_bound(); crate::bitfield::lemma_field_reads(); }
        self.reg(0xFF16) & 0b00111111
    }

    #[verifier::spinoff_prover]
    pub fn sound_2_pattern(&self) -> (r: WavePattern)
        requires
            self.wf(),
        ensures
            r.spec_value() == field_of(sound_reg(self@, 0xFF16), 6, 0b11),
    {
        proof { lemma_field_bound(); crate::bitfield::lemma_field_reads(); }
        WavePattern::from_u8((self.reg(0xFF16) & 0b11000000) >> 6)
    }

    #[verifier::spinoff_prover]
    pub fn sound_3_output_level(&self) -> (r: OutputLevel)
        requires
            self.wf(),
        ensures
            r.spec_value() == field_of(sound_reg(self@, 0xFF1C), 5, 0b11),
    {
        proof { lemma_field_bound(); crate::bitfield::lemma_field_reads(); }
        OutputLevel::from_u8((self.reg(0xFF1C) & 0b01100000) >> 5)
    }

    #[verifier::spinoff_prover]
    pub fn sound_4_length(&self) -> (r: u8)
        requires
            self.wf(),
        ensures
            r == field_of(sound_reg(self@, 0xFF20), 0, 0b111111),
            r <= 63,
    {
        proof { lemma_field_bound(); crate::bitfield::lemma_field_reads(); }
        self.reg(0xFF20) & 0b00111111
    }

    #[verifier::spinoff_prover]
    pub fn sound_4_step(&self) -> (r: NoisePattern)
        requires
            self.wf(),
        ensures
            r.spec_value() == bit_of(sound_reg(self@, 0xFF22), 3),
    {
        proof { lemma_bit_reads(); }
        NoisePattern::from_u8(if self.reg(0xFF22) & 0b00001000 > 0 { 1 } else { 0 })
    }

    #[verifier::spinoff_prover]
    pub fn master_status(&self) -> (r: SoundStatus)
        requires
            self.wf(),
        ensures
            r.spec_value() == bit_of(sound_reg(self@, 0xFF26), 7),
    {
        proof { lemma_bit_reads(); }
        SoundStatus::from_u8(if self.reg(0xFF26) & 0b10000000 > 0 { 1 } else { 0 })
    }

    /// Sets bit 7 of $FF26 to the given status.
    #[verifier::spinoff_prover]
    pub fn set_master_status(&mut self, status: SoundStatus)
        requires
            old(self).wf(),
        ensures
            final(self).wf(),
            final(self)@ == old(self)@.update(0xFF26 - 0xFF10, crate::bitfield::with_bit(
                sound_reg(old(self)@, 0xFF26), 7, status.spec_value() == 1)),
    {
        proof { crate::bitfield::lemma_bit_masks(); }
        let v = self.reg(0xFF26);
        let new_v = if status.to_u8() == 1 { v | 0b10000000 } else { v & 0b01111111 };
        self.write(0xFF26, new_v);
    }

    /// Envelope period of a line (line 3 has no envelope).
    #[verifier::spinoff_prover]
    pub fn envelope_sweep(&self, line: u8) -> (r: u8)
        requires
            self.wf(),
            1 <= line <= 4,
        ensures
            r == line_envelope_sweep(self@, line),
            r <= 7,
    {
        proof { lemma_field_bound(); crate::bitfield::lemma_field_reads(); }
        match line {
            1 => self.reg(0xFF12) & 0b00000111,
            2 => self.reg(0xFF17) & 0b00000111,
            3 => 0,
            _ => self.reg(0xFF21) & 0b00000111,
        }
    }

    /// Envelope direction of a square or noise line.
    #[verifier::spinoff_prover]
    pub fn direction(&self, line: u8) -> (r: SweepDirection)
        requires
            self.wf(),
            line == 1 || line == 2 || line == 4,
        ensures
            r == line_direction(self@, line),
    {
        proof { lemma_bit_reads(); }
        let v = match line {
            1 => self.reg(0xFF12),
            2 => self.reg(0xFF17),
            _ => self.reg(0xFF21),
        };
        if v & 0b00001000 > 0 { SweepDirection::Up } else { SweepDirection::Down }
    }

    /// Initial volume of a line; for line 3 the number of its output level.
    #[verifier::spinoff_prover]
    pub fn initial_volume(&self, line: u8) -> (r: u8)
        requires
            self.wf(),
            1 <= line <= 4,
        ensures
            r == line_initial_volume(self@, line),
            r <= 15,
            line == 3 ==> r <= 3,
    {
        proof { lemma_field_bound(); crate::bitfield::lemma_field_reads(); }
        match line {
            1 => (self.reg(0xFF12) & 0b11110000) >> 4,
            2 => (self.reg(0xFF17) & 0b11110000) >> 4,
            3 => self.sound_3_output_level().to_u8(),
            _ => (self.reg(0xFF21) & 0b11110000) >> 4,
        }
    }

    /// The frequency of a line.
    #[verifier::spinoff_prover]
    pub fn frequency(&self, line: u8) -> (r: u64)
        requires
            self.wf(),
            1 <= line <= 4,
        ensures
            r == line_frequency(self@, line),
            line != 4 ==> r < 2048,
    {
        proof { lemma_field_bound(); crate::bitfield::lemma_field_reads(); }
        match line {
            1 => frequency_11(self.reg(0xFF13), self.reg(0xFF14)),
            2 => frequency_11(self.reg(0xFF18), self.reg(0xFF19)),
            3 => frequency_11(self.reg(0xFF1D), self.reg(0xFF1E)),
            _ => {
                let ratio = self.reg(0xFF22) & 0b00000111;
                let shift = (self.reg(0xFF22) & 0b11110000) >> 4;
                let sh: u64 = shift as u64 + 1;
                proof {
                    vstd::arithmetic::power2::lemma2_to64();
                    if shift < 15 {
                        vstd::arithmetic::power2::lemma_pow2_strictly_increases(shift as nat + 1, 16);
                    }
                    vstd::bits::lemma_u64_shr_is_div(1048576u64, sh);
                    vstd::arithmetic::power2::lemma_pow2_pos(shift as nat + 1);
                    vstd::arithmetic::mul::lemma_mul_upper_bound(ratio as int, 7, pow2(shift as nat + 1) as int, 65536);
                    vstd::bits::lemma_u64_shl_is_mul(ratio as u64, sh);
                }
                if ratio > 0 {
                    proof {
                        vstd::arithmetic::mul::lemma_mul_strictly_positive(ratio as int, pow2(sh as nat) as int);
                    }
                    524288u64 / ((ratio as u64) << sh)
                } else {
                    1048576u64 >> sh
                }
            },
        }
    }

    /// Stores a new frequency for line 1: the low byte goes to $FF13 and bits 0-2 of $FF14
    /// get the low three bits of `frequency` (the shift is applied after the mask).
    #[verifier::spinoff_prover]
    pub fn set_frequency(&mut self, frequency: u64)
        requires
            old(self).wf(),
        ensures
            final(self).wf(),
            final(self)@ == old(self)@.update(0x03, (frequency & 0xFF) as u8).update(0x04,
                (crate::bitfield::outside_field(sound_reg(old(self)@, 0xFF14), 0, 0b111) + (frequency & 0b111)) as u8),
    {
        let low = (frequency & 0xFF) as u8;
        let high = (frequency & 0x700 >> 8) as u8;
        proof {
            assert(0x700u64 >> 8u64 == 7) by (bit_vector);
            assert(frequency & 7 <= 7) by (bit_vector);
        }
        self.write(0xFF13, low);
        let mut reg = crate::bitfield::Bitfield::new(self.reg(0xFF14));
        reg.set_012(high);
        self.write(0xFF14, reg.get());
    }

    /// Whether the length counter of a line is enabled.
    #[verifier::spinoff_prover]
    pub fn consecutive(&self, line: u8) -> (r: bool)
        requires
            self.wf(),
            1 <= line <= 4,
        ensures
            r == line_consecutive(self@, line),
    {
        proof { lemma_bit_reads(); }
        let v = match line {
            1 => self.reg(0xFF14),
            2 => self.reg(0xFF19),
            3 => self.reg(0xFF1E),
            _ => self.reg(0xFF23),
        };
        v & 0b01000000 > 0
    }

    /// Whether the DAC of a line is off.
    #[verifier::spinoff_prover]
    pub fn dac_off(&self, line: u8) -> (r: bool)
        requires
            self.wf(),
            1 <= line <= 4,
        ensures
            r == line_dac_off(self@, line),
    {
        proof { lemma_bit_reads(); }
        if line == 3 {
            !(self.reg(0xFF1A) & 0b10000000 > 0)
        } else {
            self.initial_volume(line) == 0 && self.direction(line) == SweepDirection::Down
        }
    }

    /// Whether a line is routed to the left output (SO1).
    #[verifier::spinoff_prover]
    pub fn playing_left(&self, line: u8) -> (r: bool)
        requires
            self.wf(),
            1 <= line <= 4,
        ensures
            r == line_to_left(self@, line),
    {
        proof { lemma_bit_reads(); }
        let v = self.reg(0xFF25);
        match line {
            1 => v & 0b00000001 > 0,
            2 => v & 0b00000010 > 0,
            3 => v & 0b00000100 > 0,
            _ => v & 0b00001000 > 0,
        }
    }

    /// Whether a line is routed to the right output (SO2).
    #[verifier::spinoff_prover]
    pub fn playing_right(&self, line: u8) -> (r: bool)
        requires
            self.wf(),
            1 <= line <= 4,
        ensures
            r == line_to_right(self@, line),
    {
        proof { lemma_bit_reads(); }
        let v = self.reg(0xFF25);
        match line {
            1 => v & 0b00010000 > 0,
            2 => v & 0b00100000 > 0,
            3 => v & 0b01000000 > 0,
            _ => v & 0b10000000 > 0,
        }
    }
}

/// What the frame sequencer clocks on one of its steps.
#[derive(PartialEq, Eq, Structural, Debug, Clone, Copy)]
pub enum SequencerEvent {
    Length,
    LengthSweep,
    Volume,
}

/// The event of a step of the frame sequencer:
///
/// ```text
/// Step   Length Ctr  Vol Env     Sweep
/// ---------------------------------------
/// 0      Clock       -           -
/// 1      -           -           -
/// 2      Clock       -           Clock
/// 3      -           -           -
/// 4      Clock       -           -
/// 5      -           -           -
/// 6      Clock       -           Clock
/// 7      -           Clock       -
/// ```
pub open spec fn event_of_step(step: u8) -> Option<SequencerEvent> {
    if step == 0 || step == 4 {
        Some(SequencerEvent::Length)
    } else if step == 2 || step == 6 {
        Some(SequencerEvent::LengthSweep)
    } else if step == 7 {
        Some(SequencerEvent::Volume)
    } else {
        None
    }
}

/// Number of clock cycles between two steps of the frame sequencer (512 Hz).
pub const FRAME_SEQUENCER_PERIOD: i64 = 8192;

/// The 512 Hz frame sequencer that clocks the length counters, the volume envelopes and the
/// frequency sweep.
pub struct FrameSequencer {
    pub cycles: i64,
    pub step: u8,
}

impl FrameSequencer {
    pub open spec fn wf(&self) -> bool {
        &&& 0 < self.cycles <= FRAME_SEQUENCER_PERIOD
        &&& self.cycles % 4 == 0
        &&& self.step < 8
    }

    #[verifier::spinoff_prover]
    pub fn new() -> (r: FrameSequencer)
        ensures
            r.wf(),
            r.cycles == FRAME_SEQUENCER_PERIOD,
            r.step == 0,
    {
        let mut s = FrameSequencer { cycles: 0, step: 0 };

        s.reset();
        s
    }

    /// Restarts the sequencer at step 0 with a full period to go.
    #[verifier::spinoff_prover]
    pub fn reset(&mut self)
        ensures
            final(self).wf(),
            final(self).cycles == FRAME_SEQUENCER_PERIOD,
            final(self).step == 0,
    {
        self.cycles = 8192;
        self.step = 0;
    }

    #[verifier::spinoff_prover]
    fn next_event(&self) -> (r: Option<SequencerEvent>)
        requires
            self.step < 8,
        ensures
            r == event_of_step(self.step),
    {
        match self.step {
            0 => Some(SequencerEvent::Length),
            1 => None,
            2 => Some(SequencerEvent::LengthSweep),
            3 => None,
            4 => Some(SequencerEvent::Length),
            5 => None,
            6 => Some(SequencerEvent::LengthSweep),
            _ => Some(SequencerEvent::Volume),
        }
    }

    /// Whether the next step clocks the length counters (steps 0, 2, 4 and 6); when it does
    /// not, enabling a length counter clocks it once more.
    #[verifier::spinoff_prover]
    pub fn next_step_clocks_length(&self) -> (r: bool)
        requires
            self.wf(),
        ensures
            r == (self.step == 0 || self.step == 2 || self.step == 4 || self.step == 6),
    {
        match self.next_event() {
            Some(SequencerEvent::Length) => true,
            Some(SequencerEvent::LengthSweep) => true,
            _ => false,
        }
    }

    /// One step of the CPU: when the period runs out, the current step's event is given and
    /// the sequencer moves to the next step with a new period.
    #[verifier::spinoff_prover]
    pub fn cpu_step(&mut self) -> (r: Option<SequencerEvent>)
        requires
            old(self).wf(),
        ensures
            final(self).wf(),
            old(self).cycles > 4 ==> r == None::<SequencerEvent> && final(self).step == old(self).step
                && final(self).cycles == old(self).cycles - 4,
            old(self).cycles == 4 ==> r == event_of_step(old(self).step) && final(self).step == (old(self).step
                + 1) % 8 && final(self).cycles == FRAME_SEQUENCER_PERIOD,
            sequencer_stepped(*old(self), r, *final(self)),
    {
        self.cycles -= crate::timer::CYCLES_PER_STEP as i64;

        if self.cycles != 0 {
            return None;
        }

        let event = self.next_event();

        self.cycles += 8192;
        self.step = (self.step + 1) % 8;

        event
    }

    /// Runs the sequencer for `cycles` clock cycles at once: when its period runs out the
    /// current step's event is given and the sequencer moves to the next step, with a new
    /// period added to what is left (which may still be negative after a long run).
    #[verifier::spinoff_prover]
    pub fn add_cycles(&mut self, cycles: usize) -> (r: Option<SequencerEvent>)
        requires
            old(self).step < 8,
            cycles <= i64::MAX,
            old(self).cycles - cycles >= i64::MIN,
        ensures
            old(self).cycles - cycles > 0 ==> r == None::<SequencerEvent> && final(self).step == old(self).step
                && final(self).cycles == old(self).cycles - cycles,
            old(self).cycles - cycles <= 0 ==> r == event_of_step(old(self).step) && final(self).step == (old(self).step
                + 1) % 8 && final(self).cycles == old(self).cycles - cycles + FRAME_SEQUENCER_PERIOD,
    {
        self.cycles = self.cycles - cycles as i64;

        if self.cycles > 0 {
            return None;
        }

        let event = self.next_event();

        self.cycles = self.cycles + 8192;
        self.step = (self.step + 1) % 8;

        event
    }
}

/// The part of a channel's state that depends on its kind.
pub trait ChannelSound: Sized {
    /// The largest volume that the channel stores.
    spec fn volume_limit() -> u8;

    /// The length counter's start value.
    spec fn spec_default_length() -> i64;

    spec fn inv(&self) -> bool;

    spec fn spec_volume(&self) -> u8;

    fn volume(&self) -> (r: u8)
        requires
            self.inv(),
        ensures
            r == self.spec_volume(),
            r <= Self::volume_limit(),
            Self::volume_limit() <= 15;

    fn set_volume(&mut self, v: u8)
        requires
            old(self).inv(),
            v <= Self::volume_limit(),
        ensures
            final(self).inv(),
            final(self).spec_volume() == v,
            forall|regs: Seq<u8>| final(self).vetoes_trigger(regs) == old(self).vetoes_trigger(regs);

    fn default_length(&self) -> (r: i64)
        ensures
            r == Self::spec_default_length(),
            r == 64 || r == 256;

    /// The channel-specific part of turning the channel off.
    fn turn_off_sound(&mut self)
        requires
            old(self).inv(),
        ensures
            final(self).inv(),
            final(self).spec_volume() == old(self).spec_volume();

    /// Whether the channel-specific part of a trigger event, under these registers, switches
    /// the channel off.
    spec fn vetoes_trigger(&self, regs: Seq<u8>) -> bool;

    /// The channel-specific part of a trigger event; tells whether the channel stays on.
    fn trigger(&mut self, mapper: &mut SoundMemoryMapper) -> (keep: bool)
        requires
            old(self).inv(),
            old(mapper).wf(),
        ensures
            keep == !old(self).vetoes_trigger(old(mapper)@),
            final(self).inv(),
            final(mapper).wf(),
            final(self).spec_volume() == old(self).spec_volume(),
            *final(mapper) == *old(mapper);
}

/// The state of the frequency sweep of channel 1.
pub struct Sweep {
    pub counter: i64,
    pub enabled: bool,
    pub shift: i64,
    /// A down-sweep has been computed since the last trigger; switching the sweep direction
    /// back to up then turns the channel off at once.
    pub down_computed_since_reset: bool,
}

/// Channel 1: square wave with volume envelope and frequency sweep.
pub struct SweepWaveDuty {
    pub volume: u8,
    pub wave_duty: WavePattern,
    pub shadow_frequency: u64,
    pub sweep: Sweep,
}

/// Channel 2: square wave with volume envelope.
pub struct WaveDuty {
    pub volume: u8,
    pub wave_duty: WavePattern,
}

/// Channel 4: noise with volume envelope.
pub struct Noise {
    pub pattern: NoisePattern,
    pub volume: u8,
}

/// Channel 3: a programmable wave of 32 four-bit samples.
pub struct Wave {
    pub wave_pattern: Vec<u8>,
    pub volume: OutputLevel,
}

impl ChannelSound for SweepWaveDuty {
    open spec fn volume_limit() -> u8 { 15 }

    open spec fn spec_default_length() -> i64 { 64 }

    open spec fn inv(&self) -> bool {
        &&& self.volume <= 15
        &&& self.shadow_frequency < 2048
        &&& 0 <= self.sweep.shift <= 7
        &&& 0 <= self.sweep.counter <= 8
    }

    open spec fn spec_volume(&self) -> u8 { self.volume }

    #[verifier::spinoff_prover]
    fn volume(&self) -> (r: u8) { self.volume }

    #[verifier::spinoff_prover]
    fn set_volume(&mut self, v: u8) { self.volume = v; }

    #[verifier::spinoff_prover]
    fn default_length(&self) -> (r: i64) { 64 }

    #[verifier::spinoff_prover]
    fn turn_off_sound(&mut self)
        ensures
            !final(self).sweep.down_computed_since_reset,
            final(self).shadow_frequency == old(self).shadow_frequency,
            final(self).volume == old(self).volume,
            final(self).wave_duty == old(self).wave_duty,
            final(self).sweep.shift == old(self).sweep.shift,
            final(self).sweep.counter == old(self).sweep.counter,
            final(self).sweep.enabled == old(self).sweep.enabled,
    {
        self.sweep.down_computed_since_reset = false;
    }

    /// With a non-zero sweep shift, the first sweep computation must stay below 2048.
    open spec fn vetoes_trigger(&self, regs: Seq<u8>) -> bool {
        self.sweep.shift > 0 && spec_swept_frequency(line_frequency(regs, 1), self.sweep.shift,
            if bit_of(sound_reg(regs, 0xFF10), 3) == 1 { ToneSweepDirection::Down } else { ToneSweepDirection::Up }) >= 2048
    }

    #[verifier::spinoff_prover]
    fn trigger(&mut self, mapper: &mut SoundMemoryMapper) -> (keep: bool) {
        proof { lemma_field_bound(); }
        self.shadow_frequency = mapper.frequency(1);

        let period = mapper.sound_1_sweep_period() as i64;
        self.sweep.counter = if period > 0 { period } else { 8 };
        self.sweep.enabled = period > 0 || self.sweep.shift > 0;
        self.sweep.down_computed_since_reset = false;

        if self.sweep.shift > 0 {
            if mapper.sound_1_sweep_direction() == ToneSweepDirection::Down {
                self.sweep.down_computed_since_reset = true;
            }
            let new_frequency = swept_frequency(self.shadow_frequency, self.sweep.shift,
                mapper.sound_1_sweep_direction());
            if new_frequency >= 2048 {
                return false;
            }
        }
        true
    }
}

/// The frequency after one sweep computation: the shadow frequency plus or minus itself
/// shifted right by the sweep shift.
pub open spec fn spec_swept_frequency(shadow: u64, shift: i64, direction: ToneSweepDirection) -> int {
    if direction == ToneSweepDirection::Down {
        shadow - (shadow as nat / pow2(shift as nat))
    } else {
        shadow + (shadow as nat / pow2(shift as nat))
    }
}

#[verifier::spinoff_prover]
fn swept_frequency(shadow: u64, shift: i64, direction: ToneSweepDirection) -> (r: u64)
    requires
        shadow < 2048,
        0 <= shift <= 7,
    ensures
        r == spec_swept_frequency(shadow, shift, direction),
{
    let sh: u64 = shift as u64;
    let operand = shadow >> sh;
    proof {
        vstd::bits::lemma_u64_shr_is_div(shadow, sh);
        assert(shadow >> sh <= shadow) by (bit_vector);
    }
    match direction {
        ToneSweepDirection::Down => shadow - operand,
        ToneSweepDirection::Up => shadow + operand,
    }
}

impl ChannelSound for WaveDuty {
    open spec fn vetoes_trigger(&self, regs: Seq<u8>) -> bool { false }

    open spec fn volume_limit() -> u8 { 15 }

    open spec fn spec_default_length() -> i64 { 64 }

    open spec fn inv(&self) -> bool { self.volume <= 15 }

    open spec fn spec_volume(&self) -> u8 { self.volume }

    #[verifier::spinoff_prover]
    fn volume(&self) -> (r: u8) { self.volume }

    #[verifier::spinoff_prover]
    fn set_volume(&mut self, v: u8) { self.volume = v; }

    #[verifier::spinoff_prover]
    fn default_length(&self) -> (r: i64) { 64 }

    #[verifier::spinoff_prover]
    fn turn_off_sound(&mut self) {}

    #[verifier::spinoff_prover]
    fn trigger(&mut self, mapper: &mut SoundMemoryMapper) -> (keep: bool)
        ensures
            keep,
    {
        true
    }
}

impl ChannelSound for Noise {
    open spec fn vetoes_trigger(&self, regs: Seq<u8>) -> bool { false }

    open spec fn volume_limit() -> u8 { 15 }

    open spec fn spec_default_length() -> i64 { 64 }

    open spec fn inv(&self) -> bool { self.volume <= 15 }

    open spec fn spec_volume(&self) -> u8 { self.volume }

    #[verifier::spinoff_prover]
    fn volume(&self) -> (r: u8) { self.volume }

    #[verifier::spinoff_prover]
    fn set_volume(&mut self, v: u8) { self.volume = v; }

    #[verifier::spinoff_prover]
    fn default_length(&self) -> (r: i64) { 64 }

    #[verifier::spinoff_prover]
    fn turn_off_sound(&mut self) {}

    #[verifier::spinoff_prover]
    fn trigger(&mut self, mapper: &mut SoundMemoryMapper) -> (keep: bool)
        ensures
            keep,
    {
        true
    }
}

impl ChannelSound for Wave {
    open spec fn vetoes_trigger(&self, regs: Seq<u8>) -> bool { false }

    open spec fn volume_limit() -> u8 { 3 }

    open spec fn spec_default_length() -> i64 { 256 }

    open spec fn inv(&self) -> bool { self.wave_pattern@.len() == 16 }

    open spec fn spec_volume(&self) -> u8 { self.volume.spec_value() }

    #[verifier::spinoff_prover]
    fn volume(&self) -> (r: u8) { self.volume.to_u8() }

    #[verifier::spinoff_prover]
    fn set_volume(&mut self, v: u8) { self.volume = OutputLevel::from_u8(v); }

    #[verifier::spinoff_prover]
    fn default_length(&self) -> (r: i64) { 256 }

    #[verifier::spinoff_prover]
    fn turn_off_sound(&mut self) {}

    #[verifier::spinoff_prover]
    fn trigger(&mut self, mapper: &mut SoundMemoryMapper) -> (keep: bool)
        ensures
            keep,
    {
        true
    }
}

/// One sound channel: the state shared by all kinds of channels, and `sound`, the part
/// specific to its kind.
pub struct AudioLine<T> {
    /// The channel's number, 1 to 4.
    pub id: usize,
    pub frequency: u64,
    pub playing_left: bool,
    pub playing_right: bool,
    pub on: bool,
    /// The length counter.
    pub counter: i64,
    pub envelope_counter: i64,
    pub sound: T,
}

/// The channel is off and plays on neither output.
pub open spec fn is_off<T>(l: AudioLine<T>) -> bool {
    !l.on && !l.playing_left && !l.playing_right
}

/// The state shared by all channels is the same in both, except possibly for the given
/// changes.
pub open spec fn same_common<T>(a: AudioLine<T>, b: AudioLine<T>) -> bool {
    &&& a.id == b.id
    &&& a.frequency == b.frequency
    &&& a.playing_left == b.playing_left
    &&& a.playing_right == b.playing_right
    &&& a.on == b.on
    &&& a.counter == b.counter
    &&& a.envelope_counter == b.envelope_counter
}

impl<T: ChannelSound> AudioLine<T> {
    pub open spec fn inv(&self) -> bool {
        &&& 0 <= self.counter <= 256
        &&& 0 <= self.envelope_counter <= 7
        &&& self.sound.inv()
    }

    #[verifier::spinoff_prover]
    pub fn new(id: usize, sound: T) -> (r: AudioLine<T>)
        requires
            sound.inv(),
        ensures
            r.inv(),
            r.id == id,
            r.frequency == 0,
            is_off(r),
            r.counter == 0,
            r.envelope_counter == 0,
            r.sound == sound,
    {
        AudioLine {
            id: id,
            frequency: 0,
            playing_left: false,
            playing_right: false,
            on: false,
            counter: 0,
            envelope_counter: 0,
            sound: sound,
        }
    }

    /// Switches the channel off and disconnects it from both outputs.
    #[verifier::spinoff_prover]
    pub fn turn_off_base(&mut self)
        ensures
            is_off(*final(self)),
            final(self).id == old(self).id,
            final(self).frequency == old(self).frequency,
            final(self).counter == old(self).counter,
            final(self).envelope_counter == old(self).envelope_counter,
            final(self).sound == old(self).sound,
    {
        self.on = false;
        self.playing_left = false;
        self.playing_right = false;
    }

    /// Switches the channel off, including its kind-specific state.
    #[verifier::spinoff_prover]
    pub fn turn_off(&mut self)
        requires
            old(self).inv(),
        ensures
            final(self).inv(),
            is_off(*final(self)),
            final(self).id == old(self).id,
            final(self).frequency == old(self).frequency,
            final(self).counter == old(self).counter,
            final(self).envelope_counter == old(self).envelope_counter,
            final(self).sound.spec_volume() == old(self).sound.spec_volume(),
    {
        self.turn_off_base();
        self.sound.turn_off_sound();
    }
}

/// The channel plays on an output only while it is on and routed there.
#[verifier::spinoff_prover]
pub fn update_playing<T: ChannelSound>(mapper: &SoundMemoryMapper, line: u8, sound: &mut AudioLine<T>)
    requires
        mapper.wf(),
        1 <= line <= 4,
    ensures
        final(sound).playing_left == (old(sound).on && line_to_left(mapper@, line)),
        final(sound).playing_right == (old(sound).on && line_to_right(mapper@, line)),
        final(sound).on == old(sound).on,
        final(sound).counter == old(sound).counter,
        final(sound).envelope_counter == old(sound).envelope_counter,
        final(sound).frequency == old(sound).frequency,
        final(sound).id == old(sound).id,
        final(sound).sound == old(sound).sound,
{
    sound.playing_left = sound.on && mapper.playing_left(line);
    sound.playing_right = sound.on && mapper.playing_right(line);
}

/// Takes the channel's frequency from its registers.
#[verifier::spinoff_prover]
pub fn update_frequency<T: ChannelSound>(mapper: &SoundMemoryMapper, line: u8, sound: &mut AudioLine<T>)
    requires
        mapper.wf(),
        1 <= line <= 4,
    ensures
        final(sound).frequency == line_frequency(mapper@, line),
        final(sound).playing_left == old(sound).playing_left,
        final(sound).playing_right == old(sound).playing_right,
        final(sound).on == old(sound).on,
        final(sound).counter == old(sound).counter,
        final(sound).envelope_counter == old(sound).envelope_counter,
        final(sound).id == old(sound).id,
        final(sound).sound == old(sound).sound,
{
    sound.frequency = mapper.frequency(line);
}

/// Switches the channel off when its DAC is off.
#[verifier::spinoff_prover]
pub fn update_dac<T: ChannelSound>(mapper: &SoundMemoryMapper, line: u8, sound: &mut AudioLine<T>)
    requires
        mapper.wf(),
        1 <= line <= 4,
        old(sound).inv(),
    ensures
        final(sound).inv(),
        line_dac_off(mapper@, line) ==> is_off(*final(sound)),
        !line_dac_off(mapper@, line) ==> *final(sound) == *old(sound),
        final(sound).counter == old(sound).counter,
        final(sound).frequency == old(sound).frequency,
        final(sound).envelope_counter == old(sound).envelope_counter,
        final(sound).sound.spec_volume() == old(sound).sound.spec_volume(),
{
    if mapper.dac_off(line) {
        sound.turn_off();
    }
}

/// One clock of the length counter: when enabled, the counter counts down to zero and the
/// channel is switched off once it is zero.
#[verifier::spinoff_prover]
pub fn update_length<T: ChannelSound>(mapper: &SoundMemoryMapper, line: u8, sound: &mut AudioLine<T>)
    requires
        mapper.wf(),
        1 <= line <= 4,
        old(sound).inv(),
    ensures
        final(sound).inv(),
        !line_consecutive(mapper@, line) ==> *final(sound) == *old(sound),
        line_consecutive(mapper@, line) ==> final(sound).counter == (if old(sound).counter > 0 {
            old(sound).counter - 1 } else { 0 }),
        line_consecutive(mapper@, line) && final(sound).counter == 0 ==> is_off(*final(sound)),
        line_consecutive(mapper@, line) && final(sound).counter != 0 ==> same_common(*final(sound),
            AudioLine { counter: final(sound).counter, ..*old(sound) }) && final(sound).sound == old(sound).sound,
        final(sound).frequency == old(sound).frequency,
        final(sound).envelope_counter == old(sound).envelope_counter,
        final(sound).sound.spec_volume() == old(sound).sound.spec_volume(),
        final(sound).id == old(sound).id,
{
    if !mapper.consecutive(line) {
        return;
    }

    if sound.counter > 0 {
        sound.counter -= 1;
    }

    if sound.counter == 0 {
        sound.turn_off();
    }
}

/// The volume after one envelope clock: one step up or down, unless it is already at the end
/// of its range (15 going up, 0 going down).
pub open spec fn envelope_target(volume: u8, direction: SweepDirection) -> u8 {
    if direction == SweepDirection::Up {
        if volume == 15 { volume } else { (volume + 1) as u8 }
    } else {
        if volume == 0 { volume } else { (volume - 1) as u8 }
    }
}

/// One clock of the volume envelope of a square or noise line: with a non-zero envelope period
/// and the volume not yet at its end, the envelope counter counts down, and when it reaches
/// zero the volume moves one step and the counter restarts from the period.
#[verifier::spinoff_prover]
pub fn update_volume<T: ChannelSound>(mapper: &SoundMemoryMapper, line: u8, sound: &mut AudioLine<T>)
    requires
        mapper.wf(),
        line == 1 || line == 2 || line == 4,
        old(sound).inv(),
        T::volume_limit() == 15,
    ensures
        final(sound).inv(),
        ({
            let sweep = line_envelope_sweep(mapper@, line);
            let volume = old(sound).sound.spec_volume();
            let direction = line_direction(mapper@, line);
            let done = envelope_target(volume, direction) == volume;
            let counter = if old(sound).envelope_counter > 0 { old(sound).envelope_counter - 1 } else { 0 };
            if sweep == 0 || done {
                *final(sound) == *old(sound)
            } else if counter == 0 {
                &&& final(sound).sound.spec_volume() == envelope_target(volume, direction)
                &&& final(sound).envelope_counter == sweep
            } else {
                &&& final(sound).sound.spec_volume() == volume
                &&& final(sound).envelope_counter == counter
                &&& final(sound).sound == old(sound).sound
            }
        }),
        same_common(*final(sound), AudioLine { envelope_counter: final(sound).envelope_counter, ..*old(sound) }),
{
    let sweep = mapper.envelope_sweep(line);
    if sweep == 0 {
        return;
    }

    let volume = sound.sound.volume();
    let direction = mapper.direction(line);

    let is_sweep_completed = match direction {
        SweepDirection::Up => volume == 0xF,
        SweepDirection::Down => volume == 0x0,
    };

    if is_sweep_completed {
        return;
    }

    if sound.envelope_counter > 0 {
        sound.envelope_counter -= 1;
    }

    if sound.envelope_counter == 0 && sweep > 0 && !is_sweep_completed {
        let new_volume = match direction {
            SweepDirection::Up => volume + 1,
            SweepDirection::Down => volume - 1,
        };

        sound.sound.set_volume(new_volume);
        sound.envelope_counter = sweep as i64;
    }
}

/// The length counter after a trigger: a stopped counter restarts from the channel's default
/// length, one less when the length counter is enabled and the next sequencer step does not
/// clock it.
pub open spec fn counter_after_trigger(counter: i64, default_length: i64, clocks_length: bool, consecutive: bool) -> int {
    if counter != 0 {
        counter as int
    } else if !clocks_length && consecutive {
        default_length - 1
    } else {
        default_length as int
    }
}

/// Whether the frame sequencer's next step clocks the length counters.
pub open spec fn clocks_length(fs: FrameSequencer) -> bool {
    fs.step == 0 || fs.step == 2 || fs.step == 4 || fs.step == 6
}

/// A trigger event: the channel is switched on and connected to the outputs it is routed to,
/// a stopped length counter restarts, the volume and the envelope counter are reloaded, and
/// the channel-specific trigger runs; the channel ends up off when that trigger vetoes it or
/// its DAC is off.
#[verifier::spinoff_prover]
pub fn trigger_event<T: ChannelSound>(sound: &mut AudioLine<T>, mapper: &mut SoundMemoryMapper, line: u8,
    frame_sequencer: &FrameSequencer)
    requires
        old(mapper).wf(),
        1 <= line <= 4,
        old(sound).inv(),
        frame_sequencer.wf(),
        (line == 3 && T::volume_limit() == 3) || (line != 3 && T::volume_limit() == 15),
    ensures
        final(sound).inv(),
        *final(mapper) == *old(mapper),
        final(sound).counter == counter_after_trigger(old(sound).counter, T::spec_default_length(),
            clocks_length(*frame_sequencer), line_consecutive(old(mapper)@, line)),
        final(sound).sound.spec_volume() == line_initial_volume(old(mapper)@, line),
        final(sound).envelope_counter == line_envelope_sweep(old(mapper)@, line),
        final(sound).on == !(old(sound).sound.vetoes_trigger(old(mapper)@) || line_dac_off(old(mapper)@, line)),
        final(sound).on ==> final(sound).playing_left == line_to_left(old(mapper)@, line)
            && final(sound).playing_right == line_to_right(old(mapper)@, line),
        !final(sound).on ==> is_off(*final(sound)),
        final(sound).frequency == old(sound).frequency,
        final(sound).id == old(sound).id,
{
    sound.on = true;
    update_playing(mapper, line, sound);

    if sound.counter == 0 {
        sound.counter = sound.sound.default_length();
        if !frame_sequencer.next_step_clocks_length() && mapper.consecutive(line) {
            // When the next step in the sequencer will not fire a Lenght clock
            // the counter is actually initialized to MAX_LENGTH - 1
            sound.counter -= 1;
        }
    }

    let volume = mapper.initial_volume(line);
    sound.sound.set_volume(volume);
    sound.envelope_counter = mapper.envelope_sweep(line) as i64;

    // Channel specific logic
    let keep = sound.sound.trigger(mapper);
    if !keep {
        sound.turn_off();
    }

    // Even if the Trigger Event fired, if the DAC
    // is off the sound should stay off.
    if mapper.dac_off(line) {
        sound.turn_off();
    }
}

/// When the length counter gets enabled while the next sequencer step will not clock it, it
/// is clocked once at once (switching the channel off if it reaches zero).
#[verifier::spinoff_prover]
pub fn extra_length_check<T: ChannelSound>(sound: &mut AudioLine<T>, frame_sequencer: &FrameSequencer)
    requires
        old(sound).inv(),
        frame_sequencer.wf(),
    ensures
        final(sound).inv(),
        !(old(sound).counter > 0 && !clocks_length(*frame_sequencer)) ==> *final(sound) == *old(sound),
        old(sound).counter > 0 && !clocks_length(*frame_sequencer) ==> final(sound).counter == old(sound).counter - 1,
        old(sound).counter == 1 && !clocks_length(*frame_sequencer) ==> is_off(*final(sound)),
        old(sound).counter > 1 && !clocks_length(*frame_sequencer) ==> same_common(*final(sound),
            AudioLine { counter: final(sound).counter, ..*old(sound) }) && final(sound).sound == old(sound).sound,
        final(sound).frequency == old(sound).frequency,
        final(sound).envelope_counter == old(sound).envelope_counter,
        final(sound).id == old(sound).id,
        final(sound).sound.spec_volume() == old(sound).sound.spec_volume(),
{
    let extra_check = sound.counter > 0 && !frame_sequencer.next_step_clocks_length();

    if extra_check {
        sound.counter -= 1;
        if sound.counter == 0 {
            sound.turn_off();
        }
    }
}

/// A write to the NRx4 register of a line: the register is stored; enabling the length
/// counter may clock it once more (see `extra_length_check`); bit 7 triggers the channel.
#[verifier::spinoff_prover]
pub fn write_nrx4<T: ChannelSound>(sound: &mut AudioLine<T>, mapper: &mut SoundMemoryMapper, line: u8,
    frame_sequencer: &FrameSequencer, address: u16, v: u8)
    requires
        old(mapper).wf(),
        1 <= line <= 4,
        address == nrx4_address(line),
        old(sound).inv(),
        frame_sequencer.wf(),
        (line == 3 && T::volume_limit() == 3) || (line != 3 && T::volume_limit() == 15),
    ensures
        final(sound).inv(),
        final(mapper)@ == old(mapper)@.update(address - 0xFF10, v),
        final(mapper).wf(),
        bit_of(v, 7) == 0 && !(!line_consecutive(old(mapper)@, line) && bit_of(v, 6) == 1) ==> *final(sound) == *old(sound),
        bit_of(v, 7) == 1 ==> final(sound).sound.spec_volume() == line_initial_volume(final(mapper)@, line),
        bit_of(v, 7) == 1 ==> final(sound).envelope_counter == line_envelope_sweep(final(mapper)@, line),
        bit_of(v, 7) == 1 && line_dac_off(final(mapper)@, line) ==> is_off(*final(sound)),
        bit_of(v, 7) == 0 && is_off(*old(sound)) ==> is_off(*final(sound)),
        final(sound).frequency == old(sound).frequency,
        final(sound).id == old(sound).id,
{
    proof { lemma_bit_reads(); }
    let turns_length_on = !mapper.consecutive(line) && v & 0b01000000 > 0;

    mapper.write(address, v);

    if turns_length_on {
        // If we are turning the length counter on, we might
        // have to perform an extra length check.
        extra_length_check(sound, frame_sequencer);
    }

    if v & 0b10000000 > 0 {
        trigger_event(sound, mapper, line, frame_sequencer);
    }
}

/// One sweep computation of channel 1, `before`, with the sound registers `regs`, giving the
/// channel `after` and the registers `after_regs`: a result of 2048 or more switches the channel
/// off; otherwise, with `update` and a non-zero shift, the result becomes the channel's frequency,
/// its shadow frequency and the value of its frequency registers.
pub open spec fn sweep_computed(before: AudioLine<SweepWaveDuty>, regs: Seq<u8>, update: bool,
    after: AudioLine<SweepWaveDuty>, after_regs: Seq<u8>) -> bool {
    &&& ({
        let direction = if bit_of(sound_reg(regs, 0xFF10), 3) == 1 { ToneSweepDirection::Down } else {
            ToneSweepDirection::Up };
        let new_frequency = spec_swept_frequency(before.sound.shadow_frequency, before.sound.sweep.shift, direction);
        if new_frequency >= 2048 {
            &&& is_off(after)
            &&& !after.sound.sweep.down_computed_since_reset
            &&& after_regs == regs
            &&& after.frequency == before.frequency
        } else if before.sound.sweep.shift > 0 && update {
            &&& after.frequency == new_frequency
            &&& after.sound.shadow_frequency == new_frequency
            &&& line_frequency(after_regs, 1) % 8 == new_frequency % 8
            &&& sound_reg(after_regs, 0xFF13) == new_frequency % 256
            &&& after.on == before.on
        } else {
            &&& after_regs == regs
            &&& after.frequency == before.frequency
            &&& after.on == before.on
            &&& after.sound.shadow_frequency == before.sound.shadow_frequency
        }
    })
    &&& after.counter == before.counter
    &&& after.envelope_counter == before.envelope_counter
    &&& after.sound.volume == before.sound.volume
    &&& after.sound.sweep.shift == before.sound.sweep.shift
    &&& after.sound.sweep.counter == before.sound.sweep.counter
    &&& after.sound.sweep.enabled == before.sound.sweep.enabled
    &&& forall|i: int| 0 <= i < 32 && i != 3 && i != 4 ==> #[trigger] after_regs[i] == regs[i]
}

impl AudioLine<SweepWaveDuty> {
    /// One sweep computation of channel 1. A result of 2048 or more switches the channel off;
    /// otherwise, with `update` and a non-zero shift, the result becomes the channel's
    /// frequency, its shadow frequency and the value of its frequency registers. A downward
    /// computation is remembered.
    #[verifier::spinoff_prover]
    pub fn update_frequency(&mut self, update: bool, mapper: &mut SoundMemoryMapper)
        requires
            old(self).inv(),
            old(mapper).wf(),
        ensures
            final(self).inv(),
            final(mapper).wf(),
            ({
                let direction = if bit_of(sound_reg(old(mapper)@, 0xFF10), 3) == 1 { ToneSweepDirection::Down } else {
                    ToneSweepDirection::Up };
                let new_frequency = spec_swept_frequency(old(self).sound.shadow_frequency, old(self).sound.sweep.shift, direction);
                if new_frequency >= 2048 {
                    &&& is_off(*final(self))
                    &&& !final(self).sound.sweep.down_computed_since_reset
                    &&& *final(mapper) == *old(mapper)
                    &&& final(self).frequency == old(self).frequency
                } else if old(self).sound.sweep.shift > 0 && update {
                    &&& final(self).frequency == new_frequency
                    &&& final(self).sound.shadow_frequency == new_frequency
                    &&& line_frequency(final(mapper)@, 1) % 8 == new_frequency % 8
                    &&& sound_reg(final(mapper)@, 0xFF13) == new_frequency % 256
                    &&& final(self).on == old(self).on
                } else {
                    &&& *final(mapper) == *old(mapper)
                    &&& final(self).frequency == old(self).frequency
                    &&& final(self).on == old(self).on
                    &&& final(self).sound.shadow_frequency == old(self).sound.shadow_frequency
                }
            }),
            final(self).counter == old(self).counter,
            final(self).envelope_counter == old(self).envelope_counter,
            final(self).sound.volume == old(self).sound.volume,
            final(self).sound.sweep.shift == old(self).sound.sweep.shift,
            final(self).sound.sweep.counter == old(self).sound.sweep.counter,
            final(self).sound.sweep.enabled == old(self).sound.sweep.enabled,
            forall|i: int| 0 <= i < 32 && i != 3 && i != 4 ==> #[trigger] final(mapper)@[i] == old(mapper)@[i],
            sweep_computed(*old(self), old(mapper)@, update, *final(self), final(mapper)@),
    {
        let direction = mapper.sound_1_sweep_direction();
        if direction == ToneSweepDirection::Down {
            self.sound.sweep.down_computed_since_reset = true;
        }

        let new_frequency = swept_frequency(self.sound.shadow_frequency, self.sound.sweep.shift, direction);

        if new_frequency >= 2048 {
            self.turn_off_base();
            self.sound.turn_off_sound();
            return;
        }

        if self.sound.sweep.shift > 0 && update {
            self.frequency = new_frequency;
            self.sound.shadow_frequency = new_frequency;
            mapper.set_frequency(new_frequency);
            proof {
                crate::bitfield::lemma_field_bound();
                let old14 = sound_reg(old(mapper)@, 0xFF14);
                let f = new_frequency;
                assert(((f & 0xFFu64) as u8) as int == f % 256 && (f & 0b111u64) as int == f % 8
                    && (((old14 & !(0b111u8 << 0u8)) + (f & 0b111u64)) as u8 >> 0u8) & 0b111u8 == f % 8
                    && (old14 & !(0b111u8 << 0u8)) + (f & 0b111u64) <= 255) by (bit_vector)
                    requires f < 2048;
                assert((((f & 0xFFu64) as u8) as u64 + (f % 8) * 256) % 8 == f % 8) by (bit_vector)
                    requires f < 2048;
            }
        }
    }
}

/// What the sound output reads of any channel.
pub trait AudioLineView {
    fn playing_left(&self) -> bool;

    fn playing_right(&self) -> bool;

    fn frequency(&self) -> u64;
}

impl<T> AudioLineView for AudioLine<T> {
    #[verifier::spinoff_prover]
    fn playing_left(&self) -> (r: bool)
        ensures
            r == self.playing_left,
    {
        self.playing_left
    }

    #[verifier::spinoff_prover]
    fn playing_right(&self) -> (r: bool)
        ensures
            r == self.playing_right,
    {
        self.playing_right
    }

    #[verifier::spinoff_prover]
    fn frequency(&self) -> (r: u64)
        ensures
            r == self.frequency,
    {
        self.frequency
    }
}

/// The volume (0-15) of a square or noise channel.
pub trait VolumeView {
    fn volume(&self) -> u8;
}

/// The output level of the wave channel.
pub trait OutputLevelView {
    fn volume(&self) -> OutputLevel;
}

/// The duty cycle of a square channel.
pub trait WaveDutyView {
    fn wave_duty(&self) -> WavePattern;
}

/// The 32 four-bit samples of the wave channel, two to a byte.
pub trait WavePatternView {
    fn wave_pattern(&self) -> &[u8];
}

/// The width of the noise channel's shift register.
pub trait PatternView {
    fn pattern(&self) -> NoisePattern;
}

/// What the sound output reads of channel 1.
pub trait Channel1View: WaveDutyView + VolumeView + AudioLineView {}

impl<T> Channel1View for T where T: WaveDutyView + VolumeView + AudioLineView {}

/// What the sound output reads of channel 2.
pub trait Channel2View: WaveDutyView + VolumeView + AudioLineView {}

impl<T> Channel2View for T where T: WaveDutyView + VolumeView + AudioLineView {}

/// What the sound output reads of channel 3.
pub trait Channel3View: WavePatternView + OutputLevelView + AudioLineView {}

impl<T> Channel3View for T where T: WavePatternView + OutputLevelView + AudioLineView {}

/// What the sound output reads of channel 4.
pub trait Channel4View: PatternView + VolumeView + AudioLineView {}

impl<T> Channel4View for T where T: PatternView + VolumeView + AudioLineView {}

impl VolumeView for AudioLine<WaveDuty> {
    #[verifier::spinoff_prover]
    fn volume(&self) -> (r: u8)
        ensures
            r == self.sound.volume,
    {
        self.sound.volume
    }
}

impl VolumeView for AudioLine<Noise> {
    #[verifier::spinoff_prover]
    fn volume(&self) -> (r: u8)
        ensures
            r == self.sound.volume,
    {
        self.sound.volume
    }
}

impl VolumeView for AudioLine<SweepWaveDuty> {
    #[verifier::spinoff_prover]
    fn volume(&self) -> (r: u8)
        ensures
            r == self.sound.volume,
    {
        self.sound.volume
    }
}

impl OutputLevelView for AudioLine<Wave> {
    #[verifier::spinoff_prover]
    fn volume(&self) -> (r: OutputLevel)
        ensures
            r == self.sound.volume,
    {
        self.sound.volume
    }
}

impl WaveDutyView for AudioLine<WaveDuty> {
    #[verifier::spinoff_prover]
    fn wave_duty(&self) -> (r: WavePattern)
        ensures
            r == self.sound.wave_duty,
    {
        self.sound.wave_duty
    }
}

impl WaveDutyView for AudioLine<SweepWaveDuty> {
    #[verifier::spinoff_prover]
    fn wave_duty(&self) -> (r: WavePattern)
        ensures
            r == self.sound.wave_duty,
    {
        self.sound.wave_duty
    }
}

impl WavePatternView for AudioLine<Wave> {
    #[verifier::spinoff_prover]
    fn wave_pattern(&self) -> (r: &[u8])
        ensures
            r@ == self.sound.wave_pattern@,
    {
        self.sound.wave_pattern.as_slice()
    }
}

impl PatternView for AudioLine<Noise> {
    #[verifier::spinoff_prover]
    fn pattern(&self) -> (r: NoisePattern)
        ensures
            r == self.sound.pattern,
    {
        self.sound.pattern
    }
}

/// The four channels.
pub struct GbAudioBuffer {
    pub sound_1: AudioLine<SweepWaveDuty>,
    pub sound_2: AudioLine<WaveDuty>,
    pub sound_3: AudioLine<Wave>,
    pub sound_4: AudioLine<Noise>,
}

impl GbAudioBuffer {
    pub open spec fn inv(&self) -> bool {
        &&& self.sound_1.inv()
        &&& self.sound_2.inv()
        &&& self.sound_3.inv()
        &&& self.sound_4.inv()
    }
}

/// One step of the frame sequencer `fs`, giving `r` and leaving `after`: the period counts down
/// by 4 cycles; when it runs out the event of the current step is given and the sequencer moves
/// to the next of its 8 steps with a new period.
pub open spec fn sequencer_stepped(fs: FrameSequencer, r: Option<SequencerEvent>, after: FrameSequencer) -> bool {
    &&& after.wf()
    &&& fs.cycles > 4 ==> r == None::<SequencerEvent> && after.step == fs.step && after.cycles == fs.cycles - 4
    &&& fs.cycles == 4 ==> r == event_of_step(fs.step) && after.step == (fs.step + 1) % 8 && after.cycles
        == FRAME_SEQUENCER_PERIOD
}

#[verifier::spinoff_prover]
proof fn lemma_sequencer_prefix(states: Seq<FrameSequencer>, events: Seq<Option<SequencerEvent>>, k: int)
    requires
        states.len() == 2049,
        events.len() == 2048,
        states[0].wf(),
        states[0].cycles == FRAME_SEQUENCER_PERIOD,
        forall|j: int| 0 <= j < 2048 ==> #[trigger] sequencer_stepped(states[j], events[j], states[j + 1]),
        0 <= k <= 2047,
    ensures
        states[k].cycles == FRAME_SEQUENCER_PERIOD - 4 * k,
        states[k].step == states[0].step,
        forall|j: int| 0 <= j < k ==> #[trigger] events[j] == None::<SequencerEvent>,
    decreases k,
{
    if k > 0 {
        lemma_sequencer_prefix(states, events, k - 1);
        let j = k - 1;
        assert(sequencer_stepped(states[j], events[j], states[j + 1]));
    }
}

/// Over one period of calls, from a sequencer whose period has just started (as after `new` or
/// `reset`): the first 2047 steps give no event, the 2048th gives the event of the current step
/// (`event_of_step`: length on steps 0 and 4, length and sweep on 2 and 6, volume on 7), and the
/// sequencer is then at the next step with a new period. Steps follow each other modulo 8, so
/// the events come round in the order of `event_of_step`.
#[verifier::spinoff_prover]
pub proof fn law_sequencer_period(states: Seq<FrameSequencer>, events: Seq<Option<SequencerEvent>>)
    requires
        states.len() == 2049,
        events.len() == 2048,
        states[0].wf(),
        states[0].cycles == FRAME_SEQUENCER_PERIOD,
        forall|j: int| 0 <= j < 2048 ==> #[trigger] sequencer_stepped(states[j], events[j], states[j + 1]),
    ensures
        forall|j: int| 0 <= j < 2047 ==> #[trigger] events[j] == None::<SequencerEvent>,
        events[2047] == event_of_step(states[0].step),
        states[2048].step == (states[0].step + 1) % 8,
        states[2048].cycles == FRAME_SEQUENCER_PERIOD,
{
    lemma_sequencer_prefix(states, events, 2047);
    let j: int = 2047;
    assert(sequencer_stepped(states[j], events[j], states[j + 1]));
}

/// The output level is the number 0-3 of its register field, and the number decides it.
#[verifier::spinoff_prover]
pub proof fn law_output_level_values(a: OutputLevel, b: OutputLevel)
    ensures
        a.spec_value() <= 3,
        a.spec_value() == b.spec_value() ==> a == b,
{
}

/// The audio processing unit.
pub struct SoundController {
    pub master_status: bool,
    pub mapper: SoundMemoryMapper,
    pub buffer: GbAudioBuffer,
    pub frame_sequencer: FrameSequencer,
}

/// Every bit of zero is zero.
#[verifier::spinoff_prover]
pub proof fn lemma_zero_bits()
    by (bit_vector)
    ensures
        forall|k: u8| #[trigger] ((0u8 >> k) & 1) == 0u8,
{
}

/// The value that NR52 ($FF26) reads as: the power bit, the four channel status bits and the
/// unused bits set.
pub open spec fn nr52_value(master: bool, on1: bool, on2: bool, on3: bool, on4: bool) -> int {
    (if master { 0x80int } else { 0 }) + (if on1 { 1int } else { 0 }) + (if on2 { 2int } else { 0 })
        + (if on3 { 4int } else { 0 }) + (if on4 { 8int } else { 0 }) + 0x70
}

/// Whether an address belongs to the sound unit: its registers ($FF10-$FF2F) and the wave
/// samples ($FF30-$FF3F).
pub open spec fn is_sound_address(address: u16) -> bool {
    0xFF10 <= address <= 0xFF3F
}

/// The register value that a write to `address` stores while the unit is powered off, if it
/// is stored at all: only the length registers ($FF11, $FF16: bits 0-5; $FF1B, $FF20: all
/// bits) can be written then.
pub open spec fn powered_off_write(address: u16, v: u8) -> Option<u8> {
    if address == 0xFF11 || address == 0xFF16 {
        Some(v & 0b00111111u8)
    } else if address == 0xFF1B || address == 0xFF20 {
        Some(v)
    } else {
        None
    }
}

/// The register value that remains in `address` ($FF10-$FF2F, not $FF26) when the unit is
/// powered off: the length registers keep their length bits, the others are cleared.
pub open spec fn power_off_value(address: u16, old_value: u8) -> u8 {
    if address == 0xFF1B || address == 0xFF20 {
        old_value
    } else if address == 0xFF11 || address == 0xFF16 {
        old_value & 0b00111111u8
    } else {
        0
    }
}

impl SoundController {
    pub open spec fn wf(&self) -> bool {
        &&& self.mapper.wf()
        &&& self.frame_sequencer.wf()
        &&& self.buffer.inv()
        &&& self.master_status == (bit_of(sound_reg(self.mapper@, 0xFF26), 7) == 1)
    }

    #[verifier::spinoff_prover]
    pub fn new() -> (r: SoundController)
        ensures
            r.wf(),
            !r.master_status,
            is_off(r.buffer.sound_1),
            is_off(r.buffer.sound_2),
            is_off(r.buffer.sound_3),
            is_off(r.buffer.sound_4),
            r.frame_sequencer.step == 0,
            r.frame_sequencer.cycles == FRAME_SEQUENCER_PERIOD,
            forall|a: u16| 0xFF10 <= a <= 0xFF2F ==> sound_reg(r.mapper@, a) == (if a == 0xFF23 { 0xBFu8 }
                else if a == 0xFF25 { 0xF3u8 } else { 0u8 }),
            forall|i: int| 0 <= i < 16 ==> r.buffer.sound_3.sound.wave_pattern@[i] == 0,
    {
        proof { lemma_zero_bits(); }
        SoundController {
            master_status: false,
            frame_sequencer: FrameSequencer::new(),
            mapper: SoundMemoryMapper::new(),
            buffer: GbAudioBuffer {
                sound_1: AudioLine::new(
                    1,
                    SweepWaveDuty {
                        volume: 0,
                        wave_duty: WavePattern::C50,
                        shadow_frequency: 0,
                        sweep: Sweep { counter: 0, enabled: false, shift: 0, down_computed_since_reset: false },
                    },
                ),
                sound_2: AudioLine::new(2, WaveDuty { volume: 0, wave_duty: WavePattern::C50 }),
                sound_3: AudioLine::new(3, Wave { volume: OutputLevel::Mute, wave_pattern: vec![0u8; 16] }),
                sound_4: AudioLine::new(4, Noise { volume: 0, pattern: NoisePattern::C7 }),
            },
        }
    }

    /// The four channels, as the sound output reads them.
    #[verifier::spinoff_prover]
    pub fn get_audio(&self) -> (r: &GbAudioBuffer)
        ensures
            *r == self.buffer,
    {
        &self.buffer
    }

    /// One step of the CPU. While powered off nothing happens; otherwise the frame sequencer
    /// runs, and the event of a completed sequencer step clocks the length counters of all
    /// channels (with the sweep of channel 1 on steps 2 and 6) or the volume envelopes of
    /// channels 1, 2 and 4.
    #[verifier::spinoff_prover]
    pub fn cpu_step(&mut self)
        requires
            old(self).wf(),
        ensures
            final(self).wf(),
            !old(self).master_status ==> *final(self) == *old(self),
            old(self).master_status ==> final(self).frame_sequencer.step == (if old(self).frame_sequencer.cycles == 4 {
                (old(self).frame_sequencer.step + 1) % 8 } else { old(self).frame_sequencer.step as int }),
            old(self).master_status && (old(self).frame_sequencer.cycles > 4 || event_of_step(
                old(self).frame_sequencer.step) is None) ==> final(self).buffer == old(self).buffer && final(self).mapper
                == old(self).mapper,
            old(self).master_status && old(self).frame_sequencer.cycles == 4 && event_of_step(
                old(self).frame_sequencer.step) == Some(SequencerEvent::Volume) ==> final(self).mapper == old(self).mapper,
            final(self).master_status == old(self).master_status,
    {
        if !self.master_status {
            return;
        }

        if let Some(ev) = self.frame_sequencer.cpu_step() {
            match ev {
                SequencerEvent::Length => self.update_length(),
                SequencerEvent::LengthSweep => {
                    self.update_length();
                    self.update_sweep();
                },
                SequencerEvent::Volume => self.update_volume(),
            }
        }
    }

    /// One clock of the sweep unit of channel 1: its counter counts down, and when it runs
    /// out it restarts from the sweep period (8 for a period of 0); then, if the sweep is
    /// enabled and the period is not 0, a new frequency is computed and stored and checked
    /// once more.
    #[verifier::spinoff_prover]
    fn update_sweep(&mut self)
        requires
            old(self).wf(),
        ensures
            final(self).wf(),
            final(self).master_status == old(self).master_status,
            final(self).frame_sequencer == old(self).frame_sequencer,
            final(self).buffer.sound_2 == old(self).buffer.sound_2,
            final(self).buffer.sound_3 == old(self).buffer.sound_3,
            final(self).buffer.sound_4 == old(self).buffer.sound_4,
            ({
                let line = old(self).buffer.sound_1;
                let period = field_of(sound_reg(old(self).mapper@, 0xFF10), 4, 0b111);
                let c = line.sound.sweep.counter - 1;
                let counted = AudioLine { sound: SweepWaveDuty { sweep: Sweep { counter: (if c > 0 { c } else if period
                    > 0 { period as int } else { 8int }) as i64, ..line.sound.sweep }, ..line.sound }, ..line };
                if c > 0 || !line.sound.sweep.enabled || period == 0 {
                    final(self).buffer.sound_1 == counted && final(self).mapper@ == old(self).mapper@
                } else {
                    exists|mid: AudioLine<SweepWaveDuty>, mid_regs: Seq<u8>| #![trigger sweep_computed(mid, mid_regs,
                        false, final(self).buffer.sound_1, final(self).mapper@)] sweep_computed(counted, old(self).mapper@, true, mid,
                        mid_regs) && sweep_computed(mid, mid_regs, false, final(self).buffer.sound_1, final(self).mapper@)
                }
            }),
    {
        let period = self.mapper.sound_1_sweep_period() as i64;

        self.buffer.sound_1.sound.sweep.counter = self.buffer.sound_1.sound.sweep.counter - 1;
        if self.buffer.sound_1.sound.sweep.counter > 0 {
            return;
        }

        self.buffer.sound_1.sound.sweep.counter = if period > 0 { period } else { 8 };

        if !self.buffer.sound_1.sound.sweep.enabled {
            return;
        }

        if period > 0 {
            let ghost regs0 = self.mapper@;
            let ghost counted = self.buffer.sound_1;
            self.buffer.sound_1.update_frequency(true, &mut self.mapper);
            let ghost mid = self.buffer.sound_1;
            let ghost mid_regs = self.mapper@;
            self.buffer.sound_1.update_frequency(false, &mut self.mapper);
            assert(sweep_computed(counted, regs0, true, mid, mid_regs));
            assert(sweep_computed(mid, mid_regs, false, self.buffer.sound_1, self.mapper@));
        }
    }

    /// Clocks the length counters of all four channels.
    #[verifier::spinoff_prover]
    fn update_length(&mut self)
        requires
            old(self).wf(),
        ensures
            final(self).wf(),
            final(self).mapper == old(self).mapper,
            final(self).master_status == old(self).master_status,
            final(self).frame_sequencer == old(self).frame_sequencer,
            !line_consecutive(old(self).mapper@, 1) ==> final(self).buffer.sound_1 == old(self).buffer.sound_1,
            line_consecutive(old(self).mapper@, 1) && old(self).buffer.sound_1.counter > 1 ==> final(self).buffer.sound_1 == (AudioLine { counter: (old(self).buffer.sound_1.counter - 1) as i64,
                ..old(self).buffer.sound_1 }),
            line_consecutive(old(self).mapper@, 1) && old(self).buffer.sound_1.counter <= 1 ==> is_off(final(self).buffer.sound_1) && final(self).buffer.sound_1.counter == 0 && final(self).buffer.sound_1.id == old(self).buffer.sound_1.id
                && final(self).buffer.sound_1.frequency == old(self).buffer.sound_1.frequency && final(self).buffer.sound_1.envelope_counter == old(self).buffer.sound_1.envelope_counter
                && final(self).buffer.sound_1.sound.volume == old(self).buffer.sound_1.sound.volume,
            !line_consecutive(old(self).mapper@, 2) ==> final(self).buffer.sound_2 == old(self).buffer.sound_2,
            line_consecutive(old(self).mapper@, 2) && old(self).buffer.sound_2.counter > 1 ==> final(self).buffer.sound_2 == (AudioLine { counter: (old(self).buffer.sound_2.counter - 1) as i64,
                ..old(self).buffer.sound_2 }),
            line_consecutive(old(self).mapper@, 2) && old(self).buffer.sound_2.counter <= 1 ==> is_off(final(self).buffer.sound_2) && final(self).buffer.sound_2.counter == 0 && final(self).buffer.sound_2.id == old(self).buffer.sound_2.id
                && final(self).buffer.sound_2.frequency == old(self).buffer.sound_2.frequency && final(self).buffer.sound_2.envelope_counter == old(self).buffer.sound_2.envelope_counter
                && final(self).buffer.sound_2.sound.volume == old(self).buffer.sound_2.sound.volume,
            !line_consecutive(old(self).mapper@, 3) ==> final(self).buffer.sound_3 == old(self).buffer.sound_3,
            line_consecutive(old(self).mapper@, 3) && old(self).buffer.sound_3.counter > 1 ==> final(self).buffer.sound_3 == (AudioLine { counter: (old(self).buffer.sound_3.counter - 1) as i64,
                ..old(self).buffer.sound_3 }),
            line_consecutive(old(self).mapper@, 3) && old(self).buffer.sound_3.counter <= 1 ==> is_off(final(self).buffer.sound_3) && final(self).buffer.sound_3.counter == 0 && final(self).buffer.sound_3.id == old(self).buffer.sound_3.id
                && final(self).buffer.sound_3.frequency == old(self).buffer.sound_3.frequency && final(self).buffer.sound_3.envelope_counter == old(self).buffer.sound_3.envelope_counter
                && final(self).buffer.sound_3.sound.volume == old(self).buffer.sound_3.sound.volume,
            !line_consecutive(old(self).mapper@, 4) ==> final(self).buffer.sound_4 == old(self).buffer.sound_4,
            line_consecutive(old(self).mapper@, 4) && old(self).buffer.sound_4.counter > 1 ==> final(self).buffer.sound_4 == (AudioLine { counter: (old(self).buffer.sound_4.counter - 1) as i64,
                ..old(self).buffer.sound_4 }),
            line_consecutive(old(self).mapper@, 4) && old(self).buffer.sound_4.counter <= 1 ==> is_off(final(self).buffer.sound_4) && final(self).buffer.sound_4.counter == 0 && final(self).buffer.sound_4.id == old(self).buffer.sound_4.id
                && final(self).buffer.sound_4.frequency == old(self).buffer.sound_4.frequency && final(self).buffer.sound_4.envelope_counter == old(self).buffer.sound_4.envelope_counter
                && final(self).buffer.sound_4.sound.volume == old(self).buffer.sound_4.sound.volume,
    {
        update_length(&self.mapper, 1, &mut self.buffer.sound_1);
        update_length(&self.mapper, 2, &mut self.buffer.sound_2);
        update_length(&self.mapper, 3, &mut self.buffer.sound_3);
        update_length(&self.mapper, 4, &mut self.buffer.sound_4);
    }

    /// Clocks the volume envelopes of channels 1, 2 and 4.
    #[verifier::spinoff_prover]
    fn update_volume(&mut self)
        requires
            old(self).wf(),
        ensures
            final(self).wf(),
            final(self).mapper == old(self).mapper,
            final(self).master_status == old(self).master_status,
            final(self).frame_sequencer == old(self).frame_sequencer,
            final(self).buffer.sound_3 == old(self).buffer.sound_3,
            ({
                let sweep = line_envelope_sweep(old(self).mapper@, 1);
                let volume = old(self).buffer.sound_1.sound.volume;
                let direction = line_direction(old(self).mapper@, 1);
                let counter = if old(self).buffer.sound_1.envelope_counter > 0 { old(self).buffer.sound_1.envelope_counter - 1 } else { 0 };
                if sweep == 0 || envelope_target(volume, direction) == volume {
                    final(self).buffer.sound_1 == old(self).buffer.sound_1
                } else if counter == 0 {
                    final(self).buffer.sound_1 == (AudioLine { envelope_counter: sweep as i64, sound: final(self).buffer.sound_1.sound, ..old(self).buffer.sound_1 })
                        && final(self).buffer.sound_1.sound.volume == envelope_target(volume, direction)
                } else {
                    final(self).buffer.sound_1 == (AudioLine { envelope_counter: counter as i64, ..old(self).buffer.sound_1 })
                }
            }),
            ({
                let sweep = line_envelope_sweep(old(self).mapper@, 2);
                let volume = old(self).buffer.sound_2.sound.volume;
                let direction = line_direction(old(self).mapper@, 2);
                let counter = if old(self).buffer.sound_2.envelope_counter > 0 { old(self).buffer.sound_2.envelope_counter - 1 } else { 0 };
                if sweep == 0 || envelope_target(volume, direction) == volume {
                    final(self).buffer.sound_2 == old(self).buffer.sound_2
                } else if counter == 0 {
                    final(self).buffer.sound_2 == (AudioLine { envelope_counter: sweep as i64, sound: final(self).buffer.sound_2.sound, ..old(self).buffer.sound_2 })
                        && final(self).buffer.sound_2.sound.volume == envelope_target(volume, direction)
                } else {
                    final(self).buffer.sound_2 == (AudioLine { envelope_counter: counter as i64, ..old(self).buffer.sound_2 })
                }
            }),
            ({
                let sweep = line_envelope_sweep(old(self).mapper@, 4);
                let volume = old(self).buffer.sound_4.sound.volume;
                let direction = line_direction(old(self).mapper@, 4);
                let counter = if old(self).buffer.sound_4.envelope_counter > 0 { old(self).buffer.sound_4.envelope_counter - 1 } else { 0 };
                if sweep == 0 || envelope_target(volume, direction) == volume {
                    final(self).buffer.sound_4 == old(self).buffer.sound_4
                } else if counter == 0 {
                    final(self).buffer.sound_4 == (AudioLine { envelope_counter: sweep as i64, sound: final(self).buffer.sound_4.sound, ..old(self).buffer.sound_4 })
                        && final(self).buffer.sound_4.sound.volume == envelope_target(volume, direction)
                } else {
                    final(self).buffer.sound_4 == (AudioLine { envelope_counter: counter as i64, ..old(self).buffer.sound_4 })
                }
            }),
    {
        update_volume(&self.mapper, 1, &mut self.buffer.sound_1);
        update_volume(&self.mapper, 2, &mut self.buffer.sound_2);
        update_volume(&self.mapper, 4, &mut self.buffer.sound_4);
    }

    /// Follows up a register write: brings the channels in line with the written register.
    /// Length registers reload the length counter, volume registers check the DAC, frequency
    /// registers reload the frequency, $FF25 reconnects the channels to the outputs and $FF26
    /// takes the power bit.
    #[verifier::rlimit(60)]
    #[verifier::spinoff_prover]
    fn write_callback(&mut self, address: u16)
        requires
            old(self).wf(),
        ensures
            final(self).wf(),
            final(self).mapper == old(self).mapper,
            final(self).frame_sequencer == old(self).frame_sequencer,
            final(self).master_status == (if address == 0xFF26 { bit_of(sound_reg(old(self).mapper@, 0xFF26), 7) == 1 } else {
                old(self).master_status }),
            address == 0xFF11 ==> final(self).buffer.sound_1.sound.wave_duty.spec_value() == field_of(sound_reg(
                old(self).mapper@, 0xFF11), 6, 0b11),
            address == 0xFF16 ==> final(self).buffer.sound_2.sound.wave_duty.spec_value() == field_of(sound_reg(
                old(self).mapper@, 0xFF16), 6, 0b11),
            address == 0xFF1C ==> final(self).buffer.sound_3.sound.volume.spec_value() == field_of(sound_reg(
                old(self).mapper@, 0xFF1C), 5, 0b11),
            address == 0xFF22 ==> final(self).buffer.sound_4.sound.pattern.spec_value() == bit_of(sound_reg(
                old(self).mapper@, 0xFF22), 3),
            address == 0xFF10 ==> final(self).buffer.sound_1.sound.sweep.shift == field_of(sound_reg(old(self).mapper@, 0xFF10), 0, 0b111),
            address == 0xFF11 ==> final(self).buffer.sound_1.counter == 64 - field_of(sound_reg(old(self).mapper@, 0xFF11), 0, 0b111111),
            address == 0xFF16 ==> final(self).buffer.sound_2.counter == 64 - field_of(sound_reg(old(self).mapper@, 0xFF16), 0, 0b111111),
            address == 0xFF1B ==> final(self).buffer.sound_3.counter == 256 - sound_reg(old(self).mapper@, 0xFF1B),
            address == 0xFF20 ==> final(self).buffer.sound_4.counter == 64 - field_of(sound_reg(old(self).mapper@, 0xFF20), 0, 0b111111),
            address == 0xFF12 && line_dac_off(old(self).mapper@, 1) ==> is_off(final(self).buffer.sound_1),
            address == 0xFF17 && line_dac_off(old(self).mapper@, 2) ==> is_off(final(self).buffer.sound_2),
            address == 0xFF1A && line_dac_off(old(self).mapper@, 3) ==> is_off(final(self).buffer.sound_3),
            address == 0xFF21 && line_dac_off(old(self).mapper@, 4) ==> is_off(final(self).buffer.sound_4),
            (address == 0xFF13 || address == 0xFF14) ==> final(self).buffer.sound_1.frequency == line_frequency(old(self).mapper@, 1),
            (address == 0xFF18 || address == 0xFF19) ==> final(self).buffer.sound_2.frequency == line_frequency(old(self).mapper@, 2),
            (address == 0xFF1D || address == 0xFF1E) ==> final(self).buffer.sound_3.frequency == line_frequency(old(self).mapper@, 3),
            address == 0xFF22 ==> final(self).buffer.sound_4.frequency == line_frequency(old(self).mapper@, 4),
            address == 0xFF25 ==> final(self).buffer.sound_1.playing_left == (old(self).buffer.sound_1.on && line_to_left(old(self).mapper@, 1))
                && final(self).buffer.sound_1.playing_right == (old(self).buffer.sound_1.on && line_to_right(old(self).mapper@, 1))
                && final(self).buffer.sound_2.playing_left == (old(self).buffer.sound_2.on && line_to_left(old(self).mapper@, 2))
                && final(self).buffer.sound_2.playing_right == (old(self).buffer.sound_2.on && line_to_right(old(self).mapper@, 2))
                && final(self).buffer.sound_3.playing_left == (old(self).buffer.sound_3.on && line_to_left(old(self).mapper@, 3))
                && final(self).buffer.sound_3.playing_right == (old(self).buffer.sound_3.on && line_to_right(old(self).mapper@, 3))
                && final(self).buffer.sound_4.playing_left == (old(self).buffer.sound_4.on && line_to_left(old(self).mapper@, 4))
                && final(self).buffer.sound_4.playing_right == (old(self).buffer.sound_4.on && line_to_right(old(self).mapper@, 4)),
            !(0xFF10 <= address <= 0xFF26) || address == 0xFF15 || address == 0xFF1F || address == 0xFF23
                || address == 0xFF24 || address == 0xFF26 ==> final(self).buffer == old(self).buffer,
            is_off(old(self).buffer.sound_1) ==> is_off(final(self).buffer.sound_1),
            is_off(old(self).buffer.sound_2) ==> is_off(final(self).buffer.sound_2),
            is_off(old(self).buffer.sound_3) ==> is_off(final(self).buffer.sound_3),
            is_off(old(self).buffer.sound_4) ==> is_off(final(self).buffer.sound_4),
    {
        proof { lemma_field_bound(); }
        match address {
            0xFF10 => {
                self.buffer.sound_1.sound.sweep.shift = self.mapper.sound_1_sweep_shift() as i64;
            },
            0xFF11 => {
                self.buffer.sound_1.sound.wave_duty = self.mapper.sound_1_pattern();
                self.buffer.sound_1.counter = 64 - self.mapper.sound_1_length() as i64;
            },
            0xFF12 => {
                update_dac(&self.mapper, 1, &mut self.buffer.sound_1);
            },
            0xFF13 | 0xFF14 => {
                update_frequency(&self.mapper, 1, &mut self.buffer.sound_1);
            },
            0xFF16 => {
                self.buffer.sound_2.sound.wave_duty = self.mapper.sound_2_pattern();
                self.buffer.sound_2.counter = 64 - self.mapper.sound_2_length() as i64;
            },
            0xFF17 => {
                update_dac(&self.mapper, 2, &mut self.buffer.sound_2);
            },
            0xFF18 | 0xFF19 => {
                update_frequency(&self.mapper, 2, &mut self.buffer.sound_2);
            },
            0xFF1A => {
                update_dac(&self.mapper, 3, &mut self.buffer.sound_3);
            },
            0xFF1B => {
                self.buffer.sound_3.counter = 256 - self.mapper.reg(0xFF1B) as i64;
            },
            0xFF1C => {
                self.buffer.sound_3.sound.volume = self.mapper.sound_3_output_level();
            },
            0xFF1D | 0xFF1E => {
                update_frequency(&self.mapper, 3, &mut self.buffer.sound_3);
            },
            0xFF20 => {
                self.buffer.sound_4.counter = 64 - self.mapper.sound_4_length() as i64;
            },
            0xFF21 => {
                update_dac(&self.mapper, 4, &mut self.buffer.sound_4);
            },
            0xFF22 => {
                update_frequency(&self.mapper, 4, &mut self.buffer.sound_4);
                self.buffer.sound_4.sound.pattern = self.mapper.sound_4_step();
            },
            0xFF24 => {
                // The channel volumes are not modelled: NR50 is only stored.
            },
            0xFF25 => {
                update_playing(&self.mapper, 1, &mut self.buffer.sound_1);
                update_playing(&self.mapper, 2, &mut self.buffer.sound_2);
                update_playing(&self.mapper, 3, &mut self.buffer.sound_3);
                update_playing(&self.mapper, 4, &mut self.buffer.sound_4);
            },
            0xFF26 => {
                self.master_status = self.mapper.master_status() == SoundStatus::SoundOn;
            },
            _ => {},
        }
    }

    /// Sets the power flag and bit 7 of $FF26 together.
    #[verifier::spinoff_prover]
    fn set_master_status(&mut self, master_status: SoundStatus)
        requires
            old(self).wf(),
        ensures
            final(self).wf(),
            final(self).master_status == (master_status == SoundStatus::SoundOn),
            final(self).mapper@ == old(self).mapper@.update(0xFF26 - 0xFF10, crate::bitfield::with_bit(
                sound_reg(old(self).mapper@, 0xFF26), 7, master_status.spec_value() == 1)),
            final(self).buffer == old(self).buffer,
            final(self).frame_sequencer == old(self).frame_sequencer,
    {
        self.master_status = master_status == SoundStatus::SoundOn;
        self.mapper.set_master_status(master_status);
        proof {
            crate::bitfield::law_bit_write(sound_reg(old(self).mapper@, 0xFF26), 7, master_status.spec_value() == 1, 0);
        }
    }

    /// What a read of `address` ($FF10-$FF3F) gives.
    pub open spec fn read_spec(&self, address: u16) -> int {
        if address == 0xFF26 {
            nr52_value(self.master_status, self.buffer.sound_1.on, self.buffer.sound_2.on, self.buffer.sound_3.on,
                self.buffer.sound_4.on)
        } else if 0xFF30 <= address {
            self.buffer.sound_3.sound.wave_pattern@[address - 0xFF30] as int
        } else {
            (sound_reg(self.mapper@, address) | sound_read_mask(address)) as int
        }
    }

    /// Reads a sound register or a wave sample. NR52 gives the power bit and the status of the
    /// four channels; the other registers give their value with the unreadable bits set.
    #[verifier::spinoff_prover]
    pub fn read(&self, address: u16) -> (r: u8)
        requires
            self.wf(),
            is_sound_address(address),
        ensures
            r == self.read_spec(address),
    {
        if address == 0xFF26 {
            let v: u8 = (if self.master_status { 0b10000000u8 } else { 0 })
                + (if self.buffer.sound_1.on { 0b00000001u8 } else { 0 })
                + (if self.buffer.sound_2.on { 0b00000010u8 } else { 0 })
                + (if self.buffer.sound_3.on { 0b00000100u8 } else { 0 })
                + (if self.buffer.sound_4.on { 0b00001000u8 } else { 0 });
            v + 0b01110000
        } else if address >= 0xFF30 {
            self.buffer.sound_3.sound.wave_pattern[(address - 0xFF30) as usize]
        } else {
            self.mapper.read(address)
        }
    }

    /// A write to an NRx4 register, through `write_nrx4` for its line.
    #[verifier::spinoff_prover]
    fn store_nrx4(&mut self, address: u16, v: u8)
        requires
            old(self).wf(),
            address == 0xFF14 || address == 0xFF19 || address == 0xFF1E || address == 0xFF23,
        ensures
            final(self).wf(),
            final(self).master_status == old(self).master_status,
            final(self).frame_sequencer == old(self).frame_sequencer,
            final(self).mapper@ == old(self).mapper@.update(address - 0xFF10, v),
            bit_of(v, 7) == 0 ==> (is_off(old(self).buffer.sound_1) ==> is_off(final(self).buffer.sound_1))
                && (is_off(old(self).buffer.sound_2) ==> is_off(final(self).buffer.sound_2))
                && (is_off(old(self).buffer.sound_3) ==> is_off(final(self).buffer.sound_3))
                && (is_off(old(self).buffer.sound_4) ==> is_off(final(self).buffer.sound_4)),
    {
        if address == 0xFF14 {
            write_nrx4(&mut self.buffer.sound_1, &mut self.mapper, 1, &self.frame_sequencer, address, v);
        } else if address == 0xFF19 {
            write_nrx4(&mut self.buffer.sound_2, &mut self.mapper, 2, &self.frame_sequencer, address, v);
        } else if address == 0xFF1E {
            write_nrx4(&mut self.buffer.sound_3, &mut self.mapper, 3, &self.frame_sequencer, address, v);
        } else {
            write_nrx4(&mut self.buffer.sound_4, &mut self.mapper, 4, &self.frame_sequencer, address, v);
        }
    }

    /// Stores a write to any sound address but NR52: $FF10 may switch channel 1 off first
    /// (when the sweep turns from down to up after a downward computation), the NRx4
    /// registers go through `write_nrx4`, the wave samples are stored in channel 3, and the
    /// other registers are stored as they are.
    #[verifier::spinoff_prover]
    fn store(&mut self, address: u16, v: u8)
        requires
            old(self).wf(),
            is_sound_address(address),
            address != 0xFF26,
        ensures
            final(self).wf(),
            final(self).master_status == old(self).master_status,
            final(self).frame_sequencer == old(self).frame_sequencer,
            address <= 0xFF2F ==> final(self).mapper@ == old(self).mapper@.update(address - 0xFF10, v),
            0xFF30 <= address ==> final(self).mapper == old(self).mapper && final(self).buffer.sound_3.sound.wave_pattern@
                == old(self).buffer.sound_3.sound.wave_pattern@.update(address - 0xFF30, v),
            bit_of(v, 7) == 0 ==> (is_off(old(self).buffer.sound_1) ==> is_off(final(self).buffer.sound_1))
                && (is_off(old(self).buffer.sound_2) ==> is_off(final(self).buffer.sound_2))
                && (is_off(old(self).buffer.sound_3) ==> is_off(final(self).buffer.sound_3))
                && (is_off(old(self).buffer.sound_4) ==> is_off(final(self).buffer.sound_4)),
    {
        if address == 0xFF10 {
            proof { lemma_bit_reads(); }
            if v & 0b00001000 == 0 && self.buffer.sound_1.sound.sweep.down_computed_since_reset
                && self.mapper.sound_1_sweep_direction() == ToneSweepDirection::Down {
                // The sweep direction is changing, and we have computed at least one
                // sweep since it was enabled, in this case the sound channel is disabled
                // immediately.
                self.buffer.sound_1.turn_off();
            }
            self.mapper.write(address, v);
        } else if address == 0xFF14 || address == 0xFF19 || address == 0xFF1E || address == 0xFF23 {
            self.store_nrx4(address, v);
        } else if address >= 0xFF30 {
            self.buffer.sound_3.sound.wave_pattern.set((address - 0xFF30) as usize, v);
        } else {
            self.mapper.write(address, v);
        }
    }

    /// A write while the unit is powered on, to any sound address but NR52: the write is
    /// stored and followed by its callback.
    #[verifier::spinoff_prover]
    fn write_register(&mut self, address: u16, v: u8)
        requires
            old(self).wf(),
            is_sound_address(address),
            address != 0xFF26,
        ensures
            final(self).wf(),
            final(self).master_status == old(self).master_status,
            final(self).frame_sequencer == old(self).frame_sequencer,
            address <= 0xFF2F ==> final(self).mapper@ == old(self).mapper@.update(address - 0xFF10, v),
            0xFF30 <= address ==> final(self).mapper == old(self).mapper && final(self).buffer.sound_3.sound.wave_pattern@
                == old(self).buffer.sound_3.sound.wave_pattern@.update(address - 0xFF30, v),
            bit_of(v, 7) == 0 ==> (is_off(old(self).buffer.sound_1) ==> is_off(final(self).buffer.sound_1))
                && (is_off(old(self).buffer.sound_2) ==> is_off(final(self).buffer.sound_2))
                && (is_off(old(self).buffer.sound_3) ==> is_off(final(self).buffer.sound_3))
                && (is_off(old(self).buffer.sound_4) ==> is_off(final(self).buffer.sound_4)),
    {
        self.store(address, v);
        self.write_callback(address);
    }

    /// A write to NR52: only the power bit counts. Switching the unit off switches all
    /// channels off and clears every register but NR52 and the length bits
    /// (`power_off_value`); switching it on restarts the frame sequencer.
    #[verifier::spinoff_prover]
    fn write_nr52(&mut self, v: u8)
        requires
            old(self).wf(),
        ensures
            final(self).wf(),
            final(self).master_status == (bit_of(v, 7) == 1),
            (bit_of(v, 7) == 1) == old(self).master_status ==> *final(self) == *old(self),
            old(self).master_status && bit_of(v, 7) == 0 ==> {
                &&& is_off(final(self).buffer.sound_1)
                &&& is_off(final(self).buffer.sound_2)
                &&& is_off(final(self).buffer.sound_3)
                &&& is_off(final(self).buffer.sound_4)
                &&& final(self).frame_sequencer == old(self).frame_sequencer
                &&& forall|a: u16| 0xFF10 <= a <= 0xFF2F && a != 0xFF26 ==> #[trigger] sound_reg(final(self).mapper@, a)
                    == power_off_value(a, sound_reg(old(self).mapper@, a))
            },
            !old(self).master_status && bit_of(v, 7) == 1 ==> {
                &&& final(self).frame_sequencer.step == 0
                &&& final(self).frame_sequencer.cycles == FRAME_SEQUENCER_PERIOD
                &&& final(self).buffer == old(self).buffer
                &&& final(self).mapper@ == old(self).mapper@.update(0xFF26 - 0xFF10, crate::bitfield::with_bit(
                    sound_reg(old(self).mapper@, 0xFF26), 7, true))
            },
    {
        proof { lemma_bit_reads(); lemma_zero_bits(); lemma_field_bound(); crate::bitfield::lemma_field_reads(); }
        let new_master_status = if v & 0b10000000 > 0 { SoundStatus::SoundOn } else { SoundStatus::SoundOff };

        if (new_master_status == SoundStatus::SoundOn) == self.master_status {
            // Status is not changing so we don't need to do anything here.
            return;
        }

        if new_master_status == SoundStatus::SoundOff {
            self.buffer.sound_1.turn_off();
            self.buffer.sound_2.turn_off();
            self.buffer.sound_3.turn_off();
            self.buffer.sound_4.turn_off();

            let ghost regs = self.mapper@;
            let mut address: u16 = 0xFF10;
            while address < 0xFF30
                invariant
                    0xFF10 <= address <= 0xFF30,
                    self.wf(),
                    self.master_status,
                    regs == old(self).mapper@,
                    self.frame_sequencer == old(self).frame_sequencer,
                    is_off(self.buffer.sound_1),
                    is_off(self.buffer.sound_2),
                    is_off(self.buffer.sound_3),
                    is_off(self.buffer.sound_4),
                    forall|a: u16| 0xFF10 <= a < address && a != 0xFF26 ==> #[trigger] sound_reg(self.mapper@, a)
                        == power_off_value(a, sound_reg(regs, a)),
                    forall|a: u16| address <= a <= 0xFF2F || a == 0xFF26 ==> #[trigger] sound_reg(self.mapper@, a)
                        == sound_reg(regs, a),
                decreases 0xFF30 - address,
            {
                proof { lemma_zero_bits(); }
                let ghost prev = self.mapper@;
                if address == 0xFF26 || address == 0xFF1B || address == 0xFF20 {
                    // NR52 and length are not affected by power in the DMG
                } else if address == 0xFF11 || address == 0xFF16 {
                    let r = self.mapper.reg(address);
                    self.mapper.write(address, r & 0b00111111);
                } else {
                    self.write_register(address, 0);
                }
                assert forall|a: u16| 0xFF10 <= a <= 0xFF2F && a != address implies #[trigger] sound_reg(self.mapper@, a)
                    == sound_reg(prev, a) by {}
                address = address + 1;
            }
        } else {
            // We're turning the APU on so we need to reset the Sequencer
            self.frame_sequencer.reset();
        }

        let ghost before = self.mapper@;
        self.set_master_status(new_master_status);
        assert forall|a: u16| 0xFF10 <= a <= 0xFF2F && a != 0xFF26 implies #[trigger] sound_reg(self.mapper@, a)
            == sound_reg(before, a) by {}
    }

    /// Writes a sound register or a wave sample. While the unit is powered off only NR52 and
    /// the length registers take writes (`powered_off_write`); everything else is ignored.
    #[verifier::spinoff_prover]
    pub fn write(&mut self, address: u16, v: u8)
        requires
            old(self).wf(),
            is_sound_address(address),
        ensures
            final(self).wf(),
            address != 0xFF26 ==> final(self).master_status == old(self).master_status
                && final(self).frame_sequencer == old(self).frame_sequencer,
            !old(self).master_status && address != 0xFF26 && powered_off_write(address, v) is None
                ==> *final(self) == *old(self),
            !old(self).master_status && address != 0xFF26 && powered_off_write(address, v) is Some
                ==> final(self).mapper@ == old(self).mapper@.update(address - 0xFF10, powered_off_write(address, v)->0),
            old(self).master_status && address != 0xFF26 && address <= 0xFF2F
                ==> final(self).mapper@ == old(self).mapper@.update(address - 0xFF10, v)
                && final(self).read_spec(address) == v | sound_read_mask(address),
            old(self).master_status && 0xFF30 <= address ==> final(self).mapper == old(self).mapper
                && final(self).buffer.sound_3.sound.wave_pattern@ == old(self).buffer.sound_3.sound.wave_pattern@.update(
                address - 0xFF30, v) && final(self).read_spec(address) == v,
            address == 0xFF26 ==> final(self).master_status == (bit_of(v, 7) == 1),
            address == 0xFF26 && (bit_of(v, 7) == 1) == old(self).master_status ==> *final(self) == *old(self),
            address == 0xFF26 && old(self).master_status && bit_of(v, 7) == 0 ==> {
                &&& is_off(final(self).buffer.sound_1)
                &&& is_off(final(self).buffer.sound_2)
                &&& is_off(final(self).buffer.sound_3)
                &&& is_off(final(self).buffer.sound_4)
                &&& final(self).frame_sequencer == old(self).frame_sequencer
                &&& forall|a: u16| 0xFF10 <= a <= 0xFF2F && a != 0xFF26 ==> #[trigger] sound_reg(final(self).mapper@, a)
                    == power_off_value(a, sound_reg(old(self).mapper@, a))
            },
            address == 0xFF26 && !old(self).master_status && bit_of(v, 7) == 1 ==> {
                &&& final(self).frame_sequencer.step == 0
                &&& final(self).frame_sequencer.cycles == FRAME_SEQUENCER_PERIOD
                &&& final(self).buffer == old(self).buffer
            },
    {
        if address == 0xFF26 {
            self.write_nr52(v);
            self.write_callback(address);
            return;
        }

        let mut v = v;
        if !self.master_status {
            // Only writes to NR52 and the length registers are allowed in the DMG while the
            // unit is powered down.
            if address == 0xFF11 || address == 0xFF16 {
                v = v & 0b00111111;
            } else if address != 0xFF1B && address != 0xFF20 {
                return;
            }
        }

        self.write_register(address, v);
    }
}

} // verus!
