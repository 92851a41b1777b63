//! The emulator: the CPU on the Game Boy's bus with a cartridge, and the noise patterns that the
//! sound output draws its fourth channel from.

use vstd::prelude::*;
use crate::apu::{GbAudioBuffer, OutputLevel};
use crate::bus::GBHandlerHolder;
use crate::cartridge::{Cartridge, MbcKind, is_valid_rom};
use crate::cpu::{CpuState, Flags, Registers};
use crate::machine::Cpu;
use crate::noise::{all_ones, generate_noise_15_bit, generate_noise_7_bit, rng_run};

verus! {

/// The number of samples (two to a frame: left, right) that one frame of sound takes.
pub const AUDIO_BUFFER_SIZE: usize = 1470;

/// The largest amplitude of the sound output.
pub const VOLUME_MAX: i16 = 32000;

/// What the sound output takes from the channels, in whole numbers: the frequencies of the
/// tone of channels 1 and 2 and of the wave of channel 3 in Hz, the amplitudes of the four
/// channels, and the 32 samples of channel 3.
pub struct SoundParameters {
    pub channel_1_frequency: u64,
    pub channel_2_frequency: u64,
    pub channel_3_frequency: u64,
    pub channel_1_volume: i16,
    pub channel_2_volume: i16,
    pub channel_3_volume: i16,
    pub channel_4_volume: i16,
    /// The high nibble of each byte of the wave, then its low nibble.
    pub channel_3_pattern: Vec<u8>,
}

/// The amplitude of channel 3 at output level `level`: a quarter of the largest amplitude,
/// halved for each right shift, and nothing when muted.
pub open spec fn wave_amplitude(level: OutputLevel) -> int {
    match level {
        OutputLevel::Mute => 0,
        OutputLevel::WavePattern => VOLUME_MAX / 4,
        OutputLevel::RightShifted2 => VOLUME_MAX / 8,
        OutputLevel::RightShifted4 => VOLUME_MAX / 16,
    }
}

/// The sound parameters of the channels in `buffer`: a square channel of frequency register
/// `f` sounds at 131072 / (2048 - f) Hz and the wave channel at 65536 / (2048 - f) Hz; a
/// channel of volume `v` (0-15) has amplitude VOLUME_MAX * v / 64.
pub fn sound_parameters(buffer: &GbAudioBuffer) -> (r: SoundParameters)
    requires
        buffer.inv(),
        buffer.sound_1.frequency < 2048,
        buffer.sound_2.frequency < 2048,
        buffer.sound_3.frequency < 2048,
    ensures
        r.channel_1_frequency == 131072int / (2048 - buffer.sound_1.frequency),
        r.channel_2_frequency == 131072int / (2048 - buffer.sound_2.frequency),
        r.channel_3_frequency == 65536int / (2048 - buffer.sound_3.frequency),
        r.channel_1_volume == VOLUME_MAX * buffer.sound_1.sound.volume / 64,
        r.channel_2_volume == VOLUME_MAX * buffer.sound_2.sound.volume / 64,
        r.channel_3_volume == wave_amplitude(buffer.sound_3.sound.volume),
        r.channel_4_volume == VOLUME_MAX * buffer.sound_4.sound.volume / 64,
        r.channel_3_pattern@.len() == 32,
        forall|i: int| 0 <= i < 16 ==> #[trigger] r.channel_3_pattern@[2 * i] == buffer.sound_3.sound.wave_pattern@[i]
            >> 4 && r.channel_3_pattern@[2 * i + 1] == buffer.sound_3.sound.wave_pattern@[i] & 0x0F,
{
    let wave = &buffer.sound_3.sound.wave_pattern;
    let mut pattern: Vec<u8> = Vec::new();
    let mut i: usize = 0;
    while i < 16
        invariant
            0 <= i <= 16,
            wave@.len() == 16,
            pattern@.len() == 2 * i,
            forall|k: int| 0 <= k < i ==> #[trigger] pattern@[2 * k] == wave@[k] >> 4 && pattern@[2 * k + 1] == wave@[k]
                & 0x0F,
        decreases 16 - i,
    {
        pattern.push((wave[i] & 0xF0) >> 4);
        pattern.push(wave[i] & 0x0F);
        proof {
            let b = wave@[i as int];
            assert((b & 0xF0) >> 4 == b >> 4) by (bit_vector);
            assert(pattern@[2 * (i as int)] == b >> 4);
            assert(pattern@[2 * (i as int) + 1] == b & 0x0F);
        }
        i = i + 1;
    }
    let channel_3_volume: i16 = match buffer.sound_3.sound.volume {
        OutputLevel::Mute => 0,
        OutputLevel::WavePattern => VOLUME_MAX / 4,
        OutputLevel::RightShifted2 => VOLUME_MAX / 8,
        OutputLevel::RightShifted4 => VOLUME_MAX / 16,
    };
    SoundParameters {
        channel_1_frequency: 131072 / (2048 - buffer.sound_1.frequency),
        channel_2_frequency: 131072 / (2048 - buffer.sound_2.frequency),
        channel_3_frequency: 65536 / (2048 - buffer.sound_3.frequency),
        channel_1_volume: (VOLUME_MAX as u32 * buffer.sound_1.sound.volume as u32 / 64) as i16,
        channel_2_volume: (VOLUME_MAX as u32 * buffer.sound_2.sound.volume as u32 / 64) as i16,
        channel_3_volume,
        channel_4_volume: (VOLUME_MAX as u32 * buffer.sound_4.sound.volume as u32 / 64) as i16,
        channel_3_pattern: pattern,
    }
}

/// A Game Boy running a cartridge.
pub struct Emulator {
    pub cpu: Cpu<GBHandlerHolder>,
    /// One period of the 7-bit noise pattern.
    pub noise_7_bit: Vec<u8>,
    /// One period of the 15-bit noise pattern.
    pub noise_15_bit: Vec<u8>,
}

impl Emulator {
    /// An emulator for the ROM image `data`, in the state that the boot ROM leaves: `None` when
    /// the image is not one that a cartridge takes.
    pub fn from_data(data: &[u8]) -> (r: Option<Emulator>)
        ensures
            r is Some <==> is_valid_rom(data@),
            r matches Some(e) ==> {
                &&& e.cpu.wf()
                &&& e.cpu.regs == (Registers { a: 0x01, b: 0x00, c: 0x13, d: 0x00, e: 0xD8, h: 0x01, l: 0x4D, sp: 0xFFFE,
                    pc: 0x0100, flags: Flags { z: false, n: false, h: false, c: false } })
                &&& e.cpu.state == CpuState::Running
                &&& !e.cpu.handler_holder.dma.running
                &&& (match e.cpu.handler_holder.inner.cartridge.memory_controller.controller {
                    MbcKind::Mbc0(c) => c.data@ == data@,
                    MbcKind::Mbc13(c) => c.data@ == data@,
                })
                &&& e.noise_7_bit@.len() == 127
                &&& forall|i: int| 0 <= i < 127 ==> #[trigger] e.noise_7_bit@[i] == (rng_run(all_ones(7), 0b1000001, i as nat)
                    & 1) as u8
                &&& e.noise_15_bit@.len() == 32767
                &&& forall|i: int| 0 <= i < 32767 ==> #[trigger] e.noise_15_bit@[i] == (rng_run(all_ones(15),
                    0b100000000000001, i as nat) & 1) as u8
            },
    {
        if !Cartridge::is_valid(data) {
            return None;
        }
        let cartridge = Cartridge::from_data(data);
        let (noise_7_bit, _) = generate_noise_7_bit();
        let (noise_15_bit, _) = generate_noise_15_bit();
        Some(Emulator { cpu: Cpu::new(GBHandlerHolder::new(cartridge)), noise_7_bit, noise_15_bit })
    }
}

/// The cartridge RAM of `e`.
pub open spec fn cartridge_ram(e: &Emulator) -> Seq<u8> {
    match e.cpu.handler_holder.inner.cartridge.memory_controller.controller {
        MbcKind::Mbc0(c) => c.ram@,
        MbcKind::Mbc13(c) => c.ram@,
    }
}

/// Copies the cartridge RAM to the front of the save buffer `save`, which must be at least as
/// long; the rest of `save` is left as it was.
pub fn copy_save_internal(emulator: &mut Emulator, save: &mut [u8])
    requires
        old(save)@.len() >= cartridge_ram(&*old(emulator)).len(),
    ensures
        *final(emulator) == *old(emulator),
        final(save)@ == cartridge_ram(&*old(emulator)) + old(save)@.subrange(
            cartridge_ram(&*old(emulator)).len() as int,
            old(save)@.len() as int,
        ),
{
    let ram: &Vec<u8> = match &emulator.cpu.handler_holder.inner.cartridge.memory_controller.controller {
        MbcKind::Mbc0(c) => &c.ram,
        MbcKind::Mbc13(c) => &c.ram,
    };
    let n = ram.len();
    let mut i: usize = 0;
    while i < n
        invariant
            n == ram@.len(),
            ram@ == cartridge_ram(&*old(emulator)),
            i <= n,
            save@.len() == old(save)@.len(),
            n <= save@.len(),
            forall|j: int| 0 <= j < i ==> save@[j] == ram@[j],
            forall|j: int| i <= j < save@.len() ==> save@[j] == old(save)@[j],
        decreases n - i,
    {
        save[i] = ram[i];
        i = i + 1;
    }
    assert(save@ =~= cartridge_ram(&*old(emulator)) + old(save)@.subrange(n as int, old(save)@.len() as int));
}

} // verus!
