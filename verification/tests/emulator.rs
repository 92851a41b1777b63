use gb::cpu::CpuState;
use gb::apu::OutputLevel;
use gb::emulator::{copy_save_internal, sound_parameters, Emulator, AUDIO_BUFFER_SIZE, VOLUME_MAX};

fn rom(kind: u8, banks: usize) -> Vec<u8> {
    let mut data = vec![0u8; banks * 0x4000];
    data[0x134..0x138].copy_from_slice(b"EMUL");
    data[0x147] = kind;
    data[0x148] = 0x01;
    data[0x149] = 0x00;
    data
}

#[test]
fn emulator_starts_where_the_boot_rom_leaves() {
    let e = Emulator::from_data(&rom(0x01, 4)).expect("a valid image");
    assert_eq!(e.cpu.get_PC(), 0x0100);
    assert_eq!(e.cpu.get_SP(), 0xFFFE);
    assert_eq!(e.cpu.get_A_reg(), 0x01);
    assert_eq!(e.cpu.get_state(), CpuState::Running);
    assert_eq!(e.noise_7_bit.len(), 127);
    assert_eq!(e.noise_15_bit.len(), 32767);
    assert_eq!(e.noise_7_bit[0], 1);
    assert_eq!(AUDIO_BUFFER_SIZE, 1470);
}

#[test]
fn emulator_refuses_an_invalid_image() {
    assert!(Emulator::from_data(&[0u8; 0x100]).is_none());
    let mut data = rom(0x01, 4);
    data[0x147] = 0x20;
    assert!(Emulator::from_data(&data).is_none());
}

#[test]
fn save_copies_the_cartridge_ram() {
    let mut e = Emulator::from_data(&rom(0x03, 4)).expect("a valid image");
    e.cpu.handler_holder.ram()[0] = 0x5A;
    e.cpu.handler_holder.ram()[5] = 0xA5;
    let n = e.cpu.handler_holder.ram().len();
    let mut save = vec![0xEEu8; n + 3];
    copy_save_internal(&mut e, &mut save);
    assert_eq!(save[0], 0x5A);
    assert_eq!(save[5], 0xA5);
    assert_eq!(save[1], 0);
    assert_eq!(&save[n..], &[0xEE, 0xEE, 0xEE]);
}

#[test]
fn sound_parameters_of_the_channels() {
    let mut e = Emulator::from_data(&rom(0x01, 4)).expect("a valid image");
    {
        let b = &mut e.cpu.handler_holder.inner.apu.buffer;
        b.sound_1.frequency = 1024;
        b.sound_1.sound.volume = 15;
        b.sound_2.frequency = 2047;
        b.sound_2.sound.volume = 1;
        b.sound_3.frequency = 1536;
        b.sound_3.sound.volume = OutputLevel::RightShifted2;
        b.sound_3.sound.wave_pattern[0] = 0xAB;
        b.sound_3.sound.wave_pattern[15] = 0x1F;
        b.sound_4.sound.volume = 8;
    }
    let p = sound_parameters(e.cpu.handler_holder.get_audio_buffer());
    assert_eq!(p.channel_1_frequency, 128);
    assert_eq!(p.channel_2_frequency, 131072);
    assert_eq!(p.channel_3_frequency, 128);
    assert_eq!(p.channel_1_volume, 7500);
    assert_eq!(p.channel_2_volume, 500);
    assert_eq!(p.channel_3_volume, 4000);
    assert_eq!(p.channel_4_volume, 4000);
    assert_eq!(VOLUME_MAX, 32000);
    assert_eq!(p.channel_3_pattern.len(), 32);
    assert_eq!(&p.channel_3_pattern[0..2], &[0xA, 0xB]);
    assert_eq!(&p.channel_3_pattern[30..32], &[0x1, 0xF]);
}
