use gb::apu::{
    AudioLineView, FrameSequencer, NoisePattern, OutputLevel, OutputLevelView, SequencerEvent, SoundController,
    SoundMemoryMapper, SoundStatus, VolumeView, WavePattern, WavePatternView,
};

#[test]
fn output_level_round_trip() {
    for v in 0..4u8 {
        assert_eq!(OutputLevel::from_u8(v).to_u8(), v);
    }
    assert_eq!(OutputLevel::from_u8(0), OutputLevel::Mute);
    assert_eq!(WavePattern::from_u8(2).to_u8(), 2);
    assert_eq!(NoisePattern::from_u8(1).to_u8(), 1);
}

#[test]
fn frame_sequencer_steps_every_8192_cycles() {
    let mut fs = FrameSequencer::new();
    let mut events = Vec::new();
    for _ in 0..(8192 / 4 * 8) {
        if let Some(e) = fs.cpu_step() {
            events.push(e);
        }
    }
    assert_eq!(
        events,
        vec![
            SequencerEvent::Length,
            SequencerEvent::LengthSweep,
            SequencerEvent::Length,
            SequencerEvent::LengthSweep,
            SequencerEvent::Volume
        ]
    );
    assert_eq!(fs.step, 0);
}

#[test]
fn frame_sequencer_add_cycles() {
    let mut fs = FrameSequencer::new();
    assert_eq!(fs.add_cycles(8000), None);
    assert_eq!(fs.cycles, 192);
    assert_eq!(fs.add_cycles(200), Some(SequencerEvent::Length));
    assert_eq!(fs.cycles, 8192 - 8);
    assert_eq!(fs.step, 1);
    assert!(!fs.next_step_clocks_length());
    fs.reset();
    assert_eq!(fs.step, 0);
    assert!(fs.next_step_clocks_length());
}

#[test]
fn nr52_reads_power_and_channels() {
    let apu = SoundController::new();
    assert_eq!(apu.read(0xFF26), 0x70);
}

#[test]
fn writes_are_ignored_while_powered_off() {
    let mut apu = SoundController::new();
    apu.write(0xFF12, 0xF3);
    assert_eq!(apu.read(0xFF12), 0x00);
    apu.write(0xFF30, 0x12);
    assert_eq!(apu.read(0xFF30), 0x00);
    // Length registers still take writes (NR11 keeps its length bits only).
    apu.write(0xFF11, 0xFF);
    assert_eq!(apu.mapper.reg(0xFF11), 0x3F);
    apu.write(0xFF1B, 0x80);
    assert_eq!(apu.read(0xFF1B), 0xFF);
    assert_eq!(apu.mapper.reg(0xFF1B), 0x80);
}

#[test]
fn power_on_then_registers_read_back_with_mask() {
    let mut apu = SoundController::new();
    apu.write(0xFF26, 0x80);
    assert!(apu.master_status);
    assert_eq!(apu.read(0xFF26), 0xF0);
    apu.write(0xFF12, 0xF3);
    assert_eq!(apu.read(0xFF12), 0xF3);
    // NR11 reads its duty bits only.
    apu.write(0xFF11, 0x81);
    assert_eq!(apu.read(0xFF11), 0xBF);
    // Wave samples read back as written.
    apu.write(0xFF3F, 0xA5);
    assert_eq!(apu.read(0xFF3F), 0xA5);
}

#[test]
fn trigger_turns_a_channel_on_and_power_off_clears() {
    let mut apu = SoundController::new();
    apu.write(0xFF26, 0x80);
    apu.write(0xFF25, 0xFF);
    apu.write(0xFF17, 0xF0); // volume 15, DAC on
    apu.write(0xFF19, 0x80); // trigger channel 2
    assert_eq!(apu.read(0xFF26), 0xF2);
    assert_eq!(apu.get_audio().sound_2.volume(), 15);
    assert!(apu.get_audio().sound_2.playing_left());
    apu.write(0xFF30, 0x77);
    apu.write(0xFF26, 0x00);
    assert_eq!(apu.read(0xFF26), 0x70);
    assert_eq!(apu.mapper.reg(0xFF17), 0);
    assert_eq!(apu.mapper.reg(0xFF25), 0);
    // Wave RAM survives the power cycle.
    assert_eq!(apu.read(0xFF30), 0x77);
}

#[test]
fn length_counter_switches_channel_off() {
    let mut apu = SoundController::new();
    apu.write(0xFF26, 0x80);
    apu.write(0xFF17, 0xF0);
    apu.write(0xFF16, 0x3F); // length 63: one clock left
    apu.write(0xFF19, 0xC0); // trigger with the length counter on
    assert_eq!(apu.read(0xFF26) & 0x02, 0x02);
    for _ in 0..(8192 / 4 * 2) {
        apu.cpu_step();
    }
    assert_eq!(apu.read(0xFF26) & 0x02, 0x00);
}

#[test]
fn channel_views() {
    let apu = SoundController::new();
    let audio = apu.get_audio();
    assert_eq!(audio.sound_3.volume(), OutputLevel::Mute);
    assert_eq!(audio.sound_3.wave_pattern().len(), 16);
    assert_eq!(audio.sound_1.frequency(), 0);
    assert!(!audio.sound_4.playing_right());
}

#[test]
fn mapper_frequency_of_lines() {
    let mut m = SoundMemoryMapper::new();
    m.write(0xFF13, 0x34);
    m.write(0xFF14, 0x05);
    assert_eq!(m.frequency(1), 0x534);
    // Noise: ratio 0 and shift 0 give 1048576 / 2.
    assert_eq!(m.frequency(4), 524288);
    m.write(0xFF22, 0x13); // shift 1, ratio 3
    assert_eq!(m.frequency(4), 524288 / (3 * 4));
    assert_eq!(m.master_status(), SoundStatus::SoundOff);
    m.set_master_status(SoundStatus::SoundOn);
    assert_eq!(m.read(0xFF26), 0xF0);
}

#[test]
fn length_writes_while_powered_off_keep_the_status() {
    let mut s = SoundController::new();
    s.write(0xFF12, 0xF3);
    assert_eq!(s.read(0xFF12), 0x00);
    s.write(0xFF11, 0xFF);
    assert_eq!(s.read(0xFF11), 0x3F);
    assert_eq!(s.read(0xFF26), 0x70);
}

#[test]
fn switching_the_sweep_up_after_a_down_sweep_cuts_channel_1() {
    let mut s = SoundController::new();
    s.write(0xFF26, 0x80);
    s.write(0xFF12, 0xF0);
    s.write(0xFF10, 0x09);
    s.write(0xFF14, 0x80);
    assert_eq!(s.read(0xFF26), 0xF1);
    s.write(0xFF10, 0x01);
    assert_eq!(s.read(0xFF26), 0xF0);
}

#[test]
fn a_trigger_with_the_dac_off_leaves_the_channel_off() {
    let mut s = SoundController::new();
    s.write(0xFF26, 0x80);
    s.write(0xFF17, 0x00);
    s.write(0xFF19, 0x80);
    assert_eq!(s.read(0xFF26) & 0x02, 0);
    s.write(0xFF17, 0xF0);
    s.write(0xFF19, 0x80);
    assert_eq!(s.read(0xFF26) & 0x02, 0x02);
}
