use gb::interrupt::Interrupt;
use gb::ppu::{
    pattern_value, visible_sprites, Fifo, GrayShade, LCDMode, Ppu, SpriteSize, VideoMemoryMapper, FIFO_SIZE,
    SCREEN_X,
};

#[test]
fn fifo() {
    let fifo_size = FIFO_SIZE as u8;

    let mut fifo = Fifo::new();
    for i in 0..fifo_size {
        fifo.push(i);
    }

    assert_eq!(fifo.size(), FIFO_SIZE);
    assert_eq!(fifo.pop(), 0);

    assert_eq!(fifo.size(), FIFO_SIZE - 1);
    assert_eq!(fifo.pop(), 1);

    assert_eq!(fifo.size(), FIFO_SIZE - 2);
    assert_eq!(fifo.pop(), 2);

    assert_eq!(fifo.size(), FIFO_SIZE - 3);

    fifo.push(99);
    fifo.push(100);
    fifo.push(101);
    assert_eq!(fifo.size(), FIFO_SIZE);

    for _ in 3..FIFO_SIZE {
        fifo.pop();
    }

    assert_eq!(fifo.pop(), 99);
    assert_eq!(fifo.size(), 2);

    assert_eq!(fifo.pop(), 100);
    assert_eq!(fifo.size(), 1);

    assert_eq!(fifo.pop(), 101);
    assert_eq!(fifo.size(), 0);
}

#[test]
fn fifo_reset_empties() {
    let mut fifo = Fifo::new();
    fifo.push(3);
    fifo.push(2);
    fifo.reset();
    assert_eq!(fifo.size(), 0);
    fifo.push(1);
    assert_eq!(fifo.pop(), 1);
}

#[test]
fn lcd_mode_durations() {
    assert_eq!(LCDMode::HBlank.duration(), 200);
    assert_eq!(LCDMode::VBlank.duration(), 456);
    assert_eq!(LCDMode::SearchingOAM.duration(), 84);
    assert_eq!(LCDMode::LCDTransfer.duration(), 172);
}

#[test]
fn pattern_value_decodes_rows() {
    // Row 0: low byte 0b1010_0000, high byte 0b1100_0000.
    let ram = [0b1010_0000u8, 0b1100_0000u8];
    assert_eq!(pattern_value(&ram, 0, 0, 0), 3);
    assert_eq!(pattern_value(&ram, 0, 1, 0), 2);
    assert_eq!(pattern_value(&ram, 0, 2, 0), 1);
    assert_eq!(pattern_value(&ram, 0, 3, 0), 0);
}

#[test]
fn mapper_defaults_and_stat_mask() {
    let m = VideoMemoryMapper::new();
    assert_eq!(m.read(0xFF40), 0x91);
    assert_eq!(m.read(0xFF47), 0xFC);
    assert_eq!(m.read(0xFF48), 0xFF);
    assert_eq!(m.read(0xFF41), 0x80);
    assert_eq!(m.lcd_on(), 1);
    assert_eq!(m.bg_window_on(), 1);
    assert_eq!(m.sprite_size(), SpriteSize::C8by8);
    assert_eq!(m.palette(0xFF47, 0), GrayShade::C00);
    assert_eq!(m.palette(0xFF47, 3), GrayShade::C11);
}

#[test]
fn visible_sprites_are_sorted_by_x_then_number() {
    let mut oam = vec![0u8; 160];
    // Sprites 0, 1, 2 cover line 0 (y = 16); sprite 3 does not (y = 0).
    let sprites = [(16u8, 50u8), (16, 20), (16, 50), (0, 10)];
    for (i, (y, x)) in sprites.iter().enumerate() {
        oam[i * 4] = *y;
        oam[i * 4 + 1] = *x;
    }
    let m = VideoMemoryMapper::new();
    assert_eq!(visible_sprites(&oam, &m, 0), vec![1, 0, 2]);
}

#[test]
fn visible_sprites_keeps_only_ten() {
    let mut oam = vec![0u8; 160];
    for i in 0..40 {
        oam[i * 4] = 16;
        oam[i * 4 + 1] = (100 - i) as u8;
    }
    let m = VideoMemoryMapper::new();
    let v = visible_sprites(&oam, &m, 0);
    assert_eq!(v, vec![9, 8, 7, 6, 5, 4, 3, 2, 1, 0]);
}

#[test]
fn video_ram_reads_back_and_is_locked_while_drawing() {
    let mut ppu = Ppu::new();
    ppu.write(0x8010, 0x42);
    assert_eq!(ppu.read(0x8010), 0x42);
    assert_eq!(ppu.read_ram(0x8010), 0x42);
}

#[test]
fn stat_only_takes_interrupt_enable_bits() {
    let mut ppu = Ppu::new();
    ppu.write(0xFF41, 0xFF);
    // Bits 3-6 written, bit 7 reads as 1, mode bits stay HBlank (0), coincidence stays 0.
    assert_eq!(ppu.read(0xFF41), 0xF8);
}

#[test]
fn lcd_off_restarts_the_frame() {
    let mut ppu = Ppu::new();
    for _ in 0..200 {
        ppu.cpu_step();
    }
    ppu.write(0xFF44, 5);
    ppu.write(0xFF40, 0x11);
    assert_eq!(ppu.cycles, 0);
    assert_eq!(ppu.mode, LCDMode::HBlank);
    assert_eq!(ppu.read(0xFF44), 0);
    // With the display off, time stands still.
    ppu.cpu_step();
    assert_eq!(ppu.cycles, 0);
}

#[test]
fn a_frame_raises_vblank_once_and_refreshes() {
    let mut ppu = Ppu::new();
    let oam = vec![0u8; 160];
    let mut vblanks = 0;
    let mut steps = 0;
    // One frame is 70224 cycles: 17556 steps of 4 cycles.
    for _ in 0..17556 {
        ppu.cpu_step();
        steps += 1;
        if let Some(i) = ppu.check_interrupts(&oam) {
            if i == Interrupt::VBlank {
                vblanks += 1;
                // VBlank starts at line 144, 4 cycles into the line.
                assert_eq!(ppu.cycles, 144 * 456 + 4);
            }
        }
    }
    assert_eq!(steps, 17556);
    assert_eq!(vblanks, 1);
    assert!(ppu.should_refresh());
    assert!(!ppu.should_refresh());
    assert_eq!(ppu.get_screen().len(), SCREEN_X * 144);
}

#[test]
fn ly_lyc_coincidence_raises_stat() {
    let mut ppu = Ppu::new();
    let oam = vec![0u8; 160];
    ppu.write(0xFF45, 2);
    ppu.write(0xFF41, 0b0100_0000);
    let mut stat_at = None;
    let mut coincidence = 0;
    for _ in 0..(3 * 114) {
        ppu.cpu_step();
        if let Some(Interrupt::Stat) = ppu.check_interrupts(&oam) {
            if stat_at.is_none() {
                stat_at = Some(ppu.cycles);
                coincidence = ppu.read(0xFF41) & 0b100;
            }
        }
    }
    assert_eq!(stat_at, Some(2 * 456 + 4));
    assert_eq!(coincidence, 0b100);
    // The next line clears the coincidence bit.
    assert_eq!(ppu.read(0xFF41) & 0b100, 0);
}

#[test]
fn background_rows_are_drawn_through_bgp() {
    let mut ppu = Ppu::new();
    let oam = vec![0u8; 160];
    // Tile 0: row 0 is color 1 everywhere, row 1 color 2, the rest color 0.
    ppu.write(0x8000, 0xFF);
    ppu.write(0x8001, 0x00);
    ppu.write(0x8002, 0x00);
    ppu.write(0x8003, 0xFF);
    // BGP: color 0 -> shade 0, 1 -> shade 1, 2 -> shade 2, 3 -> shade 3.
    ppu.write(0xFF47, 0b1110_0100);
    for _ in 0..17556 {
        ppu.cpu_step();
        ppu.check_interrupts(&oam);
    }
    let screen = ppu.get_screen();
    for x in 0..SCREEN_X {
        assert_eq!(screen[x], GrayShade::C01);
        assert_eq!(screen[SCREEN_X + x], GrayShade::C10);
        assert_eq!(screen[2 * SCREEN_X + x], GrayShade::C00);
        assert_eq!(screen[8 * SCREEN_X + x], GrayShade::C01);
    }
}

#[test]
fn fine_scroll_shifts_the_background() {
    let mut ppu = Ppu::new();
    let oam = vec![0u8; 160];
    // Tile 0, row 0: only its leftmost pixel has color 3.
    ppu.write(0x8000, 0x80);
    ppu.write(0x8001, 0x80);
    ppu.write(0xFF47, 0b1110_0100);
    ppu.write(0xFF43, 3);
    for _ in 0..17556 {
        ppu.cpu_step();
        ppu.check_interrupts(&oam);
    }
    let screen = ppu.get_screen();
    // With SCX = 3 the tiles' first pixels land at columns 5, 13, 21...
    assert_eq!(screen[5], GrayShade::C11);
    assert_eq!(screen[13], GrayShade::C11);
    assert_eq!(screen[0], GrayShade::C00);
    assert_eq!(screen[4], GrayShade::C00);
    assert_eq!(screen[6], GrayShade::C00);
}
