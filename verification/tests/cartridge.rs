use gb::cartridge::{get_ram_size, get_rom_size, rtc_register_value, Cartridge, Mbc, Mbc13, MbcKind, MbcMode};

fn rom(kind: u8, banks: usize) -> Vec<u8> {
    let mut data = vec![0u8; banks * 0x4000];
    for b in 0..banks {
        data[b * 0x4000 + 0x100] = b as u8;
    }
    data[0x134..0x138].copy_from_slice(b"TEST");
    data[0x143] = 0x80;
    data[0x144] = 0x12;
    data[0x145] = 0x34;
    data[0x146] = 0x03;
    data[0x147] = kind;
    data[0x148] = 0x01;
    data[0x149] = 0x02;
    data[0x14C] = 7;
    data
}

#[test]
fn header_sizes() {
    assert_eq!(get_rom_size(0x00), 2);
    assert_eq!(get_rom_size(0x06), 128);
    assert_eq!(get_rom_size(0x54), 96);
    assert_eq!(get_ram_size(0x00), 0);
    assert_eq!(get_ram_size(0x03), 256);
}

#[test]
fn header_fields() {
    let data = rom(0x00, 2);
    assert!(Cartridge::is_valid(&data));
    let c = Cartridge::from_data(&data);
    assert_eq!(&c.game_title[0..4], "TEST");
    assert!(c.gb_color_game);
    assert_eq!(c.licence_code, 0x1234);
    assert!(c.super_game_boy);
    assert_eq!(c.rom_size, 4);
    assert_eq!(c.ram_size, 64);
    assert!(c.destination_code_jp);
    assert_eq!(c.mask_rom_version_number, 7);
    assert_eq!(c.startup_graphic.len(), 0x2F);
}

#[test]
fn invalid_title_is_unknown() {
    let mut data = rom(0x00, 2);
    data[0x134] = 0xFF;
    let c = Cartridge::from_data(&data);
    assert_eq!(c.game_title, "UNKNOWN");
}

#[test]
fn invalid_roms_are_refused() {
    let mut data = rom(0x00, 2);
    data[0x147] = 0x05;
    assert!(!Cartridge::is_valid(&data));
    assert!(!Cartridge::is_valid(&[0u8; 0x100]));
}

#[test]
fn mbc0_ignores_writes_and_keeps_ram() {
    let data = rom(0x00, 2);
    let mut c = Cartridge::from_data(&data);
    assert_eq!(c.read(0x4100), 1);
    c.write(0x2000, 3);
    assert_eq!(c.read(0x4100), 1);
    assert!(c.rtc().is_none());
    c.ram()[5] = 9;
    assert_eq!(c.read(0xA005), 9);
}

#[test]
fn mbc1_bank_switching() {
    let data = rom(0x01, 8);
    let mut c = Cartridge::from_data(&data);
    c.write(0x2000, 3);
    assert_eq!(c.read(0x4100), 3);
    // Bank 0 selects bank 1.
    c.write(0x2000, 0);
    assert_eq!(c.read(0x4100), 1);
    // Out of range banks wrap around.
    c.write(0x2000, 13);
    assert_eq!(c.read(0x4100), 5);
}

#[test]
fn mbc3_ram_enable_and_banks() {
    let data = rom(0x13, 4);
    let mut c = Cartridge::from_data(&data);
    c.write(0x0000, 0x0A);
    c.write(0x4000, 2);
    c.write(0xA010, 0x55);
    assert_eq!(c.read(0xA010), 0x55);
    c.write(0x4000, 0);
    assert_eq!(c.read(0xA010), 0);
    c.write(0x4000, 2);
    assert_eq!(c.read(0xA010), 0x55);
    assert_eq!(c.ram()[2 * 0x2000 + 0x10], 0x55);
    // Bank 0 reads as bank 1 on the MBC3 too.
    c.write(0x2000, 0);
    assert_eq!(c.read(0x4100), 1);
    match &c.memory_controller.controller {
        MbcKind::Mbc13(m) => assert_eq!(m.mode, MbcMode::Mbc3),
        _ => panic!("expected an MBC3"),
    }
}

#[test]
fn mbc3_clock_latch() {
    let mut m = Mbc13::new(vec![0u8; 0x8000], MbcMode::Mbc3);
    m.write(0x6000, 0);
    m.write(0x6000, 1);
    assert_eq!(m.rtc_latch_status, gb::cartridge::RtcLatchStatus::Enabled);
    *m.rtc() = 0;
    m.write(0x0000, 0x0A);
    m.write(0x4000, 0x08);
    assert!(m.read(0xA000) < 60);
}

#[test]
fn rtc_register_values() {
    let elapsed = 3 * 86400 + 5 * 3600 + 7 * 60 + 11;
    assert_eq!(rtc_register_value(elapsed, 0x08), 11);
    assert_eq!(rtc_register_value(elapsed, 0x09), 7);
    assert_eq!(rtc_register_value(elapsed, 0x0A), 5);
    assert_eq!(rtc_register_value(elapsed, 0x0B), 3);
    assert_eq!(rtc_register_value(elapsed, 0x0C), 0);
    // $0C holds the day count shifted right by 8, masked with 1 (or $81 past 511 days).
    assert_eq!(rtc_register_value(300 * 86400, 0x0C), 1);
    assert_eq!(rtc_register_value(600 * 86400, 0x0C), 0);
    assert_eq!(rtc_register_value(768 * 86400, 0x0C), 1);
    assert_eq!(rtc_register_value(600 * 86400, 0x0B), (600 % 255) as u8);
    // A clock that runs backwards gives Rust's truncating remainders.
    assert_eq!(rtc_register_value(-61, 0x08), (-1i64) as u8);
}

#[test]
fn boot_rom_reads_its_bytes() {
    let rom = gb::cartridge::BootRom::from_bytes(vec![0x31, 0xFE, 0xFF]);
    assert_eq!(rom.read(0), 0x31);
    assert_eq!(rom.read(2), 0xFF);
}
