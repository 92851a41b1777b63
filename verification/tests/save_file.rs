use gb::save_file::save_file_name;

#[test]
fn save_files_replace_the_rom_extension() {
    assert_eq!(save_file_name(b"tetris.gb"), Some(b"tetris.srm".to_vec()));
    assert_eq!(save_file_name(b"roms/pokemon.red.gbc"), Some(b"roms/pokemon.red.srm".to_vec()));
    assert_eq!(save_file_name(b"gb"), Some(b"srm".to_vec()));
    assert_eq!(save_file_name(b".gb"), Some(b".srm".to_vec()));
}

#[test]
fn other_names_are_refused() {
    assert_eq!(save_file_name(b"tetris.zip"), None);
    assert_eq!(save_file_name(b"tetris"), None);
    assert_eq!(save_file_name(b"tetris.gb.bak"), None);
    assert_eq!(save_file_name(b""), None);
    assert_eq!(save_file_name(b"tetris.GB"), None);
}
