use nes_emulator::file_format::{INESHeader, INES};

fn image(prg_banks: u8, chr_banks: u8, flags6: u8) -> Vec<u8> {
    let mut bytes = vec![0x4E, 0x45, 0x53, 0x1A, prg_banks, chr_banks, flags6, 7, 8, 9, 10, 11, 12, 13, 14, 15];
    let trainer = if flags6 & 0x04 != 0 { 512 } else { 0 };
    for i in 0..trainer {
        bytes.push(0xEE ^ (i as u8));
    }
    for i in 0..(16384 * prg_banks as usize) {
        bytes.push((i % 251) as u8);
    }
    for i in 0..(8192 * chr_banks as usize) {
        bytes.push((i % 13) as u8 + 100);
    }
    bytes
}

#[test]
fn header_fields_are_read() {
    let bytes = image(1, 1, 0);
    let header = INESHeader::from_bytes(&bytes[0..16]);
    assert!(header.nes_magic_present);
    assert_eq!(header.program_rom_size, 1);
    assert_eq!(header.char_rom_size, 1);
    assert_eq!(header.flag_group_6, 0);
    assert_eq!(header.flag_group_7, 7);
    assert_eq!(header.flag_group_10, 10);
    assert_eq!(header.extra_padding, [11, 12, 13, 14, 15]);
    assert!(!header.is_trainer_present());
}

#[test]
fn bad_magic_is_flagged_not_rejected() {
    let mut bytes = image(1, 0, 0);
    bytes[3] = 0x1B;
    assert!(INES::is_complete(&bytes));
    let rom = INES::from_bytes(bytes);
    assert!(!rom.header.nes_magic_present);
    assert_eq!(rom.program_rom.len(), 16384);
}

#[test]
fn regions_without_trainer() {
    let bytes = image(2, 1, 0);
    let rom = INES::from_bytes(bytes.clone());
    assert!(rom.trainer.is_none());
    assert_eq!(rom.program_rom, bytes[16..16 + 32768].to_vec());
    assert_eq!(rom.char_rom, bytes[16 + 32768..16 + 32768 + 8192].to_vec());
    assert!(rom.title.is_none());
    assert!(rom.play_choice_inst_rom.is_empty());
}

#[test]
fn regions_with_trainer() {
    let bytes = image(1, 1, 0x04);
    let rom = INES::from_bytes(bytes.clone());
    assert!(rom.header.is_trainer_present());
    assert_eq!(rom.trainer.unwrap(), bytes[16..528].to_vec());
    assert_eq!(rom.program_rom, bytes[528..528 + 16384].to_vec());
    assert_eq!(rom.char_rom, bytes[528 + 16384..528 + 16384 + 8192].to_vec());
}

#[test]
fn empty_char_rom() {
    let rom = INES::from_bytes(image(1, 0, 0));
    assert!(rom.char_rom.is_empty());
}

#[test]
fn short_file_is_incomplete() {
    let mut bytes = image(1, 1, 0);
    bytes.pop();
    assert!(!INES::is_complete(&bytes));
    assert!(!INES::is_complete(&bytes[0..10]));
    assert!(INES::is_complete(&image(0, 0, 0)));
}
