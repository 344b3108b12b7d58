use nes_emulator::integration_tests::is_program_file_name;

#[test]
fn bin_files_are_programs() {
    assert!(is_program_file_name("write_first_0xff.bin"));
    assert!(is_program_file_name(".bin"));
    assert!(!is_program_file_name("notes.txt"));
    assert!(!is_program_file_name("binary"));
    assert!(!is_program_file_name("a_bin"));
}
