use vstd::prelude::*;

verus! {

/// The size of the iNES header.
pub const HEADER_SIZE: usize = 16;
/// The size of the optional trainer.
pub const TRAINER_SIZE: usize = 512;
/// The size of one program ROM bank.
pub const PROGRAM_BANK_SIZE: usize = 16384;
/// The size of one character ROM bank.
pub const CHAR_BANK_SIZE: usize = 8192;
/// Bit of flag group 6 that announces a trainer.
pub const TRAINER_FLAG: u8 = 0x04;

/// A cartridge image: header, optional trainer, program and character ROM.
pub struct INES {
    pub header: INESHeader,
    pub trainer: Option<Vec<u8>>,
    pub program_rom: Vec<u8>,
    pub char_rom: Vec<u8>,
    pub play_choice_inst_rom: Vec<u8>,
    pub play_choice_prom: Vec<u8>,
    pub title: Option<Vec<u8>>,
}

/// The 16-byte header of an iNES file.
pub struct INESHeader {
    pub nes_magic_present: bool,
    pub program_rom_size: u8,
    pub char_rom_size: u8,
    pub flag_group_6: u8,
    pub flag_group_7: u8,
    pub flag_group_8: u8,
    pub flag_group_9: u8,
    pub flag_group_10: u8,
    pub extra_padding: [u8; 5],
}

/// The file starts with "NES" and 0x1A.
pub open spec fn has_magic(bytes: Seq<u8>) -> bool {
    bytes[0] == 0x4E && bytes[1] == 0x45 && bytes[2] == 0x53 && bytes[3] == 0x1A
}

pub open spec fn trainer_present(bytes: Seq<u8>) -> bool {
    bytes[6] & TRAINER_FLAG != 0
}

/// Where the program ROM starts: after the header and the trainer.
pub open spec fn program_start(bytes: Seq<u8>) -> int {
    HEADER_SIZE + if trainer_present(bytes) { TRAINER_SIZE as int } else { 0 }
}

/// Where the program ROM ends and the character ROM starts.
pub open spec fn char_start(bytes: Seq<u8>) -> int {
    program_start(bytes) + PROGRAM_BANK_SIZE * bytes[4]
}

/// Where the character ROM ends.
pub open spec fn image_end(bytes: Seq<u8>) -> int {
    char_start(bytes) + CHAR_BANK_SIZE * bytes[5]
}

/// The file holds a header and every region that the header announces.
pub open spec fn is_complete_image(bytes: Seq<u8>) -> bool {
    bytes.len() >= HEADER_SIZE && bytes.len() >= image_end(bytes)
}

impl INESHeader {
    /// Reads the header from the first 16 bytes.
    pub fn from_bytes(bytes: &[u8]) -> (r: Self)
        requires
            bytes@.len() >= HEADER_SIZE,
        ensures
            r.nes_magic_present == has_magic(bytes@),
            r.program_rom_size == bytes@[4],
            r.char_rom_size == bytes@[5],
            r.flag_group_6 == bytes@[6],
            r.flag_group_7 == bytes@[7],
            r.flag_group_8 == bytes@[8],
            r.flag_group_9 == bytes@[9],
            r.flag_group_10 == bytes@[10],
            r.extra_padding@ == bytes@.subrange(11, 16),
    {
        let nes_magic_present = bytes[0] == 0x4E && bytes[1] == 0x45 && bytes[2] == 0x53 && bytes[3]
            == 0x1A;
        let extra_padding = [bytes[11], bytes[12], bytes[13], bytes[14], bytes[15]];
        assert(extra_padding@ =~= bytes@.subrange(11, 16));
        INESHeader {
            nes_magic_present,
            program_rom_size: bytes[4],
            char_rom_size: bytes[5],
            flag_group_6: bytes[6],
            flag_group_7: bytes[7],
            flag_group_8: bytes[8],
            flag_group_9: bytes[9],
            flag_group_10: bytes[10],
            extra_padding,
        }
    }

    /// Bit 2 of flag group 6 announces a 512-byte trainer.
    pub fn is_trainer_present(self: &Self) -> (r: bool)
        ensures
            r == (self.flag_group_6 & TRAINER_FLAG != 0),
    {
        (self.flag_group_6 & TRAINER_FLAG) != 0
    }
}

/// A copy of `bytes[start..end]`.
fn copy_range(bytes: &[u8], start: usize, end: usize) -> (r: Vec<u8>)
    requires
        start <= end <= bytes@.len(),
    ensures
        r@ == bytes@.subrange(start as int, end as int),
{
    let mut r: Vec<u8> = Vec::new();
    let mut i: usize = start;
    while i < end
        invariant
            start <= i <= end <= bytes@.len(),
            r@ == bytes@.subrange(start as int, i as int),
        decreases end - i,
    {
        r.push(bytes[i]);
        i = i + 1;
        assert(r@ =~= bytes@.subrange(start as int, i as int));
    }
    r
}

impl INES {
    /// Whether `bytes` holds a header and every region that it announces, as
    /// `from_bytes` needs.
    pub fn is_complete(bytes: &[u8]) -> (r: bool)
        ensures
            r == is_complete_image(bytes@),
    {
        if bytes.len() < HEADER_SIZE {
            return false;
        }
        let trainer: usize = if bytes[6] & TRAINER_FLAG != 0 { TRAINER_SIZE } else { 0 };
        let end: usize = HEADER_SIZE + trainer + PROGRAM_BANK_SIZE * bytes[4] as usize
            + CHAR_BANK_SIZE * bytes[5] as usize;
        bytes.len() >= end
    }

    /// Splits a complete image into its regions. The magic number is not
    /// required: its presence is recorded in the header.
    pub fn from_bytes(bytes: Vec<u8>) -> (r: Self)
        requires
            is_complete_image(bytes@),
        ensures
            r.header.nes_magic_present == has_magic(bytes@),
            r.header.program_rom_size == bytes@[4],
            r.header.char_rom_size == bytes@[5],
            r.header.flag_group_6 == bytes@[6],
            r.header.flag_group_7 == bytes@[7],
            r.header.flag_group_8 == bytes@[8],
            r.header.flag_group_9 == bytes@[9],
            r.header.flag_group_10 == bytes@[10],
            r.header.extra_padding@ == bytes@.subrange(11, 16),
            trainer_present(bytes@) ==> r.trainer is Some && r.trainer.unwrap()@
                == bytes@.subrange(HEADER_SIZE as int, HEADER_SIZE + TRAINER_SIZE),
            !trainer_present(bytes@) ==> r.trainer is None,
            r.program_rom@ == bytes@.subrange(program_start(bytes@), char_start(bytes@)),
            r.char_rom@ == bytes@.subrange(char_start(bytes@), image_end(bytes@)),
            r.play_choice_inst_rom@.len() == 0,
            r.play_choice_prom@.len() == 0,
            r.title is None,
    {
        let header = INESHeader::from_bytes(bytes.as_slice());
        let trainer_offset: usize = if header.is_trainer_present() { TRAINER_SIZE } else { 0 };
        let trainer = if header.is_trainer_present() {
            Some(copy_range(bytes.as_slice(), HEADER_SIZE, HEADER_SIZE + TRAINER_SIZE))
        } else {
            None
        };
        let program_start: usize = HEADER_SIZE + trainer_offset;
        let char_start: usize = program_start + PROGRAM_BANK_SIZE * header.program_rom_size as usize;
        let char_end: usize = char_start + CHAR_BANK_SIZE * header.char_rom_size as usize;

        let program_rom = copy_range(bytes.as_slice(), program_start, char_start);
        let char_rom = copy_range(bytes.as_slice(), char_start, char_end);

        INES {
            header,
            trainer,
            program_rom,
            char_rom,
            play_choice_inst_rom: Vec::new(),
            play_choice_prom: Vec::new(),
            title: None,
        }
    }
}

} // verus!
