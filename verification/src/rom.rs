//! Cartridge images in the iNES file format.
use vstd::prelude::*;

verus! {

/// How the cartridge wires the picture unit's name tables.
#[derive(Debug, Clone, Copy, PartialEq, Eq, Structural)]
#[allow(non_camel_case_types)]
pub enum Mirroring {
    VERTICAL,
    HORIZONTAL,
    FOUR_SCREEN,
}

/// Size of one program ROM page.
pub const PRG_ROM_PAGE_SIZE: usize = 16384;

/// Size of one character ROM page.
pub const CHR_ROM_PAGE_SIZE: usize = 8192;

/// Size of the file header.
pub const HEADER_SIZE: usize = 16;

/// Size of the trainer that may follow the header.
pub const TRAINER_SIZE: usize = 512;

/// A cartridge: its program and character memory and how they are wired.
pub struct Rom {
    pub prg_rom: Vec<u8>,
    pub chr_rom: Vec<u8>,
    pub mapper: u8,
    pub screen_mirroring: Mirroring,
    pub is_chr_ram: bool,
    pub save_data: Vec<u8>,
    pub save_data_file: String,
}

/// True when a file begins with the four bytes `N`, `E`, `S`, end-of-file.
pub open spec fn has_nes_tag(raw: Seq<u8>) -> bool {
    raw.len() >= 4 && raw[0] == 0x4E && raw[1] == 0x45 && raw[2] == 0x53 && raw[3] == 0x1A
}

/// Where the program ROM starts in a file: behind the header and, if bit 2
/// of byte 6 says there is one, the trainer.
pub open spec fn prg_rom_start(raw: Seq<u8>) -> int {
    if raw[6] & 0b100 != 0 {
        HEADER_SIZE + TRAINER_SIZE
    } else {
        HEADER_SIZE as int
    }
}

/// The program ROM's size in bytes: byte 4 counts its pages.
pub open spec fn prg_rom_size(raw: Seq<u8>) -> int {
    raw[4] * PRG_ROM_PAGE_SIZE
}

/// The character ROM's size in bytes: byte 5 counts its pages.
pub open spec fn chr_rom_size(raw: Seq<u8>) -> int {
    raw[5] * CHR_ROM_PAGE_SIZE
}

/// Where the character ROM starts in a file: right behind the program ROM.
pub open spec fn chr_rom_start(raw: Seq<u8>) -> int {
    prg_rom_start(raw) + prg_rom_size(raw)
}

/// True when a file with the tag is long enough for the header and for the
/// program and character ROM that the header announces.
pub open spec fn is_complete(raw: Seq<u8>) -> bool {
    raw.len() >= HEADER_SIZE && raw.len() >= chr_rom_start(raw) + chr_rom_size(raw)
}

/// The mapper number: its high nibble in byte 7, its low nibble in the
/// high nibble of byte 6.
pub open spec fn mapper_number(raw: Seq<u8>) -> u8 {
    (raw[7] & 0b1111_0000) | (raw[6] >> 4)
}

/// The mirroring that byte 6 selects: bit 3 for four screens, else bit 0
/// for vertical, else horizontal.
pub open spec fn screen_mirroring(raw: Seq<u8>) -> Mirroring {
    if raw[6] & 0b1000 != 0 {
        Mirroring::FOUR_SCREEN
    } else if raw[6] & 0b1 != 0 {
        Mirroring::VERTICAL
    } else {
        Mirroring::HORIZONTAL
    }
}

/// The text of the error for a file without the tag.
pub open spec fn not_ines_message() -> Seq<char> {
    "File is not in iNes file format"@
}

impl Rom {
    /// True for a cartridge with nothing in it: no program and no
    /// character memory, mapper 0 with vertical mirroring, no character
    /// RAM, nothing saved and no file to save to.
    pub open spec fn holds_nothing(&self) -> bool {
        &&& self.prg_rom@ == Seq::<u8>::empty()
        &&& self.chr_rom@ == Seq::<u8>::empty()
        &&& self.mapper == 0
        &&& self.screen_mirroring == Mirroring::VERTICAL
        &&& !self.is_chr_ram
        &&& self.save_data@ == Seq::<u8>::empty()
        &&& self.save_data_file@ == Seq::<char>::empty()
    }

    /// True when `after` is this cartridge with one byte of its character
    /// memory replaced.
    pub open spec fn chr_written(&self, index: int, value: u8, after: &Rom) -> bool {
        &&& after.chr_rom@ == self.chr_rom@.update(index, value)
        &&& after.prg_rom == self.prg_rom
        &&& after.mapper == self.mapper
        &&& after.screen_mirroring == self.screen_mirroring
        &&& after.is_chr_ram == self.is_chr_ram
        &&& after.save_data == self.save_data
        &&& after.save_data_file == self.save_data_file
    }

    /// True when `new` can read the file: it is long enough to look for
    /// the tag, and if it has the tag it is complete.
    pub open spec fn readable(raw: Seq<u8>) -> bool {
        raw.len() >= 4 && (has_nes_tag(raw) ==> is_complete(raw))
    }

    /// Tests whether `new` can read the file.
    pub fn can_read(raw: &Vec<u8>) -> (ok: bool)
        ensures
            ok == Self::readable(raw@),
    {
        if raw.len() < 4 {
            return false;
        }
        if raw[0] != 0x4E || raw[1] != 0x45 || raw[2] != 0x53 || raw[3] != 0x1A {
            return true;
        }
        if raw.len() < HEADER_SIZE {
            return false;
        }
        let prg_rom_size: usize = raw[4] as usize * PRG_ROM_PAGE_SIZE;
        let chr_rom_size: usize = raw[5] as usize * CHR_ROM_PAGE_SIZE;
        let prg_rom_start: usize = HEADER_SIZE + if raw[6] & 0b100 != 0 {
            TRAINER_SIZE
        } else {
            0
        };
        raw.len() >= prg_rom_start + prg_rom_size + chr_rom_size
    }

    /// Reads a cartridge from the bytes of a file. A file without the tag
    /// is refused; nothing else is. A cartridge without character ROM gets
    /// one blank page of character RAM in its place.
    pub fn new(raw: &Vec<u8>) -> (result: Result<Rom, String>)
        requires
            Self::readable(raw@),
        ensures
            result is Ok <==> has_nes_tag(raw@),
            result matches Err(message) ==> message@ == not_ines_message(),
            result matches Ok(rom) ==> {
                &&& rom.mapper == mapper_number(raw@)
                &&& rom.screen_mirroring == screen_mirroring(raw@)
                &&& rom.prg_rom@ == raw@.subrange(
                    prg_rom_start(raw@),
                    prg_rom_start(raw@) + prg_rom_size(raw@),
                )
                &&& rom.is_chr_ram == (chr_rom_size(raw@) == 0)
                &&& rom.chr_rom@ == if chr_rom_size(raw@) == 0 {
                    Seq::new(CHR_ROM_PAGE_SIZE as nat, |i: int| 0u8)
                } else {
                    raw@.subrange(chr_rom_start(raw@), chr_rom_start(raw@) + chr_rom_size(raw@))
                }
                &&& rom.save_data@ == Seq::<u8>::empty()
                &&& rom.save_data_file@ == Seq::<char>::empty()
            },
    {
        if raw[0] != 0x4E || raw[1] != 0x45 || raw[2] != 0x53 || raw[3] != 0x1A {
            return Err("File is not in iNes file format".to_owned());
        }
        let mapper = (raw[7] & 0b1111_0000) | (raw[6] >> 4);
        let four_screen = raw[6] & 0b1000 != 0;
        let vertical_mirroring = raw[6] & 0b1 != 0;
        let screen_mirroring = match (four_screen, vertical_mirroring) {
            (true, _) => Mirroring::FOUR_SCREEN,
            (false, true) => Mirroring::VERTICAL,
            (false, false) => Mirroring::HORIZONTAL,
        };
        let prg_rom_size: usize = raw[4] as usize * PRG_ROM_PAGE_SIZE;
        let chr_rom_size: usize = raw[5] as usize * CHR_ROM_PAGE_SIZE;
        let skip_trainer = raw[6] & 0b100 != 0;
        let prg_rom_start: usize = HEADER_SIZE + if skip_trainer {
            TRAINER_SIZE
        } else {
            0
        };
        let chr_rom_start: usize = prg_rom_start + prg_rom_size;
        let chr_rom: Vec<u8> = if chr_rom_size == 0 {
            let blank_chr_ram: Vec<u8> = vec![0; CHR_ROM_PAGE_SIZE];
            assert(blank_chr_ram@ =~= Seq::new(CHR_ROM_PAGE_SIZE as nat, |i: int| 0u8));
            blank_chr_ram
        } else {
            copy_of(raw, chr_rom_start, chr_rom_start + chr_rom_size)
        };
        Ok(
            Rom {
                prg_rom: copy_of(raw, prg_rom_start, prg_rom_start + prg_rom_size),
                chr_rom,
                mapper,
                screen_mirroring,
                is_chr_ram: chr_rom_size == 0,
                save_data: Vec::new(),
                save_data_file: String::new(),
            },
        )
    }

    /// A cartridge with nothing in it.
    pub fn empty() -> (rom: Self)
        ensures
            rom.prg_rom@ == Seq::<u8>::empty(),
            rom.chr_rom@ == Seq::<u8>::empty(),
            rom.mapper == 0,
            rom.screen_mirroring == Mirroring::VERTICAL,
            !rom.is_chr_ram,
            rom.save_data@ == Seq::<u8>::empty(),
            rom.save_data_file@ == Seq::<char>::empty(),
    {
        Rom {
            prg_rom: Vec::new(),
            chr_rom: Vec::new(),
            mapper: 0,
            screen_mirroring: Mirroring::VERTICAL,
            is_chr_ram: false,
            save_data: Vec::new(),
            save_data_file: String::new(),
        }
    }
}

/// A copy of the bytes of `raw` from `start` up to `end`.
pub fn copy_of(raw: &Vec<u8>, start: usize, end: usize) -> (bytes: Vec<u8>)
    requires
        start <= end <= raw@.len(),
    ensures
        bytes@ == raw@.subrange(start as int, end as int),
{
    let mut bytes: Vec<u8> = Vec::new();
    bytes.extend_from_slice(&raw.as_slice()[start..end]);
    assert(bytes@ =~= raw@.subrange(start as int, end as int));
    bytes
}

} // verus!
