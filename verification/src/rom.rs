//! The cartridge-image parser. An image holds a 4-byte magic tag, a byte
//! giving the count of program pages, a byte giving the count of character
//! pages, two flag bytes (mirroring mode, mapper nibbles, trainer presence,
//! format version), an optional 512-byte trainer, then the program pages and
//! the character pages. Only format version 0 is accepted.

use vstd::prelude::*;

verus! {

broadcast use vstd::string::to_string_from_display_ensures_for_str;

/// Bytes per program page.
pub const PRG_ROM_PAGE_SIZE: usize = 16384;
/// Bytes per character page.
pub const CHR_ROM_PAGE_SIZE: usize = 8192;

/// How the cartridge asks the console to mirror its name tables.
#[allow(non_camel_case_types)]
#[derive(Clone, Copy, Debug, PartialEq, Eq, Structural)]
pub enum Mirroring {
    VERTICAL,
    HORIZONTAL,
    FOUR_SCREEN,
}

/// A parsed cartridge image: program pages, character pages, the mapper
/// number, and the screen mirroring mode.
pub struct Rom {
    pub prg_rom: Vec<u8>,
    pub chr_rom: Vec<u8>,
    pub mapper: u8,
    pub screen_mirroring: Mirroring,
}

/// The image begins with the magic tag `N`, `E`, `S`, `0x1A`.
pub open spec fn spec_has_tag(raw: Seq<u8>) -> bool {
    raw.len() >= 16 && raw[0] == 0x4E && raw[1] == 0x45 && raw[2] == 0x53 && raw[3] == 0x1A
}

/// The format version encoded in bits 2 and 3 of the second flag byte.
pub open spec fn spec_version(raw: Seq<u8>) -> u8 {
    (raw[7] >> 2) & 0b11
}

/// The mapper number: high nibble from the second flag byte, low nibble
/// from the first.
pub open spec fn spec_mapper(raw: Seq<u8>) -> u8 {
    (raw[7] & 0b1111_0000) | (raw[6] >> 4)
}

/// The mirroring mode: the four-screen bit wins over the vertical bit.
pub open spec fn spec_mirroring(raw: Seq<u8>) -> Mirroring {
    if raw[6] & 0b1000 != 0 {
        Mirroring::FOUR_SCREEN
    } else if raw[6] & 0b1 != 0 {
        Mirroring::VERTICAL
    } else {
        Mirroring::HORIZONTAL
    }
}

/// Total bytes of program pages.
pub open spec fn spec_prg_size(raw: Seq<u8>) -> int {
    raw[4] * PRG_ROM_PAGE_SIZE
}

/// Total bytes of character pages.
pub open spec fn spec_chr_size(raw: Seq<u8>) -> int {
    raw[5] * CHR_ROM_PAGE_SIZE
}

/// Where the program pages start: after the header and the optional
/// 512-byte trainer.
pub open spec fn spec_prg_start(raw: Seq<u8>) -> int {
    if raw[6] & 0b100 != 0 {
        528int
    } else {
        16int
    }
}

/// Where the character pages start.
pub open spec fn spec_chr_start(raw: Seq<u8>) -> int {
    spec_prg_start(raw) + spec_prg_size(raw)
}

/// A well-formed image: the tag is present, the version is the original
/// format, and the data is as long as the header declares.
pub open spec fn spec_ines_ok(raw: Seq<u8>) -> bool {
    &&& spec_has_tag(raw)
    &&& spec_version(raw) == 0
    &&& spec_chr_start(raw) + spec_chr_size(raw) <= raw.len()
}

/// The message reported for a rejected image, in the order the checks run:
/// the tag, then the version, then the declared length.
pub open spec fn spec_rom_error(raw: Seq<u8>) -> Seq<char> {
    if !spec_has_tag(raw) {
        "File isn't in iNES format"@
    } else if spec_version(raw) != 0 {
        "NES2.0 format isn't supported"@
    } else {
        "File is shorter than its header declares"@
    }
}

/// Copies `count` bytes of `raw` starting at `start` into a fresh vector.
fn copy_range(raw: &[u8], start: usize, count: usize) -> (r: Vec<u8>)
    requires
        start + count <= raw@.len(),
        start + count <= usize::MAX,
    ensures
        r@ == raw@.subrange(start as int, start + count),
{
    let mut out: Vec<u8> = Vec::new();
    let mut i: usize = 0;
    while i < count
        invariant
            start + count <= raw@.len(),
            start + count <= usize::MAX,
            i <= count,
            out@.len() == i,
            forall|j: int| 0 <= j < i ==> out@[j] == raw@[start + j],
        decreases count - i,
    {
        out.push(raw[start + i]);
        i = i + 1;
    }
    proof {
        assert(out@ =~= raw@.subrange(start as int, start + count));
    }
    out
}

impl Rom {
    /// Parses a cartridge image. A malformed image (bad tag, unsupported
    /// version, or data shorter than the header declares) is rejected with
    /// a message and no state is built.
    pub fn new(raw: &[u8]) -> (r: Result<Rom, String>)
        ensures
            r is Ok <==> spec_ines_ok(raw@),
            r matches Ok(rom) ==> {
                &&& rom.mapper == spec_mapper(raw@)
                &&& rom.screen_mirroring == spec_mirroring(raw@)
                &&& rom.prg_rom@ == raw@.subrange(
                    spec_prg_start(raw@),
                    spec_prg_start(raw@) + spec_prg_size(raw@),
                )
                &&& rom.chr_rom@ == raw@.subrange(
                    spec_chr_start(raw@),
                    spec_chr_start(raw@) + spec_chr_size(raw@),
                )
            },
            r matches Err(m) ==> m@ == spec_rom_error(raw@),
    {
        if raw.len() < 16 || raw[0] != 0x4E || raw[1] != 0x45 || raw[2] != 0x53 || raw[3]
            != 0x1A {
            return Err("File isn't in iNES format".to_string());
        }
        let mapper = (raw[7] & 0b1111_0000) | (raw[6] >> 4);

        let ines_ver = (raw[7] >> 2) & 0b11;
        if ines_ver != 0 {
            return Err("NES2.0 format isn't supported".to_string());
        }
        let four_screen = raw[6] & 0b1000 != 0;
        let vertical_mirroring = raw[6] & 0b1 != 0;
        let screen_mirroring = if four_screen {
            Mirroring::FOUR_SCREEN
        } else if vertical_mirroring {
            Mirroring::VERTICAL
        } else {
            Mirroring::HORIZONTAL
        };

        let prg_rom_size = raw[4] as usize * PRG_ROM_PAGE_SIZE;
        let chr_rom_size = raw[5] as usize * CHR_ROM_PAGE_SIZE;

        let trainer = raw[6] & 0b100 != 0;

        let prg_rom_start = 16 + if trainer {
            512
        } else {
            0
        };
        let chr_rom_start = prg_rom_start + prg_rom_size;

        if chr_rom_start + chr_rom_size > raw.len() {
            return Err("File is shorter than its header declares".to_string());
        }

        Ok(
            Rom {
                mapper,
                prg_rom: copy_range(raw, prg_rom_start, prg_rom_size),
                chr_rom: copy_range(raw, chr_rom_start, chr_rom_size),
                screen_mirroring,
            },
        )
    }
}

} // verus!
