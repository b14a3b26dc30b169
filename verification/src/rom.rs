//! Cartridge images in the iNES format.

use vstd::prelude::*;

verus! {

/// The number of bytes in one bank of program ROM.
pub const PRG_BANK_SIZE: usize = 16384;

/// The number of bytes in one bank of character ROM.
pub const CHR_BANK_SIZE: usize = 8192;

/// The number of bytes in the header of an image.
pub const HEADER_SIZE: usize = 16;

/// The number of bytes in a trainer, which some images carry between the
/// header and the program ROM.
pub const TRAINER_SIZE: usize = 512;

/// How the cartridge wires the four name tables of the PPU to the two that
/// the video RAM holds.
#[derive(Clone, Copy, Debug, PartialEq, Eq, Structural)]
pub enum Mirroring {
    /// The lower two name tables are one, and the upper two another.
    Horizonal,
    /// The left two name tables are one, and the right two another.
    Vertical,
    /// The cartridge asks for four separate name tables.
    FourScreen,
}

/// The header of an image.
#[derive(Clone, Copy, Debug, PartialEq, Eq, Structural)]
pub struct Header {
    pub num_prg_banks: u8,
    pub num_chr_banks: u8,
    pub num_prg_ram_banks: u8,
    pub mirroring: Mirroring,
    pub mapper: u8,
    pub has_battery: bool,
    pub has_trainer: bool,
    pub is_ines_v2: bool,
}

/// The header that the bank counts and the two flag bytes, taken as one
/// little-endian word, stand for. Bit 0 of the flags selects vertical
/// mirroring and bit 3 overrides it with four screens; bit 1 tells of a
/// battery and bit 2 of a trainer; the mapper number has its low half in
/// bits 4 to 7 and its high half in bits 12 to 15.
pub open spec fn header_of(
    num_prg_banks: u8,
    num_chr_banks: u8,
    num_prg_ram_banks: u8,
    flags: u16,
) -> Header {
    Header {
        num_prg_banks,
        num_chr_banks,
        num_prg_ram_banks,
        mirroring: if (flags / 8) % 2 == 1 {
            Mirroring::FourScreen
        } else if flags % 2 == 1 {
            Mirroring::Vertical
        } else {
            Mirroring::Horizonal
        },
        mapper: ((flags / 16) % 16 + 16 * (flags / 4096)) as u8,
        has_battery: (flags / 2) % 2 == 1,
        has_trainer: (flags / 4) % 2 == 1,
        is_ines_v2: flags % 4 == 2,
    }
}

/// What the fields of the flag word are as numbers.
proof fn lemma_flag_fields(flags: u16)
    by (bit_vector)
    ensures
        (flags & 0x01 != 0) <==> flags % 2 == 1,
        (flags & 0x02 != 0) <==> (flags / 2) % 2 == 1,
        (flags & 0x04 != 0) <==> (flags / 4) % 2 == 1,
        (flags & 0x08 != 0) <==> (flags / 8) % 2 == 1,
        (flags & 0x03 == 2) <==> flags % 4 == 2,
        (flags & 0x00F0) >> 4u16 == (flags / 16) % 16,
        (flags & 0xF000) >> 8u16 == 16 * (flags / 4096),
        ((flags & 0x00F0) >> 4u16) | ((flags & 0xF000) >> 8u16) < 256,
{
}

/// The two nibbles of the mapper number, put together.
proof fn lemma_mapper_number(low: u16, high: u16)
    by (bit_vector)
    requires
        low < 16,
        high % 16 == 0,
        high < 256,
    ensures
        low | high == low + high,
{
}

impl Header {
    /// The header that the bank counts and the flag word stand for.
    pub fn new(num_prg_banks: u8, num_chr_banks: u8, num_prg_ram_banks: u8, flags: u16) -> (header:
        Header)
        ensures
            header == header_of(num_prg_banks, num_chr_banks, num_prg_ram_banks, flags),
    {
        proof {
            lemma_flag_fields(flags);
            lemma_mapper_number((flags & 0x00F0) >> 4u16, (flags & 0xF000) >> 8u16);
        }
        let mirroring = if flags & 0x08 != 0 {
            Mirroring::FourScreen
        } else if flags & 0x01 != 0 {
            Mirroring::Vertical
        } else {
            Mirroring::Horizonal
        };
        // The low and the high half of the mapper number are the top four
        // bits of the first and of the second flag byte.
        let low = (flags & 0x00F0) >> 4u16;
        let high = (flags & 0xF000) >> 8u16;
        Header {
            num_prg_banks,
            num_chr_banks,
            num_prg_ram_banks,
            mirroring,
            mapper: (low | high) as u8,
            has_battery: flags & 0x02 != 0,
            has_trainer: flags & 0x04 != 0,
            is_ines_v2: flags & 0x03 == 2,
        }
    }
}

/// The contents of an image: its header and its two ROMs.
#[derive(Debug)]
pub struct Rom {
    pub header: Header,
    /// Program ROM.
    pub prg: Vec<u8>,
    /// Character ROM.
    pub chr: Vec<u8>,
}

/// An image as plain values.
pub struct RomView {
    pub header: Header,
    pub prg: Seq<u8>,
    pub chr: Seq<u8>,
}

impl View for Rom {
    type V = RomView;

    open spec fn view(&self) -> RomView {
        RomView { header: self.header, prg: self.prg@, chr: self.chr@ }
    }
}

/// Why bytes were not accepted as an image.
#[derive(Clone, Copy, Debug, PartialEq, Eq, Structural)]
pub enum RomError {
    /// The bytes do not start with the four bytes that mark an image.
    BadMagic,
    /// The bytes end before the header, the trainer or the ROMs do.
    Truncated,
}

/// Whether `bytes` start with the mark of an image: the letters NES and
/// the byte 0x1A.
pub open spec fn has_magic(bytes: Seq<u8>) -> bool {
    bytes.len() >= 4 && bytes[0] == 0x4E && bytes[1] == 0x45 && bytes[2] == 0x53 && bytes[3]
        == 0x1A
}

/// The header that the first sixteen bytes of `bytes` hold.
pub open spec fn header_in(bytes: Seq<u8>) -> Header {
    header_of(bytes[4], bytes[5], bytes[8], (bytes[6] + 256 * bytes[7]) as u16)
}

/// Where the program ROM starts in an image with the given header.
pub open spec fn prg_start(header: Header) -> int {
    if header.has_trainer {
        528
    } else {
        16
    }
}

/// Where the character ROM starts in an image with the given header.
pub open spec fn chr_start(header: Header) -> int {
    prg_start(header) + header.num_prg_banks * 16384
}

/// Where an image with the given header ends.
pub open spec fn image_end(header: Header) -> int {
    chr_start(header) + header.num_chr_banks * 8192
}

/// What parsing `bytes` as an image gives: after the mark come the two
/// bank counts, the flag word and the count of RAM banks, and seven bytes
/// that are skipped; a trainer, if the flags tell of one, is skipped too;
/// then come the program ROM and the character ROM, each as long as its
/// bank count says. What follows them is ignored.
pub open spec fn parsed_rom(bytes: Seq<u8>) -> Result<RomView, RomError> {
    if !has_magic(bytes) {
        Err(RomError::BadMagic)
    } else if bytes.len() < 16 {
        Err(RomError::Truncated)
    } else {
        let header = header_in(bytes);
        if bytes.len() < image_end(header) {
            Err(RomError::Truncated)
        } else {
            Ok(
                RomView {
                    header,
                    prg: bytes.subrange(prg_start(header), chr_start(header)),
                    chr: bytes.subrange(chr_start(header), image_end(header)),
                },
            )
        }
    }
}

/// A copy of `count` bytes of `bytes` from `start` on.
fn copy_range(bytes: &[u8], start: usize, count: usize) -> (copy: Vec<u8>)
    requires
        start + count <= bytes@.len(),
    ensures
        copy@ == bytes@.subrange(start as int, start + count),
{
    let mut copy: Vec<u8> = Vec::new();
    let len = bytes.len();
    let mut i: usize = 0;
    while i < count
        invariant
            i <= count,
            len == bytes@.len(),
            start + count <= len,
            copy@ == bytes@.subrange(start as int, start + i),
        decreases count - i,
    {
        copy.push(bytes[start + i]);
        assert(copy@ =~= bytes@.subrange(start as int, start + i + 1));
        i += 1;
    }
    copy
}

/// Parse the contents of a file in the iNES format.
pub fn parse_rom(bytes: &[u8]) -> (parsed: Result<Rom, RomError>)
    ensures
        match parsed {
            Ok(rom) => parsed_rom(bytes@) == Ok::<RomView, RomError>(rom@),
            Err(error) => parsed_rom(bytes@) == Err::<RomView, RomError>(error),
        },
{
    let len = bytes.len();
    if len < 4 || bytes[0] != 0x4E || bytes[1] != 0x45 || bytes[2] != 0x53 || bytes[3] != 0x1A {
        return Err(RomError::BadMagic);
    }
    if len < HEADER_SIZE {
        return Err(RomError::Truncated);
    }
    let num_prg_banks = bytes[4];
    let num_chr_banks = bytes[5];
    let flags_low: u16 = bytes[6] as u16;
    let flags_high: u16 = bytes[7] as u16;
    let flags: u16 = flags_low + 256 * flags_high;
    let num_prg_ram_banks = bytes[8];
    let header = Header::new(num_prg_banks, num_chr_banks, num_prg_ram_banks, flags);
    let prg_at: usize = if header.has_trainer {
        HEADER_SIZE + TRAINER_SIZE
    } else {
        HEADER_SIZE
    };
    let prg_len: usize = num_prg_banks as usize * PRG_BANK_SIZE;
    let chr_len: usize = num_chr_banks as usize * CHR_BANK_SIZE;
    let chr_at: usize = prg_at + prg_len;
    if len < chr_at + chr_len {
        return Err(RomError::Truncated);
    }
    let prg = copy_range(bytes, prg_at, prg_len);
    let chr = copy_range(bytes, chr_at, chr_len);
    Ok(Rom { header, prg, chr })
}

impl Rom {
    /// Whether the ROMs have the sizes of the simplest kind of cartridge:
    /// 16 or 32 KiB of program ROM and 8 KiB of character ROM.
    pub fn fits_nrom(&self) -> (fits: bool)
        ensures
            fits == nrom_fits(self@),
    {
        (self.prg.len() == 0x4000 || self.prg.len() == 0x8000) && self.chr.len() == 0x2000
    }
}

/// Whether the ROMs of `rom` have the sizes of the simplest kind of
/// cartridge.
pub open spec fn nrom_fits(rom: RomView) -> bool {
    (rom.prg.len() == 0x4000 || rom.prg.len() == 0x8000) && rom.chr.len() == 0x2000
}

} // verus!
