//! The cartridge image: a 16-byte header, then the program ROM banks, then
//! the character ROM banks.
use vstd::prelude::*;

verus! {

pub const HEADER_SIZE: usize = 16;

pub const PROGRAM_BANK_SIZE: usize = 0x4000;

pub const CHARACTER_BANK_SIZE: usize = 0x2000;

pub struct Bytes {
    pub data: Vec<u8>,
}

/// The two byte buffers that a cartridge image holds.
pub struct NesRom {
    pub program_rom: Bytes,
    pub character_rom: Bytes,
}

/// Whether `image` starts with the header magic `"NES"` followed by `0x1A`.
pub open spec fn has_magic(image: Seq<u8>) -> bool {
    image.len() >= HEADER_SIZE && image[0] == 0x4E && image[1] == 0x45 && image[2] == 0x53
        && image[3] == 0x1A
}

pub open spec fn program_len(image: Seq<u8>) -> int {
    image[4] * PROGRAM_BANK_SIZE
}

pub open spec fn character_len(image: Seq<u8>) -> int {
    image[5] * CHARACTER_BANK_SIZE
}

/// Whether `image` is a header with the magic, followed by at least as many
/// bytes as its bank counts announce.
pub open spec fn well_formed_image(image: Seq<u8>) -> bool {
    has_magic(image) && HEADER_SIZE + program_len(image) + character_len(image) <= image.len()
}

fn copy_range(image: &Vec<u8>, start: usize, len: usize) -> (r: Vec<u8>)
    requires
        start + len <= image@.len(),
    ensures
        r@ == image@.subrange(start as int, start + len),
{
    let mut out: Vec<u8> = Vec::new();
    let total = image.len();
    let mut i: usize = 0;
    while i < len
        invariant
            total == image@.len(),
            start + len <= image@.len(),
            i <= len,
            out@ == image@.subrange(start as int, start + i),
        decreases len - i,
    {
        out.push(image[start + i]);
        i = i + 1;
        assert(out@ =~= image@.subrange(start as int, start + i));
    }
    out
}

/// Splits a cartridge image into its program and character ROM; `None` when
/// the magic is missing or the image is shorter than its header announces.
pub fn load_nes(image: &Vec<u8>) -> (r: Option<NesRom>)
    ensures
        r is Some <==> well_formed_image(image@),
        r matches Some(rom) ==> {
            &&& rom.program_rom.data@ == image@.subrange(
                HEADER_SIZE as int,
                HEADER_SIZE + program_len(image@),
            )
            &&& rom.character_rom.data@ == image@.subrange(
                HEADER_SIZE + program_len(image@),
                HEADER_SIZE + program_len(image@) + character_len(image@),
            )
        },
{
    if image.len() < HEADER_SIZE {
        return None;
    }
    if image[0] != 0x4E || image[1] != 0x45 || image[2] != 0x53 || image[3] != 0x1A {
        return None;
    }
    let program_size = image[4] as usize * PROGRAM_BANK_SIZE;
    let character_size = image[5] as usize * CHARACTER_BANK_SIZE;
    if image.len() - HEADER_SIZE < program_size || image.len() - HEADER_SIZE - program_size
        < character_size {
        return None;
    }
    let program = copy_range(image, HEADER_SIZE, program_size);
    let character = copy_range(image, HEADER_SIZE + program_size, character_size);
    Some(NesRom { program_rom: Bytes { data: program }, character_rom: Bytes { data: character } })
}

} // verus!
