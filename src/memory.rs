//! The CPU-side memory map: work RAM, extended RAM, battery-backed RAM and
//! program ROM.
use vstd::prelude::*;

verus! {

pub const WRAM_SIZE: usize = 0x0800;

pub const EXT_RAM_SIZE: usize = 0x1FE0;

pub const BACKUP_RAM_SIZE: usize = 0x2000;

/// Size of a program ROM with one bank; the bank is mirrored at `0xC000`.
pub const ROM_BANK_SIZE: usize = 0x4000;

/// Size of a program ROM with two banks.
pub const ROM_FULL_SIZE: usize = 0x8000;

pub struct Memory {
    pub wram: Vec<u8>,
    pub ext_ram: Vec<u8>,
    pub backup_ram: Vec<u8>,
    pub program_rom: Vec<u8>,
}

/// The contents of the four stores of a `Memory`.
pub struct MemoryView {
    pub wram: Seq<u8>,
    pub ext_ram: Seq<u8>,
    pub backup_ram: Seq<u8>,
    pub program_rom: Seq<u8>,
}

impl View for Memory {
    type V = MemoryView;

    open spec fn view(&self) -> MemoryView {
        MemoryView {
            wram: self.wram@,
            ext_ram: self.ext_ram@,
            backup_ram: self.backup_ram@,
            program_rom: self.program_rom@,
        }
    }
}

pub open spec fn valid_rom_len(len: nat) -> bool {
    len == ROM_BANK_SIZE || len == ROM_FULL_SIZE
}

impl MemoryView {
    /// Each store has its fixed size, and the ROM is one bank or two.
    pub open spec fn wf(self) -> bool {
        &&& self.wram.len() == WRAM_SIZE
        &&& self.ext_ram.len() == EXT_RAM_SIZE
        &&& self.backup_ram.len() == BACKUP_RAM_SIZE
        &&& valid_rom_len(self.program_rom.len())
    }
}

/// Offset into program ROM of an address at or above `0x8000`: a one-bank ROM
/// is seen twice, a two-bank ROM once.
pub open spec fn rom_offset(rom_len: nat, addr: u16) -> int {
    if addr >= 0xC000 && rom_len == ROM_BANK_SIZE {
        addr - 0xC000
    } else {
        addr - 0x8000
    }
}

/// The byte that a read of `addr` yields; unmapped addresses read as zero.
pub open spec fn mem_read_spec(m: MemoryView, addr: u16) -> u8 {
    if addr < 0x0800 {
        m.wram[addr as int]
    } else if 0x4020 <= addr < 0x6000 {
        m.ext_ram[addr - 0x4020]
    } else if 0x6000 <= addr < 0x8000 {
        m.backup_ram[addr - 0x6000]
    } else if addr >= 0x8000 {
        m.program_rom[rom_offset(m.program_rom.len(), addr)]
    } else {
        0
    }
}

/// The memory after a write of `value` to `addr`: RAM takes it, ROM and
/// unmapped addresses ignore it.
pub open spec fn mem_write_spec(m: MemoryView, addr: u16, value: u8) -> MemoryView {
    if addr < 0x0800 {
        MemoryView { wram: m.wram.update(addr as int, value), ..m }
    } else if 0x4020 <= addr < 0x6000 {
        MemoryView { ext_ram: m.ext_ram.update(addr - 0x4020, value), ..m }
    } else if 0x6000 <= addr < 0x8000 {
        MemoryView { backup_ram: m.backup_ram.update(addr - 0x6000, value), ..m }
    } else {
        m
    }
}

/// Builds the memory map around a program ROM of one or two banks, with all
/// RAM cleared.
pub fn new_memory(rom_data: &Vec<u8>) -> (r: Memory)
    requires
        valid_rom_len(rom_data@.len()),
    ensures
        r@.wf(),
        r@.program_rom == rom_data@,
        forall|i: int| 0 <= i < WRAM_SIZE ==> r@.wram[i] == 0,
        forall|i: int| 0 <= i < EXT_RAM_SIZE ==> r@.ext_ram[i] == 0,
        forall|i: int| 0 <= i < BACKUP_RAM_SIZE ==> r@.backup_ram[i] == 0,
{
    Memory {
        wram: vec![0u8; WRAM_SIZE],
        ext_ram: vec![0u8; EXT_RAM_SIZE],
        backup_ram: vec![0u8; BACKUP_RAM_SIZE],
        program_rom: rom_data.clone(),
    }
}

/// Reads `addr`; reading has no effect on memory.
pub fn read_mem(mem: &mut Memory, addr: u16) -> (value: u8)
    requires
        old(mem)@.wf(),
    ensures
        value == mem_read_spec(old(mem)@, addr),
        *final(mem) == *old(mem),
{
    if addr < 0x0800 {
        mem.wram[addr as usize]
    } else if addr < 0x4020 {
        // unmapped, the picture unit's ports, and the I/O registers
        0
    } else if addr < 0x6000 {
        mem.ext_ram[(addr - 0x4020) as usize]
    } else if addr < 0x8000 {
        mem.backup_ram[(addr - 0x6000) as usize]
    } else if addr >= 0xC000 && mem.program_rom.len() == ROM_BANK_SIZE {
        mem.program_rom[(addr - 0xC000) as usize]
    } else {
        mem.program_rom[(addr - 0x8000) as usize]
    }
}

pub fn write_mem(mem: &mut Memory, addr: u16, value: u8)
    requires
        old(mem)@.wf(),
    ensures
        final(mem)@ == mem_write_spec(old(mem)@, addr, value),
        final(mem)@.wf(),
{
    if addr < 0x0800 {
        mem.wram.set(addr as usize, value);
    } else if addr < 0x4020 {
        // unmapped, the picture unit's ports, and the I/O registers
    } else if addr < 0x6000 {
        mem.ext_ram.set((addr - 0x4020) as usize, value);
    } else if addr < 0x8000 {
        mem.backup_ram.set((addr - 0x6000) as usize, value);
    } else {
        // program ROM is read-only
    }
}

} // verus!
