//! The bus: the one address space the CPU sees. It routes the picture unit's
//! ports to the picture unit and every other address to memory.
use vstd::prelude::*;

use crate::memory::{mem_read_spec, mem_write_spec, Memory, MemoryView};
use crate::ppu::{
    next_address, read_io, read_io_spec, vram_at, write_io, write_io_spec, Ppu, PpuView,
};

verus! {

/// Borrows of the memory and the picture unit for one driving step.
pub struct Vmem<'a, 'b> {
    pub mem: &'a mut Memory,
    pub ppu: &'b mut Ppu,
}

/// The state behind a bus: memory and picture unit.
pub struct BusView {
    pub mem: MemoryView,
    pub ppu: PpuView,
}

impl<'a, 'b> View for Vmem<'a, 'b> {
    type V = BusView;

    open spec fn view(&self) -> BusView {
        BusView { mem: (*self.mem)@, ppu: (*self.ppu)@ }
    }
}

impl BusView {
    pub open spec fn wf(self) -> bool {
        self.mem.wf() && self.ppu.wf()
    }
}

/// The addresses that reach the picture unit's ports.
pub open spec fn is_ppu_port(addr: u16) -> bool {
    (0x2000 <= addr < 0x2008) || addr == 0x4014
}

/// The little-endian word of two bytes.
pub open spec fn word(lo: u8, hi: u8) -> u16 {
    (hi as int * 0x100 + lo as int) as u16
}

pub open spec fn low_byte(w: u16) -> u8 {
    (w % 0x100) as u8
}

pub open spec fn high_byte(w: u16) -> u8 {
    (w / 0x100) as u8
}

/// A read of `addr` through the bus: the state after it and the byte read.
pub open spec fn bus_read(b: BusView, addr: u16) -> (BusView, u8) {
    if is_ppu_port(addr) {
        let (p, v) = read_io_spec(b.ppu, addr);
        (BusView { ppu: p, ..b }, v)
    } else {
        (b, mem_read_spec(b.mem, addr))
    }
}

/// The state after a write of `value` to `addr` through the bus.
pub open spec fn bus_write(b: BusView, addr: u16, value: u8) -> BusView {
    if is_ppu_port(addr) {
        BusView { ppu: write_io_spec(b.ppu, addr, value), ..b }
    } else {
        BusView { mem: mem_write_spec(b.mem, addr, value), ..b }
    }
}

/// Two reads, low byte at `addr` first, high byte at the next address.
pub open spec fn bus_read_word(b: BusView, addr: u16) -> (BusView, u16) {
    let (b1, lo) = bus_read(b, addr);
    let (b2, hi) = bus_read(b1, next_address(addr));
    (b2, word(lo, hi))
}

/// Two writes, low byte to `addr` first, high byte to the next address.
pub open spec fn bus_write_word(b: BusView, addr: u16, data: u16) -> BusView {
    bus_write(bus_write(b, addr, low_byte(data)), next_address(addr), high_byte(data))
}

pub proof fn lemma_word_bits(lo: u8, hi: u8)
    ensures
        ((hi as u16) << 8u16) | (lo as u16) == word(lo, hi),
{
    assert(((hi as u16) << 8u16) | (lo as u16) == (hi as int * 0x100 + lo as int) as u16)
        by (bit_vector);
}

pub proof fn lemma_split_bits(w: u16)
    ensures
        (w & 0xFF) as u8 == low_byte(w),
        ((w & 0xFF00) >> 8u16) as u8 == high_byte(w),
{
    assert((w & 0xFF) as u8 == (w % 0x100) as u8) by (bit_vector);
    assert(((w & 0xFF00) >> 8u16) as u8 == (w / 0x100) as u8) by (bit_vector);
}

pub fn new_vmem<'a, 'b>(mem: &'a mut Memory, ppu: &'b mut Ppu) -> (r: Vmem<'a, 'b>)
    ensures
        *r.mem == *old(mem),
        *r.ppu == *old(ppu),
        *final(mem) == *final(r.mem),
        *final(ppu) == *final(r.ppu),
{
    Vmem { mem, ppu }
}

pub fn read_mem(mem: &mut Vmem, addr: u16) -> (value: u8)
    requires
        old(mem)@.wf(),
    ensures
        (final(mem)@, value) == bus_read(old(mem)@, addr),
        final(mem)@.wf(),
        *final(final(mem).mem) == *final(old(mem).mem),
        *final(final(mem).ppu) == *final(old(mem).ppu),
{
    if (addr >= 0x2000 && addr < 0x2008) || addr == 0x4014 {
        read_io(mem.ppu, addr)
    } else {
        crate::memory::read_mem(mem.mem, addr)
    }
}

pub fn write_mem(mem: &mut Vmem, addr: u16, value: u8)
    requires
        old(mem)@.wf(),
    ensures
        final(mem)@ == bus_write(old(mem)@, addr, value),
        final(mem)@.wf(),
        *final(final(mem).mem) == *final(old(mem).mem),
        *final(final(mem).ppu) == *final(old(mem).ppu),
{
    if (addr >= 0x2000 && addr < 0x2008) || addr == 0x4014 {
        write_io(mem.ppu, addr, value);
    } else {
        crate::memory::write_mem(mem.mem, addr, value);
    }
}

pub fn read_mem_word(vmem: &mut Vmem, addr: u16) -> (data: u16)
    requires
        old(vmem)@.wf(),
    ensures
        (final(vmem)@, data) == bus_read_word(old(vmem)@, addr),
        final(vmem)@.wf(),
        *final(final(vmem).mem) == *final(old(vmem).mem),
        *final(final(vmem).ppu) == *final(old(vmem).ppu),
{
    let lo = read_mem(vmem, addr);
    let hi = read_mem(vmem, addr.wrapping_add(1));
    proof {
        lemma_word_bits(lo, hi);
    }
    ((hi as u16) << 8u16) | (lo as u16)
}

pub fn write_mem_word(vmem: &mut Vmem, addr: u16, data: u16)
    requires
        old(vmem)@.wf(),
    ensures
        final(vmem)@ == bus_write_word(old(vmem)@, addr, data),
        final(vmem)@.wf(),
        *final(final(vmem).mem) == *final(old(vmem).mem),
        *final(final(vmem).ppu) == *final(old(vmem).ppu),
{
    proof {
        lemma_split_bits(data);
    }
    write_mem(vmem, addr, (data & 0xFF) as u8);
    write_mem(vmem, addr.wrapping_add(1), ((data & 0xFF00) >> 8u16) as u8);
}

/// Program ROM is read-only: a write at or above `0x8000` changes nothing,
/// so a read of the same address afterwards returns the ROM byte.
pub proof fn lemma_rom_write_ignored(b: BusView, addr: u16, value: u8)
    requires
        addr >= 0x8000,
    ensures
        bus_write(b, addr, value) == b,
        bus_read(bus_write(b, addr, value), addr) == bus_read(b, addr),
{
}

/// With the address latch expecting its high byte, two writes to `0x2006`
/// (high, then low) aim the data port: a read of `0x2007` returns the video
/// RAM byte there, and the next read the byte after it.
pub proof fn lemma_address_latch(b: BusView, hi: u8, lo: u8)
    requires
        b.wf(),
        b.ppu.vram_write_counter == 0,
    ensures
        ({
            let b1 = bus_write(bus_write(b, 0x2006, hi), 0x2006, lo);
            let (b2, v1) = bus_read(b1, 0x2007);
            let (b3, v2) = bus_read(b2, 0x2007);
            &&& v1 == vram_at(b.ppu.vram, word(lo, hi))
            &&& v2 == vram_at(b.ppu.vram, next_address(word(lo, hi)))
        }),
{
    assert((((hi as u16) * 0x100) as u16 | (lo as u16)) as u16 == word(lo, hi)) by (bit_vector);
}

} // verus!
