use nes::memory::{new_memory, read_mem, write_mem};
use nes::ppu::new_ppu;
use nes::vmem::{self, new_vmem};

fn rom(size: usize) -> Vec<u8> {
    (0..size).map(|i| (i % 251) as u8).collect()
}

#[test]
fn rom_write_is_ignored() {
    let mut image = rom(0x4000);
    image[0x0500] = 0xAB;
    let mut mem = new_memory(&image);
    let mut ppu = new_ppu(&vec![]);
    let mut bus = new_vmem(&mut mem, &mut ppu);
    assert_eq!(vmem::read_mem(&mut bus, 0x8500), 0xAB);
    vmem::write_mem(&mut bus, 0x8500, 0x11);
    assert_eq!(vmem::read_mem(&mut bus, 0x8500), 0xAB);
    assert_eq!(mem.program_rom[0x0500], 0xAB);
}

#[test]
fn one_bank_rom_is_mirrored() {
    let image = rom(0x4000);
    let mut mem = new_memory(&image);
    assert_eq!(read_mem(&mut mem, 0x8000), image[0]);
    assert_eq!(read_mem(&mut mem, 0xC000), image[0]);
    assert_eq!(read_mem(&mut mem, 0xFFFF), image[0x3FFF]);
    assert_eq!(read_mem(&mut mem, 0xBFFF), image[0x3FFF]);
}

#[test]
fn two_bank_rom_is_linear() {
    let image = rom(0x8000);
    let mut mem = new_memory(&image);
    assert_eq!(read_mem(&mut mem, 0x8000), image[0]);
    assert_eq!(read_mem(&mut mem, 0xC000), image[0x4000]);
    assert_eq!(read_mem(&mut mem, 0xFFFF), image[0x7FFF]);
}

#[test]
fn ram_regions_hold_writes() {
    let mut mem = new_memory(&rom(0x4000));
    write_mem(&mut mem, 0x0000, 1);
    write_mem(&mut mem, 0x07FF, 2);
    write_mem(&mut mem, 0x4020, 3);
    write_mem(&mut mem, 0x5FFF, 4);
    write_mem(&mut mem, 0x6000, 5);
    write_mem(&mut mem, 0x7FFF, 6);
    assert_eq!(read_mem(&mut mem, 0x0000), 1);
    assert_eq!(read_mem(&mut mem, 0x07FF), 2);
    assert_eq!(read_mem(&mut mem, 0x4020), 3);
    assert_eq!(mem.ext_ram[0], 3);
    assert_eq!(read_mem(&mut mem, 0x5FFF), 4);
    assert_eq!(read_mem(&mut mem, 0x6000), 5);
    assert_eq!(mem.backup_ram[0], 5);
    assert_eq!(read_mem(&mut mem, 0x7FFF), 6);
}

#[test]
fn unmapped_addresses_read_zero() {
    let mut mem = new_memory(&rom(0x4000));
    for addr in [0x0800u16, 0x1FFF, 0x2008, 0x3FFF, 0x4000, 0x401F] {
        write_mem(&mut mem, addr, 0x77);
        assert_eq!(read_mem(&mut mem, addr), 0);
    }
    assert!(mem.wram.iter().all(|&b| b == 0));
}

#[test]
fn bus_words_are_little_endian() {
    let mut mem = new_memory(&rom(0x4000));
    let mut ppu = new_ppu(&vec![]);
    let mut bus = new_vmem(&mut mem, &mut ppu);
    vmem::write_mem_word(&mut bus, 0x0010, 0xBEEF);
    assert_eq!(vmem::read_mem(&mut bus, 0x0010), 0xEF);
    assert_eq!(vmem::read_mem(&mut bus, 0x0011), 0xBE);
    assert_eq!(vmem::read_mem_word(&mut bus, 0x0010), 0xBEEF);
}

#[test]
fn bus_routes_ports_to_the_picture_unit() {
    let mut mem = new_memory(&rom(0x4000));
    let mut ppu = new_ppu(&vec![]);
    {
        let mut bus = new_vmem(&mut mem, &mut ppu);
        vmem::write_mem(&mut bus, 0x2000, 0x90);
        vmem::write_mem(&mut bus, 0x2001, 0x1E);
        vmem::write_mem(&mut bus, 0x4014, 0x02);
    }
    assert_eq!(ppu.reg_controller, 0x90);
    assert_eq!(ppu.reg_mask, 0x1E);
    assert!(mem.wram.iter().all(|&b| b == 0));
    assert!(mem.ext_ram.iter().all(|&b| b == 0));
}
