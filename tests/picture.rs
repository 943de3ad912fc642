use nes::memory::new_memory;
use nes::ppu::{self, check_drawn, draw_bg, draw_oam, is_draw_timing, new_ppu, read_io, write_io};
use nes::vmem::{self, new_vmem};

fn pixel(buf: &[u8], x: usize, y: usize) -> [u8; 4] {
    let o = (y * 256 + x) * 4;
    [buf[o], buf[o + 1], buf[o + 2], buf[o + 3]]
}

fn set_vram(p: &mut nes::ppu::Ppu, addr: u16, value: u8) {
    write_io(p, 0x2006, (addr >> 8) as u8);
    write_io(p, 0x2006, (addr & 0xFF) as u8);
    write_io(p, 0x2007, value);
}

#[test]
fn address_latch_then_data_reads() {
    let mut chr = vec![0u8; 0x2000];
    chr[0x10] = 0x55;
    let mut mem = new_memory(&vec![0u8; 0x4000]);
    let mut p = new_ppu(&chr);
    p.vram[0x2300] = 0x42;
    p.vram[0x2301] = 0x43;
    let mut bus = new_vmem(&mut mem, &mut p);
    vmem::write_mem(&mut bus, 0x2006, 0x23);
    vmem::write_mem(&mut bus, 0x2006, 0x00);
    assert_eq!(vmem::read_mem(&mut bus, 0x2007), 0x42);
    assert_eq!(vmem::read_mem(&mut bus, 0x2007), 0x43);
}

#[test]
fn character_rom_is_copied_into_vram() {
    let chr: Vec<u8> = (0..0x2000).map(|i| (i % 253) as u8).collect();
    let p = new_ppu(&chr);
    assert_eq!(p.vram.len(), 0xFFFF);
    assert_eq!(p.vram[..0x2000], chr[..]);
    assert!(p.vram[0x2000..].iter().all(|&b| b == 0));
}

#[test]
fn data_port_writes_advance_the_latch() {
    let mut p = new_ppu(&vec![]);
    write_io(&mut p, 0x2006, 0x3F);
    write_io(&mut p, 0x2006, 0x00);
    write_io(&mut p, 0x2007, 0x0F);
    write_io(&mut p, 0x2007, 0x30);
    assert_eq!(p.vram[0x3F00], 0x0F);
    assert_eq!(p.vram[0x3F01], 0x30);
    assert_eq!(p.vram_address, 0x3F02);
}

#[test]
fn status_read_returns_old_value_and_resets_toggles() {
    let mut p = new_ppu(&vec![]);
    write_io(&mut p, 0x2006, 0x21);
    write_io(&mut p, 0x2005, 0x08);
    assert_eq!(p.vram_write_counter, 1);
    assert_eq!(p.scroll_write_counter, 1);
    assert_eq!(read_io(&mut p, 0x2002), 0x00);
    assert_eq!(p.vram_write_counter, 0);
    assert_eq!(p.scroll_write_counter, 0);
    assert_eq!(p.reg_status, 0x80);
    assert_eq!(read_io(&mut p, 0x2002), 0x80);
}

#[test]
fn scroll_latch_alternates() {
    let mut p = new_ppu(&vec![]);
    write_io(&mut p, 0x2005, 0x12);
    write_io(&mut p, 0x2005, 0x34);
    write_io(&mut p, 0x2005, 0x56);
    assert_eq!(p.h_scroll, 0x56);
    assert_eq!(p.v_scroll, 0x34);
    assert_eq!(p.scroll_write_counter, 1);
}

#[test]
fn sprite_memory_port_does_not_advance() {
    let mut p = new_ppu(&vec![]);
    write_io(&mut p, 0x2003, 0x10);
    write_io(&mut p, 0x2004, 0xAA);
    write_io(&mut p, 0x2004, 0xBB);
    assert_eq!(p.oam[0x10], 0xBB);
    assert_eq!(p.oam[0x11], 0x00);
    assert_eq!(read_io(&mut p, 0x2004), 0);
}

#[test]
fn data_port_at_last_address_wraps() {
    let mut p = new_ppu(&vec![]);
    write_io(&mut p, 0x2006, 0xFF);
    write_io(&mut p, 0x2006, 0xFF);
    assert_eq!(read_io(&mut p, 0x2007), 0);
    assert_eq!(p.vram_address, 0x0000);
}

#[test]
fn background_uses_universal_colour_for_index_zero() {
    let mut chr = vec![0u8; 0x2000];
    // pattern 1: first row has its leftmost pixel at colour 1, next at colour 3
    chr[0x10] = 0xC0;
    chr[0x18] = 0x40;
    let mut p = new_ppu(&chr);
    set_vram(&mut p, 0x3F00, 0x01);
    set_vram(&mut p, 0x3F01, 0x16);
    set_vram(&mut p, 0x3F03, 0x2A);
    set_vram(&mut p, 0x2000, 0x01);
    draw_bg(&mut p);
    assert_eq!(pixel(&p.offscreen_buffer, 0, 0), [0xFF, 0x22, 0x00, 0xFF]);
    assert_eq!(pixel(&p.offscreen_buffer, 1, 0), [0x2B, 0xF0, 0x35, 0xFF]);
    assert_eq!(pixel(&p.offscreen_buffer, 2, 0), [0x00, 0x3D, 0xA6, 0xFF]);
    assert_eq!(pixel(&p.offscreen_buffer, 8, 0), [0x00, 0x3D, 0xA6, 0xFF]);
    assert_eq!(pixel(&p.offscreen_buffer, 255, 239), [0x00, 0x3D, 0xA6, 0xFF]);
}

#[test]
fn background_pattern_table_follows_controller() {
    let mut chr = vec![0u8; 0x2000];
    chr[0x1000] = 0x80;
    let mut p = new_ppu(&chr);
    set_vram(&mut p, 0x3F01, 0x20);
    write_io(&mut p, 0x2000, 0x10);
    draw_bg(&mut p);
    assert_eq!(pixel(&p.offscreen_buffer, 0, 0), [0xFF, 0xFF, 0xFF, 0xFF]);
    assert_eq!(pixel(&p.offscreen_buffer, 8, 8), [0xFF, 0xFF, 0xFF, 0xFF]);
    assert_eq!(pixel(&p.offscreen_buffer, 1, 0), [0x80, 0x80, 0x80, 0xFF]);
}

#[test]
fn sprites_use_the_upper_palettes_and_later_sprites_win() {
    let mut chr = vec![0u8; 0x2000];
    chr[0x20] = 0x80; // pattern 2, row 0: colour 1 at column 0
    chr[0x30] = 0x80; // pattern 3, row 0: colour 1 at column 0
    chr[0x38] = 0x80; // pattern 3, row 0: and the high plane too, colour 3
    let mut p = new_ppu(&chr);
    set_vram(&mut p, 0x3F11, 0x16);
    set_vram(&mut p, 0x3F13, 0x2A);
    for (i, b) in [20u8, 2, 0, 10, 20, 3, 0, 10, 239, 2, 0, 252].iter().enumerate() {
        write_io(&mut p, 0x2003, i as u8);
        write_io(&mut p, 0x2004, *b);
    }
    draw_bg(&mut p);
    draw_oam(&mut p);
    // the second sprite at the same place hides the first one
    assert_eq!(pixel(&p.offscreen_buffer, 10, 20), [0x2B, 0xF0, 0x35, 0xFF]);
    assert_eq!(pixel(&p.offscreen_buffer, 11, 20), [0x80, 0x80, 0x80, 0xFF]);
    // a sprite near the corner is clipped, not wrapped
    assert_eq!(pixel(&p.offscreen_buffer, 252, 239), [0xFF, 0x22, 0x00, 0xFF]);
    assert_eq!(pixel(&p.offscreen_buffer, 0, 0), [0x80, 0x80, 0x80, 0xFF]);
}

#[test]
fn frame_becomes_ready_once_per_sweep() {
    let mut p = new_ppu(&vec![]);
    let mut canvas = vec![0u8; 256 * 240 * 4];
    let calls = (341 * 262 + 2) / 3;
    let mut transitions = 0;
    let mut ready_at = 0;
    let mut was_ready = is_draw_timing(&p);
    for call in 0..calls {
        ppu::run(&mut canvas, &mut p);
        let ready = is_draw_timing(&p);
        if ready && !was_ready {
            transitions += 1;
            ready_at = call;
        }
        was_ready = ready;
    }
    assert_eq!(transitions, 1);
    assert_eq!(ready_at, 241 * 262 / 3);
}

#[test]
fn consumed_frame_is_not_ready_again_until_rearmed() {
    let mut p = new_ppu(&vec![]);
    let mut canvas = vec![0u8; 256 * 240 * 4];
    while !is_draw_timing(&p) {
        ppu::run(&mut canvas, &mut p);
    }
    check_drawn(&mut p);
    assert_eq!(p.rendering_status, 2);
    for _ in 0..(15 * 262 / 3) {
        ppu::run(&mut canvas, &mut p);
        assert!(!is_draw_timing(&p));
    }
    assert_eq!(p.reg_status & 0x80, 0);
    while p.cycle / 262 < 262 {
        ppu::run(&mut canvas, &mut p);
    }
    assert_eq!(p.rendering_status, 0);
    assert_eq!(p.reg_status & 0x80, 0x80);
}

#[test]
fn run_flushes_rendered_pixels_to_canvas() {
    let mut p = new_ppu(&vec![]);
    set_vram(&mut p, 0x3F00, 0x01);
    let mut canvas = vec![0u8; 256 * 240 * 4];
    ppu::run(&mut canvas, &mut p);
    assert_eq!(p.cycle, 3);
    assert_eq!(pixel(&canvas, 0, 0), [0x00, 0x3D, 0xA6, 0xFF]);
    assert_eq!(pixel(&canvas, 2, 0), [0x00, 0x3D, 0xA6, 0xFF]);
    assert_eq!(pixel(&canvas, 3, 0), [0, 0, 0, 0]);
    // the counter's lines are 262 dots wide: dot 262 is pixel (0, 1)
    for _ in 0..89 {
        ppu::run(&mut canvas, &mut p);
    }
    assert_eq!(p.cycle, 270);
    assert_eq!(pixel(&canvas, 255, 0), [0x00, 0x3D, 0xA6, 0xFF]);
    assert_eq!(pixel(&canvas, 7, 1), [0x00, 0x3D, 0xA6, 0xFF]);
    assert_eq!(pixel(&canvas, 8, 1), [0, 0, 0, 0]);
}

#[test]
fn longer_canvas_keeps_its_tail() {
    let mut p = new_ppu(&vec![]);
    set_vram(&mut p, 0x3F00, 0x01);
    let mut canvas = vec![0x77u8; 256 * 240 * 4 + 8];
    for _ in 0..(240 * 262 / 3) {
        ppu::run(&mut canvas, &mut p);
    }
    assert_eq!(pixel(&canvas, 255, 239), [0x00, 0x3D, 0xA6, 0xFF]);
    assert!(canvas[256 * 240 * 4..].iter().all(|&b| b == 0x77));
}
