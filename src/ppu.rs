//! The picture unit: its ports as seen from the CPU, its dot counter, and the
//! painting of background tiles and sprites.
use vstd::prelude::*;

use crate::palette::{palette_entry, palette_rgb};

verus! {

pub const VRAM_SIZE: usize = 0xFFFF;

pub const OAM_SIZE: usize = 0x100;

pub const SCREEN_WIDTH: usize = 256;

pub const SCREEN_HEIGHT: usize = 240;

/// Bytes in a frame: four (red, green, blue, alpha) per pixel.
pub const FRAME_BYTES: usize = 256 * 240 * 4;

/// Dots in one sweep of the counter, after which it wraps to zero.
pub const DOTS_PER_FRAME: u32 = 341 * 262;

/// Width of a line of the dot counter.
pub const DOTS_PER_LINE: u32 = 262;

pub const STATUS_VBLANK: u8 = 0x80;

/// Rendering status: a frame is being drawn.
pub const RENDER_DRAWING: u8 = 0;

/// Rendering status: a frame is ready to present.
pub const RENDER_READY: u8 = 1;

/// Rendering status: presentation has taken the frame.
pub const RENDER_CONSUMED: u8 = 2;

pub const PALETTE_BASE: u16 = 0x3F00;

pub const NAMETABLE_BASE: u16 = 0x2000;

pub const BG_PALETTE_OFFSET: u8 = 0x00;

pub const SPRITE_PALETTE_OFFSET: u8 = 0x10;

pub struct Ppu {
    pub vram: Vec<u8>,
    pub oam: Vec<u8>,
    pub offscreen_buffer: Vec<u8>,
    pub vram_address: u16,
    pub vram_write_counter: u8,
    pub h_scroll: u8,
    pub v_scroll: u8,
    pub scroll_write_counter: u8,
    pub oam_address: u8,
    pub reg_controller: u8,
    pub reg_mask: u8,
    pub reg_status: u8,
    pub cycle: u32,
    pub rendering_status: u8,
}

/// The state of a `Ppu`, with its stores as sequences.
pub struct PpuView {
    pub vram: Seq<u8>,
    pub oam: Seq<u8>,
    pub offscreen: Seq<u8>,
    pub vram_address: u16,
    pub vram_write_counter: u8,
    pub h_scroll: u8,
    pub v_scroll: u8,
    pub scroll_write_counter: u8,
    pub oam_address: u8,
    pub reg_controller: u8,
    pub reg_mask: u8,
    pub reg_status: u8,
    pub cycle: u32,
    pub rendering_status: u8,
}

impl View for Ppu {
    type V = PpuView;

    open spec fn view(&self) -> PpuView {
        PpuView {
            vram: self.vram@,
            oam: self.oam@,
            offscreen: self.offscreen_buffer@,
            vram_address: self.vram_address,
            vram_write_counter: self.vram_write_counter,
            h_scroll: self.h_scroll,
            v_scroll: self.v_scroll,
            scroll_write_counter: self.scroll_write_counter,
            oam_address: self.oam_address,
            reg_controller: self.reg_controller,
            reg_mask: self.reg_mask,
            reg_status: self.reg_status,
            cycle: self.cycle,
            rendering_status: self.rendering_status,
        }
    }
}

impl PpuView {
    /// The stores have their fixed sizes, each write-order toggle is 0 or 1,
    /// and the dot counter is inside a sweep.
    pub open spec fn wf(self) -> bool {
        &&& self.vram.len() == VRAM_SIZE
        &&& self.oam.len() == OAM_SIZE
        &&& self.offscreen.len() == FRAME_BYTES
        &&& self.vram_write_counter <= 1
        &&& self.scroll_write_counter <= 1
        &&& self.cycle < DOTS_PER_FRAME
    }
}

/// The video RAM byte at `addr`; the one address past the store reads as zero.
pub open spec fn vram_at(vram: Seq<u8>, addr: u16) -> u8 {
    if addr < VRAM_SIZE {
        vram[addr as int]
    } else {
        0
    }
}

/// The address after `addr`, wrapping to zero past `0xFFFF`.
pub open spec fn next_address(addr: u16) -> u16 {
    if addr == 0xFFFF {
        0
    } else {
        (addr + 1) as u16
    }
}

/// What a CPU read of port `addr` returns, and the picture unit after it.
/// Reading the status returns it as it was, then leaves the vblank bit set
/// and both write-order toggles at zero; reading the data port returns the
/// video RAM byte under the address latch and advances the latch.
pub open spec fn read_io_spec(p: PpuView, addr: u16) -> (PpuView, u8) {
    if addr == 0x2002 {
        (
            PpuView {
                reg_status: p.reg_status | STATUS_VBLANK,
                scroll_write_counter: 0,
                vram_write_counter: 0,
                ..p
            },
            p.reg_status,
        )
    } else if addr == 0x2007 {
        (
            PpuView { vram_address: next_address(p.vram_address), ..p },
            vram_at(p.vram, p.vram_address),
        )
    } else {
        (p, 0)
    }
}

/// The picture unit after a CPU write of `value` to port `addr`.
pub open spec fn write_io_spec(p: PpuView, addr: u16, value: u8) -> PpuView {
    if addr == 0x2000 {
        PpuView { reg_controller: value, ..p }
    } else if addr == 0x2001 {
        PpuView { reg_mask: value, ..p }
    } else if addr == 0x2003 {
        PpuView { oam_address: value, ..p }
    } else if addr == 0x2004 {
        PpuView { oam: p.oam.update(p.oam_address as int, value), ..p }
    } else if addr == 0x2005 {
        if p.scroll_write_counter == 0 {
            PpuView { h_scroll: value, scroll_write_counter: 1, ..p }
        } else {
            PpuView { v_scroll: value, scroll_write_counter: 0, ..p }
        }
    } else if addr == 0x2006 {
        if p.vram_write_counter == 0 {
            PpuView { vram_address: ((value as u16) * 0x100) as u16, vram_write_counter: 1, ..p }
        } else {
            PpuView {
                vram_address: (p.vram_address | (value as u16)) as u16,
                vram_write_counter: 0,
                ..p
            }
        }
    } else if addr == 0x2007 {
        PpuView {
            vram: if p.vram_address < VRAM_SIZE {
                p.vram.update(p.vram_address as int, value)
            } else {
                p.vram
            },
            vram_address: next_address(p.vram_address),
            ..p
        }
    } else {
        p
    }
}

/// Builds a picture unit whose video RAM starts with the character data and
/// is zero after it; all registers, counters and other stores are zero.
pub fn new_ppu(rom_data: &Vec<u8>) -> (r: Ppu)
    requires
        rom_data@.len() <= 0x2000,
    ensures
        r@.wf(),
        forall|i: int| 0 <= i < VRAM_SIZE ==> #[trigger] r@.vram[i] == if i < rom_data@.len() {
            rom_data@[i]
        } else {
            0
        },
        forall|i: int| 0 <= i < OAM_SIZE ==> r@.oam[i] == 0,
        forall|i: int| 0 <= i < FRAME_BYTES ==> r@.offscreen[i] == 0,
        r.vram_address == 0,
        r.vram_write_counter == 0,
        r.h_scroll == 0,
        r.v_scroll == 0,
        r.scroll_write_counter == 0,
        r.oam_address == 0,
        r.reg_controller == 0,
        r.reg_mask == 0,
        r.reg_status == 0,
        r.cycle == 0,
        r.rendering_status == RENDER_DRAWING,
{
    let mut vram = vec![0u8; VRAM_SIZE];
    let mut i: usize = 0;
    while i < rom_data.len()
        invariant
            rom_data@.len() <= 0x2000,
            i <= rom_data@.len(),
            vram@.len() == VRAM_SIZE,
            forall|j: int| 0 <= j < VRAM_SIZE ==> #[trigger] vram@[j] == if j < i {
                rom_data@[j]
            } else {
                0
            },
        decreases rom_data@.len() - i,
    {
        vram.set(i, rom_data[i]);
        i = i + 1;
    }
    Ppu {
        vram,
        oam: vec![0u8; OAM_SIZE],
        offscreen_buffer: vec![0u8; FRAME_BYTES],
        vram_address: 0,
        vram_write_counter: 0,
        h_scroll: 0,
        v_scroll: 0,
        scroll_write_counter: 0,
        oam_address: 0,
        reg_controller: 0,
        reg_mask: 0,
        reg_status: 0,
        cycle: 0,
        rendering_status: RENDER_DRAWING,
    }
}

/// A CPU read of port `addr` (`0x2000..=0x2007` or `0x4014`); ports that
/// cannot be read return zero.
pub fn read_io(ppu: &mut Ppu, addr: u16) -> (value: u8)
    requires
        old(ppu)@.wf(),
    ensures
        (final(ppu)@, value) == read_io_spec(old(ppu)@, addr),
        final(ppu)@.wf(),
{
    if addr == 0x2002 {
        let status = ppu.reg_status;
        let cleared = status & 0x7F;
        ppu.reg_status = cleared;
        ppu.scroll_write_counter = 0;
        ppu.vram_write_counter = 0;
        ppu.reg_status = cleared | STATUS_VBLANK;
        assert(cleared | 0x80 == status | 0x80) by (bit_vector)
            requires
                cleared == status & 0x7F,
        ;
        status
    } else if addr == 0x2007 {
        let value = if (ppu.vram_address as usize) < ppu.vram.len() {
            ppu.vram[ppu.vram_address as usize]
        } else {
            0
        };
        ppu.vram_address = ppu.vram_address.wrapping_add(1);
        value
    } else {
        0
    }
}

/// A CPU write of `value` to port `addr` (`0x2000..=0x2007` or `0x4014`).
/// Sprite DMA through `0x4014` is not implemented and has no effect.
pub fn write_io(ppu: &mut Ppu, addr: u16, value: u8)
    requires
        old(ppu)@.wf(),
    ensures
        final(ppu)@ == write_io_spec(old(ppu)@, addr, value),
        final(ppu)@.wf(),
{
    if addr == 0x2000 {
        ppu.reg_controller = value;
    } else if addr == 0x2001 {
        ppu.reg_mask = value;
    } else if addr == 0x2003 {
        ppu.oam_address = value;
    } else if addr == 0x2004 {
        ppu.oam.set(ppu.oam_address as usize, value);
    } else if addr == 0x2005 {
        let toggle = ppu.scroll_write_counter;
        if toggle == 0 {
            ppu.h_scroll = value;
        } else {
            ppu.v_scroll = value;
        }
        ppu.scroll_write_counter = toggle ^ 1;
        assert(toggle ^ 1 == 1 - toggle) by (bit_vector)
            requires
                toggle <= 1,
        ;
    } else if addr == 0x2006 {
        let toggle = ppu.vram_write_counter;
        if toggle == 0 {
            ppu.vram_address = (value as u16) << 8u16;
            assert((value as u16) << 8u16 == ((value as u16) * 0x100) as u16) by (bit_vector);
        } else {
            ppu.vram_address = ppu.vram_address | (value as u16);
        }
        ppu.vram_write_counter = toggle ^ 1;
        assert(toggle ^ 1 == 1 - toggle) by (bit_vector)
            requires
                toggle <= 1,
        ;
    } else if addr == 0x2007 {
        if (ppu.vram_address as usize) < ppu.vram.len() {
            ppu.vram.set(ppu.vram_address as usize, value);
        }
        ppu.vram_address = ppu.vram_address.wrapping_add(1);
    } else {
        // 0x2002 is read-only; sprite DMA through 0x4014 is not implemented
    }
}

// ---------------------------------------------------------------------------
// Painting

/// Offset of the first byte of pixel `(x, y)` in a frame buffer.
pub open spec fn pixel_offset(x: int, y: int) -> int {
    (y * 256 + x) * 4
}

pub open spec fn in_screen(x: int, y: int) -> bool {
    0 <= x < 256 && 0 <= y < 240
}

/// The four bytes of pixel `(x, y)`.
pub open spec fn pixel_at(buf: Seq<u8>, x: int, y: int) -> (u8, u8, u8, u8) {
    let o = pixel_offset(x, y);
    (buf[o], buf[o + 1], buf[o + 2], buf[o + 3])
}

/// An opaque pixel of the given colour.
pub open spec fn opaque(rgb: (u8, u8, u8)) -> (u8, u8, u8, u8) {
    (rgb.0, rgb.1, rgb.2, 0xFF)
}

/// The video RAM address of the palette entry for 2-bit colour `palette_num`
/// of the palette group at `offset`; colour 0 always takes the universal
/// background entry.
pub open spec fn palette_address(palette_num: u8, offset: u8) -> int {
    if palette_num == 0 {
        PALETTE_BASE as int
    } else {
        PALETTE_BASE + offset + palette_num
    }
}

pub open spec fn palette_color(vram: Seq<u8>, palette_num: u8, offset: u8) -> (u8, u8, u8) {
    palette_rgb(vram[palette_address(palette_num, offset)] & 0x3F)
}

/// The 2-bit colour of column `col` of a pattern row with bit planes `lo` and
/// `hi`; column 0 is the most significant bit.
pub open spec fn plane_bits(lo: u8, hi: u8, col: int) -> u8 {
    let sh = (7 - col) as u8;
    ((lo >> sh) & 1) | (((hi >> sh) & 1) << 1u8)
}

/// The colour of pixel `(col, row)` of pattern `chrnum` in the pattern table
/// at `base`, drawn with the palette group at `offset`.
pub open spec fn tile_color(vram: Seq<u8>, base: int, chrnum: u8, offset: u8, col: int, row: int) -> (
    u8,
    u8,
    u8,
) {
    let addr = base + chrnum * 16 + row;
    palette_color(vram, plane_bits(vram[addr], vram[addr + 8], col), offset)
}

/// Whether `(x, y)` lies in the 8x8 cell whose top left corner is `(bx, by)`.
pub open spec fn in_cell(bx: int, by: int, x: int, y: int) -> bool {
    bx <= x < bx + 8 && by <= y < by + 8
}

/// `buf` as a frame whose pixels in the cell at `(bx, by)` are those of the
/// pattern, and whose other pixels are those of `old`.
pub open spec fn painted_cell(
    buf: Seq<u8>,
    old: Seq<u8>,
    vram: Seq<u8>,
    bx: int,
    by: int,
    base: int,
    chrnum: u8,
    offset: u8,
) -> bool {
    &&& buf.len() == FRAME_BYTES
    &&& forall|x: int, y: int|
        in_screen(x, y) ==> #[trigger] pixel_at(buf, x, y) == if in_cell(bx, by, x, y) {
            opaque(tile_color(vram, base, chrnum, offset, x - bx, y - by))
        } else {
            pixel_at(old, x, y)
        }
}

/// Base of the pattern table for the background (controller bit 4).
pub open spec fn bg_pattern_base(ctrl: u8) -> int {
    if ctrl & 0x10 != 0 {
        0x1000
    } else {
        0
    }
}

/// Base of the pattern table for sprites (controller bit 3).
pub open spec fn sprite_pattern_base(ctrl: u8) -> int {
    if ctrl & 0x08 != 0 {
        0x1000
    } else {
        0
    }
}

/// The background colour of pixel `(x, y)`: the pattern that the fixed
/// nametable names for its cell, with the background palette group.
pub open spec fn bg_color(p: PpuView, x: int, y: int) -> (u8, u8, u8) {
    let chrnum = p.vram[NAMETABLE_BASE + (y / 8) * 32 + x / 8];
    tile_color(p.vram, bg_pattern_base(p.reg_controller), chrnum, BG_PALETTE_OFFSET, x % 8, y % 8)
}

/// Whether sprite `i` (Y, tile, attribute, X in sprite memory) covers `(x, y)`.
pub open spec fn sprite_covers(oam: Seq<u8>, i: int, x: int, y: int) -> bool {
    in_cell(oam[4 * i + 3] as int, oam[4 * i] as int, x, y)
}

pub open spec fn sprite_color(p: PpuView, i: int, x: int, y: int) -> (u8, u8, u8) {
    tile_color(
        p.vram,
        sprite_pattern_base(p.reg_controller),
        p.oam[4 * i + 1],
        SPRITE_PALETTE_OFFSET,
        x - p.oam[4 * i + 3],
        y - p.oam[4 * i],
    )
}

/// The colour that the first `n` sprites leave at `(x, y)`: that of the
/// last of them that covers it, if any does.
pub open spec fn sprite_layer(p: PpuView, n: nat, x: int, y: int) -> Option<(u8, u8, u8)>
    decreases n,
{
    if n == 0 {
        None
    } else if sprite_covers(p.oam, n - 1, x, y) {
        Some(sprite_color(p, n - 1, x, y))
    } else {
        sprite_layer(p, (n - 1) as nat, x, y)
    }
}

/// The colour of pixel `(x, y)` of a full background and sprite pass.
pub open spec fn frame_pixel(p: PpuView, x: int, y: int) -> (u8, u8, u8) {
    match sprite_layer(p, 64, x, y) {
        Some(rgb) => rgb,
        None => bg_color(p, x, y),
    }
}

fn put_pixel(buffer: &mut Vec<u8>, x: i32, y: i32, r: u8, g: u8, b: u8)
    requires
        old(buffer)@.len() == FRAME_BYTES,
    ensures
        final(buffer)@.len() == FRAME_BYTES,
        forall|qx: int, qy: int|
            in_screen(qx, qy) ==> #[trigger] pixel_at(final(buffer)@, qx, qy) == if qx == x && qy
                == y {
                (r, g, b, 0xFFu8)
            } else {
                pixel_at(old(buffer)@, qx, qy)
            },
{
    if 0 > x || x >= 256 {
        return ;
    }
    if 0 > y || y >= 240 {
        return ;
    }
    let offset = ((y * 256 + x) * 4) as usize;
    buffer.set(offset, r);
    buffer.set(offset + 1, g);
    buffer.set(offset + 2, b);
    buffer.set(offset + 3, 0xFF);
}

fn get_palette(ppu: &Ppu, palette_num: u8, offset: u8) -> (rgb: (u8, u8, u8))
    requires
        ppu@.wf(),
    ensures
        rgb == palette_color(ppu.vram@, palette_num, offset),
{
    let address = if palette_num == 0 {
        PALETTE_BASE as usize
    } else {
        (PALETTE_BASE + offset as u16 + palette_num as u16) as usize
    };
    let entry = ppu.vram[address];
    let index = entry & 0x3F;
    assert(entry & 0x3F < 64) by (bit_vector);
    palette_entry(index)
}

/// Paints the 8x8 pattern `chrnum` of the pattern table at `base_addr` with
/// its top left corner at `(base_x, base_y)`; pixels outside the screen are
/// dropped.
fn put_tile(ppu: &mut Ppu, base_x: i32, base_y: i32, base_addr: u16, chrnum: u8, palette_offset: u8)
    requires
        old(ppu)@.wf(),
        base_addr + chrnum * 16 + 15 < VRAM_SIZE,
        base_x <= i32::MAX - 7,
        base_y <= i32::MAX - 7,
    ensures
        final(ppu)@ == (PpuView { offscreen: final(ppu)@.offscreen, ..old(ppu)@ }),
        painted_cell(
            final(ppu)@.offscreen,
            old(ppu)@.offscreen,
            old(ppu)@.vram,
            base_x as int,
            base_y as int,
            base_addr as int,
            chrnum,
            palette_offset,
        ),
{
    let ghost vram = old(ppu)@.vram;
    let ghost before = old(ppu)@.offscreen;
    let addr = base_addr + (chrnum as u16) * 16;
    let mut y: u8 = 0;
    while y < 8
        invariant
            0 <= y <= 8,
            addr == base_addr + chrnum * 16,
            base_addr + chrnum * 16 + 15 < VRAM_SIZE,
            base_x <= i32::MAX - 7,
            base_y <= i32::MAX - 7,
            ppu@ == (PpuView { offscreen: ppu@.offscreen, ..old(ppu)@ }),
            ppu@.wf(),
            vram == ppu@.vram,
            forall|qx: int, qy: int|
                in_screen(qx, qy) ==> #[trigger] pixel_at(ppu@.offscreen, qx, qy) == if in_cell(
                    base_x as int,
                    base_y as int,
                    qx,
                    qy,
                ) && qy - base_y < y {
                    opaque(
                        tile_color(
                            vram,
                            base_addr as int,
                            chrnum,
                            palette_offset,
                            qx - base_x,
                            qy - base_y,
                        ),
                    )
                } else {
                    pixel_at(before, qx, qy)
                },
        decreases 8 - y,
    {
        let palette_data_low = ppu.vram[(addr + y as u16) as usize];
        let palette_data_high = ppu.vram[(addr + 8 + y as u16) as usize];
        let mut x: u8 = 0;
        while x < 8
            invariant
                0 <= y < 8,
                0 <= x <= 8,
                addr == base_addr + chrnum * 16,
                base_addr + chrnum * 16 + 15 < VRAM_SIZE,
                base_x <= i32::MAX - 7,
                base_y <= i32::MAX - 7,
                ppu@ == (PpuView { offscreen: ppu@.offscreen, ..old(ppu)@ }),
                ppu@.wf(),
                vram == ppu@.vram,
                palette_data_low == vram[addr + y],
                palette_data_high == vram[addr + 8 + y],
                forall|qx: int, qy: int|
                    in_screen(qx, qy) ==> #[trigger] pixel_at(ppu@.offscreen, qx, qy) == if in_cell(
                        base_x as int,
                        base_y as int,
                        qx,
                        qy,
                    ) && (qy - base_y < y || (qy - base_y == y && qx - base_x < x)) {
                        opaque(
                            tile_color(
                                vram,
                                base_addr as int,
                                chrnum,
                                palette_offset,
                                qx - base_x,
                                qy - base_y,
                            ),
                        )
                    } else {
                        pixel_at(before, qx, qy)
                    },
            decreases 8 - x,
        {
            let sh: u8 = 7 - x;
            let palette_num = ((palette_data_low >> sh) & 1) | (((palette_data_high >> sh) & 1)
                << 1u8);
            assert(palette_num == plane_bits(palette_data_low, palette_data_high, x as int));
            let (r, g, b) = get_palette(ppu, palette_num, palette_offset);
            put_pixel(&mut ppu.offscreen_buffer, base_x + x as i32, base_y + y as i32, r, g, b);
            x = x + 1;
        }
        y = y + 1;
    }
}

fn put_bg_tile(ppu: &mut Ppu, base_x: i32, base_y: i32, chrnum: u8)
    requires
        old(ppu)@.wf(),
        base_x <= i32::MAX - 7,
        base_y <= i32::MAX - 7,
    ensures
        final(ppu)@ == (PpuView { offscreen: final(ppu)@.offscreen, ..old(ppu)@ }),
        painted_cell(
            final(ppu)@.offscreen,
            old(ppu)@.offscreen,
            old(ppu)@.vram,
            base_x as int,
            base_y as int,
            bg_pattern_base(old(ppu)@.reg_controller),
            chrnum,
            BG_PALETTE_OFFSET,
        ),
{
    let base_addr: u16 = if ppu.reg_controller & 0x10 != 0 {
        0x1000
    } else {
        0
    };
    put_tile(ppu, base_x, base_y, base_addr, chrnum, BG_PALETTE_OFFSET);
}

/// Paints the whole background into the offscreen buffer: 32x30 cells named
/// by the nametable at `0x2000`, ignoring scroll and mirroring.
pub fn draw_bg(ppu: &mut Ppu)
    requires
        old(ppu)@.wf(),
    ensures
        final(ppu)@ == (PpuView { offscreen: final(ppu)@.offscreen, ..old(ppu)@ }),
        final(ppu)@.offscreen.len() == FRAME_BYTES,
        forall|x: int, y: int|
            in_screen(x, y) ==> #[trigger] pixel_at(final(ppu)@.offscreen, x, y) == opaque(
                bg_color(old(ppu)@, x, y),
            ),
{
    let ghost init = old(ppu)@;
    let mut ty: u16 = 0;
    while ty < 30
        invariant
            0 <= ty <= 30,
            ppu@ == (PpuView { offscreen: ppu@.offscreen, ..init }),
            ppu@.wf(),
            forall|x: int, y: int|
                in_screen(x, y) ==> #[trigger] pixel_at(ppu@.offscreen, x, y) == if y / 8 < ty {
                    opaque(bg_color(init, x, y))
                } else {
                    pixel_at(init.offscreen, x, y)
                },
        decreases 30 - ty,
    {
        let mut tx: u16 = 0;
        while tx < 32
            invariant
                0 <= ty < 30,
                0 <= tx <= 32,
                ppu@ == (PpuView { offscreen: ppu@.offscreen, ..init }),
                ppu@.wf(),
                forall|x: int, y: int|
                    in_screen(x, y) ==> #[trigger] pixel_at(ppu@.offscreen, x, y) == if y / 8 < ty
                        || (y / 8 == ty && x / 8 < tx) {
                        opaque(bg_color(init, x, y))
                    } else {
                        pixel_at(init.offscreen, x, y)
                    },
            decreases 32 - tx,
        {
            let bgaddr = NAMETABLE_BASE + ty * 32 + tx;
            let chrnum = ppu.vram[bgaddr as usize];
            let ghost mid = ppu@.offscreen;
            put_bg_tile(ppu, (tx * 8) as i32, (ty * 8) as i32, chrnum);
            assert forall|x: int, y: int| in_screen(x, y) implies #[trigger] pixel_at(
                ppu@.offscreen,
                x,
                y,
            ) == if y / 8 < ty || (y / 8 == ty && x / 8 < tx + 1) {
                opaque(bg_color(init, x, y))
            } else {
                pixel_at(init.offscreen, x, y)
            } by {
                assert(pixel_at(mid, x, y) == pixel_at(mid, x, y));
                if in_cell(tx * 8, ty * 8, x, y) {
                    assert(x / 8 == tx && y / 8 == ty);
                    assert(x % 8 == x - tx * 8 && y % 8 == y - ty * 8);
                } else {
                    assert(!(x / 8 == tx && y / 8 == ty));
                }
            }
            tx = tx + 1;
        }
        ty = ty + 1;
    }
}

/// Paints all 64 sprites over the offscreen buffer in sprite-memory order,
/// each as an opaque 8x8 pattern, without flipping, priority or a per-line
/// limit.
pub fn draw_oam(ppu: &mut Ppu)
    requires
        old(ppu)@.wf(),
    ensures
        final(ppu)@ == (PpuView { offscreen: final(ppu)@.offscreen, ..old(ppu)@ }),
        final(ppu)@.offscreen.len() == FRAME_BYTES,
        forall|x: int, y: int|
            in_screen(x, y) ==> #[trigger] pixel_at(final(ppu)@.offscreen, x, y) == match sprite_layer(
                old(ppu)@,
                64,
                x,
                y,
            ) {
                Some(rgb) => opaque(rgb),
                None => pixel_at(old(ppu)@.offscreen, x, y),
            },
{
    let ghost init = old(ppu)@;
    let mut i: usize = 0;
    while i < 64
        invariant
            0 <= i <= 64,
            ppu@ == (PpuView { offscreen: ppu@.offscreen, ..init }),
            ppu@.wf(),
            forall|x: int, y: int|
                in_screen(x, y) ==> #[trigger] pixel_at(ppu@.offscreen, x, y) == match sprite_layer(
                    init,
                    i as nat,
                    x,
                    y,
                ) {
                    Some(rgb) => opaque(rgb),
                    None => pixel_at(init.offscreen, x, y),
                },
        decreases 64 - i,
    {
        let base = i * 4;
        let y = ppu.oam[base];
        let tile = ppu.oam[base + 1];
        let x = ppu.oam[base + 3];
        let base_addr: u16 = if ppu.reg_controller & 0x08 != 0 {
            0x1000
        } else {
            0
        };
        let ghost mid = ppu@.offscreen;
        put_tile(ppu, x as i32, y as i32, base_addr, tile, SPRITE_PALETTE_OFFSET);
        assert forall|qx: int, qy: int| in_screen(qx, qy) implies #[trigger] pixel_at(
            ppu@.offscreen,
            qx,
            qy,
        ) == match sprite_layer(init, (i + 1) as nat, qx, qy) {
            Some(rgb) => opaque(rgb),
            None => pixel_at(init.offscreen, qx, qy),
        } by {
            assert(pixel_at(mid, qx, qy) == pixel_at(mid, qx, qy));
        }
        i = i + 1;
    }
}

/// Byte `k` of a frame that holds a full background and sprite pass.
pub open spec fn frame_byte(p: PpuView, k: int) -> u8 {
    let rgb = frame_pixel(p, (k / 4) % 256, k / 1024);
    if k % 4 == 0 {
        rgb.0
    } else if k % 4 == 1 {
        rgb.1
    } else if k % 4 == 2 {
        rgb.2
    } else {
        0xFF
    }
}

/// The frame that a full background and sprite pass paints.
pub open spec fn rendered(p: PpuView) -> Seq<u8> {
    Seq::new(FRAME_BYTES as nat, |k: int| frame_byte(p, k))
}

/// `dst` with the four bytes of the pixel at offset `o` taken from `src`.
pub open spec fn copy_pixel(dst: Seq<u8>, src: Seq<u8>, o: int) -> Seq<u8> {
    dst.update(o, src[o]).update(o + 1, src[o + 1]).update(o + 2, src[o + 2]).update(
        o + 3,
        src[o + 3],
    )
}

/// One dot at position `x = cycle % 262`, `y = cycle / 262`: at `(0, 0)` a
/// full pass is painted offscreen; from line 261 on the vblank bit is set
/// and the rendering status returns to drawing; on lines 241 to 260 the
/// vblank bit is cleared and a frame being drawn becomes ready; inside the
/// screen the pixel at `(x, y)` is copied to `canvas`; then the counter
/// moves on, wrapping at `341 * 262`.
pub open spec fn dot_spec(p: PpuView, canvas: Seq<u8>) -> (PpuView, Seq<u8>) {
    let x = p.cycle % DOTS_PER_LINE;
    let y = p.cycle / DOTS_PER_LINE;
    let offscreen = if x == 0 && y == 0 {
        rendered(p)
    } else {
        p.offscreen
    };
    let status = if y >= 261 {
        p.reg_status | STATUS_VBLANK
    } else if y >= 241 {
        p.reg_status & 0x7F
    } else {
        p.reg_status
    };
    let rendering = if y >= 261 {
        RENDER_DRAWING
    } else if y >= 241 && p.rendering_status == RENDER_DRAWING {
        RENDER_READY
    } else {
        p.rendering_status
    };
    let out = if x < 256 && y < 240 {
        copy_pixel(canvas, offscreen, pixel_offset(x as int, y as int))
    } else {
        canvas
    };
    let next = if p.cycle + 1 >= DOTS_PER_FRAME {
        0
    } else {
        p.cycle + 1
    };
    (
        PpuView {
            offscreen,
            reg_status: status,
            rendering_status: rendering,
            cycle: next as u32,
            ..p
        },
        out,
    )
}

/// `n` dots in a row.
pub open spec fn dots_spec(p: PpuView, canvas: Seq<u8>, n: nat) -> (PpuView, Seq<u8>)
    decreases n,
{
    if n == 0 {
        (p, canvas)
    } else {
        let (p1, c1) = dots_spec(p, canvas, (n - 1) as nat);
        dot_spec(p1, c1)
    }
}

/// Dots advanced by each call of `run`.
pub const DOTS_PER_CALL: usize = 3;

proof fn lemma_rendered(p: PpuView, buf: Seq<u8>)
    requires
        buf.len() == FRAME_BYTES,
        forall|x: int, y: int|
            in_screen(x, y) ==> #[trigger] pixel_at(buf, x, y) == opaque(frame_pixel(p, x, y)),
    ensures
        buf == rendered(p),
{
    assert forall|k: int| 0 <= k < FRAME_BYTES implies buf[k] == #[trigger] rendered(p)[k] by {
        let x = (k / 4) % 256;
        let y = k / 1024;
        assert(in_screen(x, y));
        assert(k == pixel_offset(x, y) + k % 4);
        assert(pixel_at(buf, x, y) == opaque(frame_pixel(p, x, y)));
    }
    assert(buf =~= rendered(p));
}

fn render_frame(ppu: &mut Ppu)
    requires
        old(ppu)@.wf(),
    ensures
        final(ppu)@ == (PpuView { offscreen: rendered(old(ppu)@), ..old(ppu)@ }),
{
    let ghost init = ppu@;
    draw_bg(ppu);
    let ghost bg = ppu@.offscreen;
    draw_oam(ppu);
    proof {
        assert forall|x: int, y: int| in_screen(x, y) implies #[trigger] pixel_at(
            ppu@.offscreen,
            x,
            y,
        ) == opaque(frame_pixel(init, x, y)) by {
            assert(pixel_at(bg, x, y) == opaque(bg_color(init, x, y)));
            assert(sprite_layer(PpuView { offscreen: bg, ..init }, 64, x, y) == sprite_layer(
                init,
                64,
                x,
                y,
            )) by {
                lemma_sprite_layer_ignores_offscreen(init, bg, 64, x, y);
            }
        }
        lemma_rendered(init, ppu@.offscreen);
    }
}

proof fn lemma_sprite_layer_ignores_offscreen(p: PpuView, buf: Seq<u8>, n: nat, x: int, y: int)
    ensures
        sprite_layer(PpuView { offscreen: buf, ..p }, n, x, y) == sprite_layer(p, n, x, y),
    decreases n,
{
    if n > 0 {
        lemma_sprite_layer_ignores_offscreen(p, buf, (n - 1) as nat, x, y);
    }
}

fn dot(canvas: &mut Vec<u8>, ppu: &mut Ppu)
    requires
        old(ppu)@.wf(),
        old(canvas)@.len() >= FRAME_BYTES,
    ensures
        (final(ppu)@, final(canvas)@) == dot_spec(old(ppu)@, old(canvas)@),
        final(ppu)@.wf(),
        final(canvas)@.len() == old(canvas)@.len(),
        forall|k: int|
            FRAME_BYTES <= k < old(canvas)@.len() ==> #[trigger] final(canvas)@[k] == old(canvas)@[k],
{
    let scanline_x = ppu.cycle % DOTS_PER_LINE;
    let scanline_y = ppu.cycle / DOTS_PER_LINE;
    if scanline_x == 0 && scanline_y == 0 {
        render_frame(ppu);
    }
    if scanline_y >= 261 {
        ppu.reg_status = ppu.reg_status | STATUS_VBLANK;
        ppu.rendering_status = RENDER_DRAWING;
    } else if scanline_y >= 241 {
        ppu.reg_status = ppu.reg_status & 0x7F;
        if ppu.rendering_status == RENDER_DRAWING {
            ppu.rendering_status = RENDER_READY;
        }
    }
    if scanline_x < 256 && scanline_y < 240 {
        let offset = ((scanline_y * 256 + scanline_x) * 4) as usize;
        let mut i: usize = 0;
        let ghost start = canvas@;
        while i < 4
            invariant
                0 <= i <= 4,
                offset == pixel_offset(scanline_x as int, scanline_y as int),
                offset + 4 <= FRAME_BYTES,
                ppu@.offscreen.len() == FRAME_BYTES,
                canvas@.len() == start.len(),
                start.len() >= FRAME_BYTES,
                forall|k: int|
                    0 <= k < canvas@.len() ==> #[trigger] canvas@[k] == if offset <= k < offset + i {
                        ppu@.offscreen[k]
                    } else {
                        start[k]
                    },
            decreases 4 - i,
        {
            canvas.set(offset + i, ppu.offscreen_buffer[offset + i]);
            i = i + 1;
        }
        assert(canvas@ =~= copy_pixel(start, ppu@.offscreen, offset as int));
    }
    ppu.cycle = ppu.cycle + 1;
    if ppu.cycle >= DOTS_PER_FRAME {
        ppu.cycle = 0;
    }
}

/// Advances the picture unit by three dots (see `dot_spec`), flushing the
/// pixels it passes into the first `FRAME_BYTES` bytes of `canvas`; bytes
/// past those are left as they were.
pub fn run(canvas: &mut Vec<u8>, ppu: &mut Ppu)
    requires
        old(ppu)@.wf(),
        old(canvas)@.len() >= FRAME_BYTES,
    ensures
        (final(ppu)@, final(canvas)@) == dots_spec(old(ppu)@, old(canvas)@, DOTS_PER_CALL as nat),
        final(ppu)@.wf(),
        final(canvas)@.len() == old(canvas)@.len(),
        forall|k: int|
            FRAME_BYTES <= k < old(canvas)@.len() ==> #[trigger] final(canvas)@[k] == old(canvas)@[k],
{
    let mut i: usize = 0;
    while i < DOTS_PER_CALL
        invariant
            0 <= i <= DOTS_PER_CALL,
            (ppu@, canvas@) == dots_spec(old(ppu)@, old(canvas)@, i as nat),
            ppu@.wf(),
            canvas@.len() == old(canvas)@.len(),
            old(canvas)@.len() >= FRAME_BYTES,
            forall|k: int|
                FRAME_BYTES <= k < old(canvas)@.len() ==> #[trigger] canvas@[k] == old(canvas)@[k],
        decreases DOTS_PER_CALL - i,
    {
        dot(canvas, ppu);
        i = i + 1;
    }
}

/// How many of the first `n` dots turned a frame being drawn into a ready
/// one.
pub open spec fn ready_transitions(p: PpuView, canvas: Seq<u8>, n: nat) -> nat
    decreases n,
{
    if n == 0 {
        0
    } else {
        let before = dots_spec(p, canvas, (n - 1) as nat).0;
        let after = dots_spec(p, canvas, n).0;
        ready_transitions(p, canvas, (n - 1) as nat) + if before.rendering_status
            == RENDER_DRAWING && after.rendering_status == RENDER_READY {
            1nat
        } else {
            0nat
        }
    }
}

/// First dot of line 241, where a frame being drawn becomes ready.
pub const READY_DOT: u32 = 241 * 262;

/// First dot of line 261, where the rendering status returns to drawing.
pub const REARM_DOT: u32 = 261 * 262;

proof fn lemma_cadence_prefix(p: PpuView, canvas: Seq<u8>, n: nat)
    requires
        p.cycle == 0,
        p.rendering_status == RENDER_DRAWING,
        n <= DOTS_PER_FRAME + 1,
    ensures
        dots_spec(p, canvas, n).0.cycle == if n >= DOTS_PER_FRAME {
            n - DOTS_PER_FRAME
        } else {
            n as int
        },
        dots_spec(p, canvas, n).0.rendering_status == if READY_DOT < n <= REARM_DOT {
            RENDER_READY
        } else {
            RENDER_DRAWING
        },
        ready_transitions(p, canvas, n) == if n > READY_DOT {
            1nat
        } else {
            0nat
        },
    decreases n,
{
    if n > 0 {
        lemma_cadence_prefix(p, canvas, (n - 1) as nat);
        let k = (n - 1) as int;
        assert(k / 262 >= 261 <==> k >= REARM_DOT);
        assert(k / 262 >= 241 <==> k >= READY_DOT);
    }
}

/// Over one sweep of the dot counter that starts at dot zero with a frame
/// being drawn, the rendering status turns ready exactly once, on the
/// first dot of line 241 under the `y = counter / 262` geometry.
pub proof fn lemma_frame_cadence(p: PpuView, canvas: Seq<u8>)
    requires
        p.cycle == 0,
        p.rendering_status == RENDER_DRAWING,
    ensures
        ready_transitions(p, canvas, DOTS_PER_FRAME as nat) == 1,
        ready_transitions(p, canvas, READY_DOT as nat) == 0,
        ready_transitions(p, canvas, (READY_DOT + 1) as nat) == 1,
{
    lemma_cadence_prefix(p, canvas, DOTS_PER_FRAME as nat);
    lemma_cadence_prefix(p, canvas, READY_DOT as nat);
    lemma_cadence_prefix(p, canvas, (READY_DOT + 1) as nat);
}

/// The state after `n` calls of `run`.
pub open spec fn run_calls(p: PpuView, canvas: Seq<u8>, n: nat) -> (PpuView, Seq<u8>)
    decreases n,
{
    if n == 0 {
        (p, canvas)
    } else {
        let (p1, c1) = run_calls(p, canvas, (n - 1) as nat);
        dots_spec(p1, c1, DOTS_PER_CALL as nat)
    }
}

/// How many of the first `n` calls of `run` turned a frame being drawn into
/// a ready one.
pub open spec fn ready_calls(p: PpuView, canvas: Seq<u8>, n: nat) -> nat
    decreases n,
{
    if n == 0 {
        0
    } else {
        let before = run_calls(p, canvas, (n - 1) as nat).0;
        let after = run_calls(p, canvas, n).0;
        ready_calls(p, canvas, (n - 1) as nat) + if before.rendering_status == RENDER_DRAWING
            && after.rendering_status == RENDER_READY {
            1nat
        } else {
            0nat
        }
    }
}

proof fn lemma_dots_split(p: PpuView, canvas: Seq<u8>, a: nat, b: nat)
    ensures
        dots_spec(p, canvas, a + b) == ({
            let (p1, c1) = dots_spec(p, canvas, a);
            dots_spec(p1, c1, b)
        }),
    decreases b,
{
    if b > 0 {
        lemma_dots_split(p, canvas, a, (b - 1) as nat);
        assert(a + b - 1 == a + (b - 1) as nat);
    }
}

proof fn lemma_calls_are_dots(p: PpuView, canvas: Seq<u8>, n: nat)
    ensures
        run_calls(p, canvas, n) == dots_spec(p, canvas, 3 * n),
    decreases n,
{
    if n > 0 {
        lemma_calls_are_dots(p, canvas, (n - 1) as nat);
        lemma_dots_split(p, canvas, 3 * (n - 1) as nat, 3);
        assert(3 * (n - 1) as nat + 3 == 3 * n);
    }
}

/// Calls of `run` that cover one sweep of the dot counter and the dot after
/// it.
pub const CALLS_PER_SWEEP: u32 = 29781;

/// Driving `run` from dot zero with a frame being drawn, call by call until
/// every dot of the sweep has been passed: the rendering status turns ready
/// in exactly one call, the one that passes the first dot of line 241, and
/// the counter ends at 1.
pub proof fn lemma_frame_cadence_calls(p: PpuView, canvas: Seq<u8>)
    requires
        p.cycle == 0,
        p.rendering_status == RENDER_DRAWING,
    ensures
        ready_calls(p, canvas, CALLS_PER_SWEEP as nat) == 1,
        ready_calls(p, canvas, READY_DOT as nat / 3) == 0,
        ready_calls(p, canvas, READY_DOT as nat / 3 + 1) == 1,
        run_calls(p, canvas, CALLS_PER_SWEEP as nat).0.cycle == 1,
{
    lemma_ready_calls_prefix(p, canvas, CALLS_PER_SWEEP as nat);
    lemma_ready_calls_prefix(p, canvas, READY_DOT as nat / 3);
    lemma_ready_calls_prefix(p, canvas, READY_DOT as nat / 3 + 1);
}

proof fn lemma_ready_calls_prefix(p: PpuView, canvas: Seq<u8>, n: nat)
    requires
        p.cycle == 0,
        p.rendering_status == RENDER_DRAWING,
        n <= CALLS_PER_SWEEP,
    ensures
        run_calls(p, canvas, n).0.rendering_status == if READY_DOT < 3 * n <= REARM_DOT {
            RENDER_READY
        } else {
            RENDER_DRAWING
        },
        ready_calls(p, canvas, n) == if 3 * n > READY_DOT {
            1nat
        } else {
            0nat
        },
        run_calls(p, canvas, n).0.cycle == if 3 * n >= DOTS_PER_FRAME {
            3 * n - DOTS_PER_FRAME
        } else {
            3 * n as int
        },
    decreases n,
{
    lemma_calls_are_dots(p, canvas, n);
    lemma_cadence_prefix(p, canvas, 3 * n);
    if n > 0 {
        lemma_ready_calls_prefix(p, canvas, (n - 1) as nat);
        lemma_calls_are_dots(p, canvas, (n - 1) as nat);
        lemma_cadence_prefix(p, canvas, 3 * (n - 1) as nat);
    }
}

/// Whether a finished frame waits for presentation.
pub fn is_draw_timing(ppu: &Ppu) -> (r: bool)
    ensures
        r == (ppu.rendering_status == RENDER_READY),
{
    ppu.rendering_status == RENDER_READY
}

/// Records that presentation has taken the frame.
pub fn check_drawn(ppu: &mut Ppu)
    ensures
        final(ppu)@ == (PpuView { rendering_status: RENDER_CONSUMED, ..old(ppu)@ }),
{
    ppu.rendering_status = RENDER_CONSUMED;
}

} // verus!
