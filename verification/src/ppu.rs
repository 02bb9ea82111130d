use vstd::prelude::*;
use vstd::array::spec_array_update;
use crate::bits::{bit, lemma_bit_test, set_elem};
use crate::memory::Memory;

verus! {

pub const WIDTH: usize = 160;
pub const HEIGHT: usize = 144;
const TILE_TABLE_SIZE: u16 = 32;
const TILE_SIZE_BYTES: u16 = 16;
const MODE_0_DOTS: u16 = 80;
const MODE_1_SL: u8 = 144;
const MODE_2_MIN_DOTS: u16 = 172;
const TOTAL_DOTS: u16 = 456;
const TOTAL_SL: u8 = 154;
pub const OAM_DMA_LENGTH: u16 = 160;
const SPRITE_BYTES: usize = 4;
const SL_SPRITE_CAPACITY: usize = 10;

/// The LCD control register (0xFF40), bit 7 first.
#[derive(Debug, Clone, Copy, PartialEq, Eq, Structural)]
pub struct LCDC {
    pub lcd_ppu_enable: bool,
    pub window_tile_map: bool,
    pub window_enable: bool,
    pub bg_window_tile_data_area: bool,
    pub bg_tile_map: bool,
    pub obj_size: bool,
    pub obj_enable: bool,
    pub bg_window_enable: bool,
}

impl LCDC {
    /// The fields of an LCDC byte.
    pub open spec fn from_byte(v: u8) -> LCDC {
        LCDC {
            lcd_ppu_enable: bit(v, 7),
            window_tile_map: bit(v, 6),
            window_enable: bit(v, 5),
            bg_window_tile_data_area: bit(v, 4),
            bg_tile_map: bit(v, 3),
            obj_size: bit(v, 2),
            obj_enable: bit(v, 1),
            bg_window_enable: bit(v, 0),
        }
    }

    /// Reads LCDC from memory.
    pub fn load(mem: &Memory) -> (l: Self)
        ensures
            l == Self::from_byte(mem.read_spec(0xFF40)),
    {
        let lcdc = mem.read(0xFF40);
        assert(forall|i: u8| i < 8 ==> ((lcdc & (1u8 << i) != 0) == ((lcdc >> i) & 1u8 == 1u8))) by (bit_vector);
        Self {
            lcd_ppu_enable: lcdc & (1u8 << 7u8) != 0,
            window_tile_map: lcdc & (1u8 << 6u8) != 0,
            window_enable: lcdc & (1u8 << 5u8) != 0,
            bg_window_tile_data_area: lcdc & (1u8 << 4u8) != 0,
            bg_tile_map: lcdc & (1u8 << 3u8) != 0,
            obj_size: lcdc & (1u8 << 2u8) != 0,
            obj_enable: lcdc & (1u8 << 1u8) != 0,
            bg_window_enable: lcdc & (1u8 << 0u8) != 0,
        }
    }
}

/// What the emulator front end has to do after a dot.
#[derive(Debug, Clone, Copy, PartialEq, Eq, Structural)]
pub struct PpuAction {
    /// VBlank began: show the frame buffer.
    pub render: bool,
    /// The last dot of the last scanline was drawn: a frame is complete.
    pub frame_done: bool,
}

/// The picture processing unit: scanline and dot counters, OAM DMA, the sprites found on the
/// current scanline and the frame buffer.
pub struct PPU {
    pub sl: u8,
    pub dot: u16,
    pub line_idx: u8,
    pub buffer: [u32; 23040],
    pub oam_dma_start: u16,
    pub oam_dma_ctr: u16,
    pub sl_objects: [u8; 40],
    pub sl_objects_nxt: usize,
    pub in_vblank: bool,
    pub stat_line: bool,
}

/// Colour index (0 to 3) of pixel (`x`, `y`) of the tile whose data starts at `tile_start`: bit
/// 7 - x of the tile row's first byte is the low bit, of its second byte the high bit.
pub open spec fn pixel_in_tile_spec(m: Memory, x: u8, y: u8, tile_start: u16) -> u8 {
    let lo = m.read_spec((tile_start + 2 * y) as u16);
    let hi = m.read_spec((tile_start + 2 * y + 1) as u16);
    let shift = (7 - x) as u8;
    (((hi >> shift) & 1) * 2 + ((lo >> shift) & 1)) as u8
}

/// Start of the data of tile `tile_idx`: 0x8000 + 16 * index unsigned, or 0x9000 + 16 * index
/// with the index signed.
pub open spec fn tile_data_start(data_area: bool, tile_idx: u8) -> u16 {
    if data_area {
        (0x8000 + tile_idx * 16) as u16
    } else {
        (0x9000 + (tile_idx as i8) * 16) as u16
    }
}

/// Colour index at (`x`, `y`) of the 256x256 picture that a tile map (0x9800 or 0x9C00) draws.
pub open spec fn tile_map_pixel_spec(m: Memory, lcdc: LCDC, x: u8, y: u8, tile_map: bool) -> u8 {
    let map_base: int = if tile_map { 0x9C00 } else { 0x9800 };
    let tile_idx = m.read_spec((map_base + x / 8 + (y / 8) * 32) as u16);
    pixel_in_tile_spec(m, x % 8, y % 8, tile_data_start(lcdc.bg_window_tile_data_area, tile_idx))
}

/// Background pixel at screen position (`x`, `y`), scrolled by SCX and SCY.
pub open spec fn background_pixel_spec(m: Memory, lcdc: LCDC, x: u8, y: u8) -> u8 {
    let x1 = ((x + m.read_spec(0xFF43)) % 256) as u8;
    let y1 = ((y + m.read_spec(0xFF42)) % 256) as u8;
    tile_map_pixel_spec(m, lcdc, x1, y1, lcdc.bg_tile_map)
}

/// Window pixel at screen position (`x`, `y`), shifted by WX - 7 and WY.
pub open spec fn window_pixel_spec(m: Memory, lcdc: LCDC, x: u8, y: u8) -> u8 {
    let x1 = ((x + m.read_spec(0xFF4B) + 256 - 7) % 256) as u8;
    let y1 = ((y + m.read_spec(0xFF4A)) % 256) as u8;
    tile_map_pixel_spec(m, lcdc, x1, y1, lcdc.window_tile_map)
}

/// The sprite layer over the scanline's sprites from byte `i` on: among the sprites that cover
/// the current column, the one with the smallest X (the first of equals) draws the pixel.
/// `None` where the 8-bit arithmetic of the layer would overflow or an index is out of range.
pub open spec fn sprites_from(p: PPU, m: Memory, i: int, min_x: u8, pixel: u8) -> Option<u8>
    decreases p.sl_objects_nxt + 4 - i,
{
    if i < 0 || i >= p.sl_objects_nxt {
        Some(pixel)
    } else if i + 3 >= 40 {
        None
    } else {
        let sprite_y = p.sl_objects@[i];
        let sprite_x = p.sl_objects@[i + 1];
        let tile_idx = p.sl_objects@[i + 2];
        if p.line_idx + 8 > 255 {
            None
        } else if !(sprite_x <= p.line_idx + 8) {
            sprites_from(p, m, i + 4, min_x, pixel)
        } else if sprite_x + 8 > 255 {
            None
        } else if !(p.line_idx + 8 < sprite_x + 8) || sprite_x >= min_x {
            sprites_from(p, m, i + 4, min_x, pixel)
        } else if p.sl + 16 > 255 || p.sl + 16 < sprite_y {
            None
        } else {
            let in_x = (p.line_idx + 8 - sprite_x) as u8;
            let in_y = (p.sl + 16 - sprite_y) as u8;
            let px = pixel_in_tile_spec(m, in_x, in_y, (0x8000 + tile_idx) as u16);
            sprites_from(p, m, i + 4, sprite_x, px)
        }
    }
}

/// The frame buffer value of a colour index: a grey level (index * 64) in each RGB channel.
pub open spec fn grey(pixel: u8) -> u32 {
    let g = (pixel * 64) % 256;
    (g * 65536 + g * 256 + g) as u32
}

/// OAM DMA: a write of 0x00-0xDF to 0xFF46 starts a copy from page (value << 8) and resets the
/// register to 0xFF; while a copy runs, each dot copies one of its 160 bytes to OAM.
pub open spec fn oam_dma_spec(p: PPU, m: Memory) -> (PPU, Memory) {
    let reg = m.read_spec(0xFF46);
    let (p1, m1) = if reg <= 0xDF {
        (PPU { oam_dma_start: (reg as u16) << 8u16, oam_dma_ctr: 0, ..p }, m.write_spec(0xFF46, 0xFF))
    } else {
        (p, m)
    };
    if p1.oam_dma_ctr < 160 {
        let src = p1.oam_dma_start | p1.oam_dma_ctr;
        let dst = 0xFE00u16 | p1.oam_dma_ctr;
        (PPU { oam_dma_ctr: (p1.oam_dma_ctr + 1) as u16, ..p1 }, m1.write_spec(dst, m1.read_spec(src)))
    } else {
        (p1, m1)
    }
}

/// Whether the OAM DMA step reads a defined byte.
pub open spec fn oam_dma_ok(p: PPU, m: Memory) -> bool {
    let reg = m.read_spec(0xFF46);
    let p1 = if reg <= 0xDF { PPU { oam_dma_start: (reg as u16) << 8u16, oam_dma_ctr: 0, ..p } } else { p };
    let m1 = if reg <= 0xDF { m.write_spec(0xFF46, 0xFF) } else { m };
    p1.oam_dma_ctr < 160 ==> m1.readable(p1.oam_dma_start | p1.oam_dma_ctr)
}

/// The mode part of a dot on a visible line or in VBlank: the PPU, memory, mode (0 OAM scan,
/// 2 drawing, 3 HBlank, 1 VBlank) and whether VBlank just began.
pub open spec fn mode_spec(p: PPU, m: Memory, lcdc: LCDC) -> Option<(PPU, Memory, u8, bool)> {
    if p.sl < 144 {
        let p0 = PPU { in_vblank: false, ..p };
        if p.dot < 80 {
            // OAM scan: 40 sprites to check, 80 dots.
            let p1 = PPU { line_idx: 0, ..p0 };
            if p.dot % 2 == 0 && p.sl_objects_nxt < 10 {
                let idx = (0xFE00 + p.dot * 2) as u16;
                let sprite_y = m.read_spec(idx);
                if sprite_y <= p.sl + 16 && p.sl + 16 < sprite_y + 16 {
                    let n = p.sl_objects_nxt as int;
                    let o0 = spec_array_update(p1.sl_objects, n, m.read_spec(idx));
                    let o1 = spec_array_update(o0, n + 1, m.read_spec((idx + 1) as u16));
                    let o2 = spec_array_update(o1, n + 2, m.read_spec((idx + 2) as u16));
                    let o3 = spec_array_update(o2, n + 3, m.read_spec((idx + 3) as u16));
                    Some((PPU { sl_objects: o3, sl_objects_nxt: (n + 4) as usize, ..p1 }, m, 0, false))
                } else {
                    Some((p1, m, 0, false))
                }
            } else {
                Some((p1, m, 0, false))
            }
        } else if p.dot < 252 {
            // Drawing
            if p.line_idx == 255 {
                None
            } else {
                let p1 = PPU { line_idx: (p.line_idx + 1) as u8, ..p0 };
                if p1.line_idx < 160 {
                    let x = p1.line_idx;
                    let y = p1.sl;
                    let layered = if lcdc.bg_window_enable {
                        if lcdc.window_enable {
                            window_pixel_spec(m, lcdc, x, y)
                        } else {
                            background_pixel_spec(m, lcdc, x, y)
                        }
                    } else {
                        0
                    };
                    let drawn = if lcdc.obj_enable { sprites_from(p1, m, 0, 161, layered) } else { Some(layered) };
                    match drawn {
                        None => None,
                        Some(pixel) => if pixel > 3 {
                            None
                        } else {
                            Some((
                                PPU { buffer: spec_array_update(p1.buffer, x + y * 160, grey(pixel)), ..p1 },
                                m,
                                2,
                                false,
                            ))
                        },
                    }
                } else {
                    Some((p1, m, 2, false))
                }
            }
        } else {
            // Horizontal blank
            Some((PPU { sl_objects_nxt: 0, ..p0 }, m, 3, false))
        }
    } else {
        // Vertical blank
        if !p.in_vblank {
            Some((PPU { in_vblank: true, ..p }, m.write_spec(0xFF0F, m.write_cell_spec(0xFF0F) | 1), 1, true))
        } else {
            Some((p, m, 1, false))
        }
    }
}

/// One dot of the PPU: with the LCD off only the mode bits of STAT are cleared; otherwise an OAM
/// DMA step, LY updated, the mode's work, STAT's mode and LYC=LY bits, the STAT interrupt on a
/// rising edge of its line, and the dot and scanline counters advanced (456 dots, 154 lines).
pub open spec fn run_dot_spec(p: PPU, m: Memory) -> Option<(PPU, Memory, PpuAction)> {
    let lcdc = LCDC::from_byte(m.read_spec(0xFF40));
    let quiet = PpuAction { render: false, frame_done: false };
    if !lcdc.lcd_ppu_enable {
        Some((p, m.write_spec(0xFF41, m.write_cell_spec(0xFF41) & 0b1111_1100), quiet))
    } else if !oam_dma_ok(p, m) {
        None
    } else {
        let (p1, m1) = oam_dma_spec(p, m);
        let m2 = m1.write_spec(0xFF44, p1.sl);
        match mode_spec(p1, m2, lcdc) {
            None => None,
            Some((p2, m3, mode, render)) => {
                let lyc_eq = m3.read_spec(0xFF45) == m3.read_spec(0xFF44);
                let lcd_stat = ((if lyc_eq { 4u8 } else { 0u8 }) + mode) as u8;
                let m4 = m3.write_spec(0xFF41, (m3.read_spec(0xFF41) & 0b1111_1000u8) | lcd_stat);
                let new_stat_line = lyc_eq || bit(m4.read_spec(0xFF41), (mode + 3) as u8);
                let m5 = if !p2.stat_line && new_stat_line {
                    m4.write_spec(0xFF0F, m4.write_cell_spec(0xFF0F) | 2)
                } else {
                    m4
                };
                let p3 = PPU { stat_line: new_stat_line, ..p2 };
                if p3.dot == 0xFFFF {
                    None
                } else if p3.dot + 1 < 456 {
                    Some((PPU { dot: (p3.dot + 1) as u16, ..p3 }, m5, PpuAction { render: render, frame_done: false }))
                } else if p3.sl == 255 {
                    None
                } else if p3.sl + 1 < 154 {
                    Some((PPU { dot: 0, sl: (p3.sl + 1) as u8, ..p3 }, m5, PpuAction { render: render, frame_done: false }))
                } else {
                    Some((PPU { dot: 0, sl: 0, ..p3 }, m5, PpuAction { render: render, frame_done: true }))
                }
            },
        }
    }
}


impl PPU {
    /// At the top of the first scanline, no DMA running, no sprite found and a black buffer.
    pub open spec fn is_reset(self) -> bool {
        &&& self.sl == 0 && self.dot == 0 && self.line_idx == 0
        &&& forall|i: int| 0 <= i < 23040 ==> self.buffer@[i] == 0
        &&& self.oam_dma_start == 0xFF && self.oam_dma_ctr == OAM_DMA_LENGTH
        &&& forall|i: int| 0 <= i < 40 ==> self.sl_objects@[i] == 0
        &&& self.sl_objects_nxt == 0 && !self.in_vblank && !self.stat_line
    }

    /// A PPU at reset.
    pub fn new() -> (p: Self)
        ensures
            p.is_reset(),
    {
        Self {
            sl: 0,
            dot: 0,
            line_idx: 0,
            buffer: [0; 23040],
            oam_dma_start: 0xFF,
            oam_dma_ctr: OAM_DMA_LENGTH,
            sl_objects: [0; 40],
            sl_objects_nxt: 0,
            in_vblank: false,
            stat_line: false,
        }
    }

    fn get_pixel_in_tile(mem: &Memory, in_tile_x: u8, in_tile_y: u8, tile_start: u16) -> (px: u8)
        requires
            in_tile_x <= 7,
            tile_start + 2 * in_tile_y + 1 <= 0xFFFF,
            mem.readable((tile_start + 2 * in_tile_y) as u16),
            mem.readable((tile_start + 2 * in_tile_y + 1) as u16),
        ensures
            px == pixel_in_tile_spec(*mem, in_tile_x, in_tile_y, tile_start),
            px <= 3,
    {
        let lo = mem.read(tile_start + 2 * in_tile_y as u16);
        let hi = mem.read(tile_start + (2 * in_tile_y as u16 + 1));
        let shift = 7 - in_tile_x;
        let lo_channel = (lo >> shift) & 1;
        let hi_channel = (hi >> shift) & 1;
        assert(((hi >> shift) & 1u8) << 1u8 | ((lo >> shift) & 1u8) == (((hi >> shift) & 1u8) * 2
            + ((lo >> shift) & 1u8)) as u8) by (bit_vector);
        assert(((hi >> shift) & 1u8) <= 1 && ((lo >> shift) & 1u8) <= 1) by (bit_vector);
        (hi_channel << 1u8) | lo_channel
    }

    fn get_pixel_from_tile_map(mem: &Memory, lcdc: &LCDC, x: u8, y: u8, tile_map: bool) -> (px: u8)
        ensures
            px == tile_map_pixel_spec(*mem, *lcdc, x, y, tile_map),
            px <= 3,
    {
        let tile_x = x / 8;
        let tile_y = y / 8;
        let tile_coord_x = x % 8;
        let tile_coord_y = y % 8;

        let tile_idx = if tile_map {
            // 9C00–9FFF
            mem.read(0x9C00 + tile_x as u16 + tile_y as u16 * TILE_TABLE_SIZE)
        } else {
            // 9800–9BFF
            mem.read(0x9800 + tile_x as u16 + tile_y as u16 * TILE_TABLE_SIZE)
        };
        let s: u16 = if lcdc.bg_window_tile_data_area {
            // 8000–8FFF unsigned
            0x8000 + tile_idx as u16 * TILE_SIZE_BYTES
        } else {
            // 8800–97FF signed
            0x9000u16.wrapping_add_signed((tile_idx as i8) as i16 * 16)
        };
        Self::get_pixel_in_tile(mem, tile_coord_x, tile_coord_y, s)
    }

    fn render_background_layer(&self, mem: &Memory, x: u8, y: u8, lcdc: &LCDC) -> (px: u8)
        ensures
            px == background_pixel_spec(*mem, *lcdc, x, y),
            px <= 3,
    {
        let scroll_x = mem.read(0xFF43);
        let scroll_y = mem.read(0xFF42);
        let x = ((x as u16 + scroll_x as u16) % 256) as u8;
        let y = ((y as u16 + scroll_y as u16) % 256) as u8;
        Self::get_pixel_from_tile_map(mem, lcdc, x, y, lcdc.bg_tile_map)
    }

    fn render_window_layer(&self, x: u8, y: u8, mem: &Memory, lcdc: &LCDC) -> (px: u8)
        ensures
            px == window_pixel_spec(*mem, *lcdc, x, y),
            px <= 3,
    {
        let win_x = mem.read(0xFF4B);
        let win_y = mem.read(0xFF4A);
        let x = ((x as u16 + win_x as u16 + 249) % 256) as u8;
        let y = ((y as u16 + win_y as u16) % 256) as u8;
        Self::get_pixel_from_tile_map(mem, lcdc, x, y, lcdc.window_tile_map)
    }

    fn render_sprite_layer(&self, mem: &Memory, pixel: u8) -> (r: Option<u8>)
        ensures
            r == sprites_from(*self, *mem, 0, 161, pixel),
    {
        let mut sprite_min_x: u8 = WIDTH as u8 + 1;
        let mut px = pixel;
        let mut i: usize = 0;
        while i < self.sl_objects_nxt
            invariant
                sprites_from(*self, *mem, 0, 161, pixel) == sprites_from(*self, *mem, i as int, sprite_min_x, px),
            decreases self.sl_objects_nxt + 4 - i,
        {
            if i >= 37 {
                return None;
            }
            let sprite_y = self.sl_objects[i + 0];
            let sprite_x = self.sl_objects[i + 1];
            let tile_idx = self.sl_objects[i + 2];
            if self.line_idx > 247 {
                return None;
            }
            if sprite_x <= self.line_idx + 8 {
                if sprite_x > 247 {
                    return None;
                }
                if self.line_idx + 8 < sprite_x + 8 && sprite_x < sprite_min_x {
                    if self.sl > 239 || self.sl + 16 < sprite_y {
                        return None;
                    }
                    let in_sprite_x = self.line_idx + 8 - sprite_x;
                    let in_sprite_y = self.sl + 16 - sprite_y;
                    let tile_start = 0x8000 + tile_idx as u16;
                    sprite_min_x = sprite_x;
                    px = Self::get_pixel_in_tile(mem, in_sprite_x, in_sprite_y, tile_start);
                }
            }
            i = i + SPRITE_BYTES;
        }
        Some(px)
    }

    fn set_pixel(&mut self, x: u8, y: u8, pixel: u8)
        requires
            x < 160,
            y < 144,
            pixel <= 3,
        ensures
            *final(self) == (PPU {
                buffer: spec_array_update(old(self).buffer, x + y * 160, grey(pixel)),
                ..*old(self)
            }),
    {
        let grayscale = (pixel << 6u8) as u32;
        assert(pixel <= 3 ==> (pixel << 6u8) == (pixel * 64) % 256) by (bit_vector);
        assert(grayscale <= 255 ==> (grayscale << 16u32 | grayscale << 8u32 | grayscale) == grayscale * 65536
            + grayscale * 256 + grayscale) by (bit_vector);
        set_elem(&mut self.buffer, x as usize + y as usize * WIDTH, grayscale << 16u32 | grayscale << 8u32 | grayscale);
    }

    fn oam_dma_transfer(&mut self, mem: &mut Memory) -> (ok: bool)
        ensures
            ok == oam_dma_ok(*old(self), *old(mem)),
            ok ==> (*final(self), *final(mem)) == oam_dma_spec(*old(self), *old(mem)),
    {
        let reg = mem.read(0xFF46);
        if reg <= 0xDF {
            self.oam_dma_start = (reg as u16) << 8u16;
            self.oam_dma_ctr = 0;
            mem.write(0xFF46, 0xFF);
        }
        if self.oam_dma_ctr < OAM_DMA_LENGTH {
            let src = self.oam_dma_start | self.oam_dma_ctr;
            let dst = 0xFE00u16 | self.oam_dma_ctr;
            if !mem.is_readable(src) {
                return false;
            }
            let v = mem.read(src);
            let ctr = self.oam_dma_ctr;
            assert(ctr < 160 ==> 0xFE00u16 | ctr == 0xFE00u16 + ctr) by (bit_vector);
            mem.write(dst, v);
            self.oam_dma_ctr = self.oam_dma_ctr + 1;
        }
        true
    }

    /// The mode part of a dot (see `mode_spec`).
    fn run_mode(&mut self, mem: &mut Memory, lcdc: &LCDC) -> (r: Option<(u8, bool)>)
        ensures
            match mode_spec(*old(self), *old(mem), *lcdc) {
                None => r is None,
                Some((p, m, mode, render)) => r == Some((mode, render)) && *final(self) == p && *final(mem) == m,
            },
    {
        if self.sl < MODE_1_SL {
            self.in_vblank = false;
            if self.dot < MODE_0_DOTS {
                // Mode 0: OAM scan
                self.line_idx = 0;
                // 40 sprites to check, 80 dots.
                if self.dot % 2 == 0 && self.sl_objects_nxt < SL_SPRITE_CAPACITY {
                    let sprite_idx = 0xFE00 + self.dot * (SPRITE_BYTES as u16) / 2;
                    let sprite_y = mem.read(sprite_idx + 0);
                    if sprite_y <= self.sl + 16 && self.sl + 16 < sprite_y + 16 {
                        // Copy sprite data if it is in the scanline.
                        let n = self.sl_objects_nxt;
                        set_elem(&mut self.sl_objects, n + 0, mem.read(sprite_idx + 0));
                        set_elem(&mut self.sl_objects, n + 1, mem.read(sprite_idx + 1));
                        set_elem(&mut self.sl_objects, n + 2, mem.read(sprite_idx + 2));
                        set_elem(&mut self.sl_objects, n + 3, mem.read(sprite_idx + 3));
                        self.sl_objects_nxt = n + SPRITE_BYTES;
                    }
                }
                Some((0, false))
            } else if self.dot < MODE_0_DOTS + MODE_2_MIN_DOTS {
                // Mode 2: Drawing
                if self.line_idx == 255 {
                    return None;
                }
                self.line_idx = self.line_idx + 1;
                if (self.line_idx as usize) < WIDTH {
                    // Load BG
                    let mut pixel = 0u8;
                    if lcdc.bg_window_enable {
                        pixel = self.render_background_layer(mem, self.line_idx, self.sl, lcdc);
                        if lcdc.window_enable {
                            pixel = self.render_window_layer(self.line_idx, self.sl, mem, lcdc);
                        }
                    }
                    if lcdc.obj_enable {
                        pixel = match self.render_sprite_layer(mem, pixel) {
                            Some(p) => p,
                            None => {
                                return None;
                            },
                        };
                    }
                    if pixel > 3 {
                        return None;
                    }
                    self.set_pixel(self.line_idx, self.sl, pixel);
                }
                Some((2, false))
            } else {
                // Mode 3: Horizontal blank
                self.sl_objects_nxt = 0;
                Some((3, false))
            }
        } else {
            // Mode 1: Vertical blank
            if !self.in_vblank {
                let iflags = mem.write_cell(0xFF0F);
                mem.write(0xFF0F, iflags | 0b0000_0001);
                self.in_vblank = true;
                Some((1, true))
            } else {
                Some((1, false))
            }
        }
    }

    /// One dot of the PPU (see `run_dot_spec`); None exactly where the dot is not defined.
    pub fn try_run_dot(&mut self, mem: &mut Memory) -> (r: Option<PpuAction>)
        ensures
            match run_dot_spec(*old(self), *old(mem)) {
                None => r is None,
                Some((p, m, a)) => r == Some(a) && *final(self) == p && *final(mem) == m,
            },
    {
        let lcdc = LCDC::load(mem);
        let quiet = PpuAction { render: false, frame_done: false };
        if !lcdc.lcd_ppu_enable {
            let stat = mem.write_cell(0xFF41);
            mem.write(0xFF41, stat & 0b1111_1100);
            return Some(quiet);
        }

        if !self.oam_dma_transfer(mem) {
            return None;
        }

        mem.write(0xFF44, self.sl);
        let (ppu_mode, render) = match self.run_mode(mem, &lcdc) {
            Some(r) => r,
            None => {
                return None;
            },
        };

        let mut new_stat_line = false;
        // Check LY == LYC
        let lyc_eq = mem.read(0xFF45) == mem.read(0xFF44);
        new_stat_line = new_stat_line || lyc_eq;
        let lyc_bits: u8 = if lyc_eq { 4 } else { 0 };
        let lcd_stat = lyc_bits + ppu_mode;
        let stat_old = mem.read(0xFF41);
        mem.write(0xFF41, (stat_old & 0b1111_1000) | lcd_stat);
        // Check mode triggers
        let stat_new = mem.read(0xFF41);
        let shift = ppu_mode + 3;
        proof {
            lemma_bit_test(stat_new, shift);
        }
        new_stat_line = new_stat_line || (stat_new >> shift) & 1 != 0;

        // Trigger stat interrupt on rising edge
        if !self.stat_line && new_stat_line {
            let iflags = mem.write_cell(0xFF0F);
            mem.write(0xFF0F, iflags | 0b0000_0010);
        }
        self.stat_line = new_stat_line;

        if self.dot == 0xFFFF {
            return None;
        }
        self.dot = self.dot + 1;
        let mut frame_done = false;
        if self.dot >= TOTAL_DOTS {
            self.dot = 0;
            if self.sl == 255 {
                return None;
            }
            self.sl = self.sl + 1;
            if self.sl >= TOTAL_SL {
                self.sl = 0;
                frame_done = true;
            }
        }
        Some(PpuAction { render, frame_done })
    }

    /// One dot of the PPU on `mem` (see `run_dot_spec`).
    pub fn run_dot(&mut self, mem: Memory) -> (r: (Memory, PpuAction))
        requires
            run_dot_spec(*old(self), mem) is Some,
        ensures
            (*final(self), r.0, r.1) == run_dot_spec(*old(self), mem)->Some_0,
    {
        let mut mem = mem;
        let action = self.try_run_dot(&mut mem);
        match action {
            Some(a) => (mem, a),
            None => (mem, PpuAction { render: false, frame_done: false }),
        }
    }
}

/// Position of the PPU in the frame, in dots from the start of the first scanline.
pub open spec fn frame_position(p: PPU) -> int {
    p.sl * 456 + p.dot
}

/// With the LCD on, each dot moves the PPU one position through a frame of 154 scanlines of 456
/// dots, wrapping at the end, and a frame is reported done exactly on its last dot.
pub proof fn lemma_dot_advances(p: PPU, m: Memory)
    requires
        bit(m.read_spec(0xFF40), 7),
        p.sl < 154,
        p.dot < 456,
        run_dot_spec(p, m) is Some,
    ensures
        frame_position(run_dot_spec(p, m)->Some_0.0) == (frame_position(p) + 1) % 70224int,
        run_dot_spec(p, m)->Some_0.2.frame_done == (p.sl == 153 && p.dot == 455),
{
    let lcdc = LCDC::from_byte(m.read_spec(0xFF40));
    let (p1, m1) = oam_dma_spec(p, m);
    assert(p1.sl == p.sl && p1.dot == p.dot);
    let m2 = m1.write_spec(0xFF44, p1.sl);
    let (p2, m3, mode, render) = mode_spec(p1, m2, lcdc)->Some_0;
    assert(p2.sl == p.sl && p2.dot == p.dot);
    let q = run_dot_spec(p, m)->Some_0.0;
    let sl = p.sl as int;
    let dot = p.dot as int;
    let x = sl * 456 + dot;
    if dot + 1 < 456 {
        assert(q.sl == p.sl && q.dot == p.dot + 1);
        assert(0 <= x + 1 < 70224) by (nonlinear_arith)
            requires
                0 <= sl < 154,
                0 <= dot,
                dot + 1 < 456,
                x == sl * 456 + dot,
        ;
    } else if sl + 1 < 154 {
        assert(q.sl == p.sl + 1 && q.dot == 0);
        assert(0 <= x + 1 < 70224) by (nonlinear_arith)
            requires
                0 <= sl,
                sl + 1 < 154,
                dot == 455,
                x == sl * 456 + dot,
        ;
    } else {
        assert(q.sl == 0 && q.dot == 0);
        assert(x + 1 == 70224);
    }
}

/// With the LCD off a dot leaves the PPU as it is and reports nothing.
pub proof fn lemma_lcd_off_holds(p: PPU, m: Memory)
    requires
        !bit(m.read_spec(0xFF40), 7),
    ensures
        run_dot_spec(p, m) is Some,
        run_dot_spec(p, m)->Some_0.0 == p,
        !run_dot_spec(p, m)->Some_0.2.render && !run_dot_spec(p, m)->Some_0.2.frame_done,
{
}

/// The scroll registers move the background: the pixel at screen (`x`, `y`) is the pixel of
/// the unscrolled background (SCX = SCY = 0) at (`x` + SCX, `y` + SCY), wrapping at 256. SCX
/// (0xFF43) shifts columns and SCY (0xFF42) shifts rows.
pub proof fn lemma_scroll_moves_the_background(m: Memory, lcdc: LCDC, x: u8, y: u8)
    ensures
        ({
            let scx = m.read_spec(0xFF43);
            let scy = m.read_spec(0xFF42);
            let m0 = m.write_spec(0xFF42, 0).write_spec(0xFF43, 0);
            &&& background_pixel_spec(m, lcdc, x, y)
                == background_pixel_spec(m0, lcdc, ((x + scx) % 256) as u8, ((y + scy) % 256) as u8)
            &&& background_pixel_spec(m, lcdc, x, y)
                == tile_map_pixel_spec(m, lcdc, ((x + scx) % 256) as u8, ((y + scy) % 256) as u8, lcdc.bg_tile_map)
        }),
{
    let m0 = m.write_spec(0xFF42, 0).write_spec(0xFF43, 0);
    assert(m0.read_spec(0xFF42) == 0);
    assert(m0.read_spec(0xFF43) == 0);
    assert(m0.tile_ram == m.tile_ram);
    assert(m0.background_map == m.background_map);
    let x1 = ((x + m.read_spec(0xFF43)) % 256) as u8;
    let y1 = ((y + m.read_spec(0xFF42)) % 256) as u8;
    assert(((x1 + 0u8) % 256) as u8 == x1);
    assert(((y1 + 0u8) % 256) as u8 == y1);
    assert(tile_map_pixel_spec(m0, lcdc, x1, y1, lcdc.bg_tile_map) == tile_map_pixel_spec(m, lcdc, x1, y1, lcdc.bg_tile_map));
}

/// The window sits at WX - 7 (0xFF4B) and WY (0xFF4A): the window pixel at screen (`x`, `y`) is
/// the pixel that the window placed at the screen's corner (WX = 7, WY = 0) shows at
/// (`x` + WX - 7, `y` + WY), wrapping at 256.
pub proof fn lemma_window_position(m: Memory, lcdc: LCDC, x: u8, y: u8)
    ensures
        ({
            let wx = m.read_spec(0xFF4B);
            let wy = m.read_spec(0xFF4A);
            let m0 = m.write_spec(0xFF4A, 0).write_spec(0xFF4B, 7);
            &&& window_pixel_spec(m, lcdc, x, y)
                == window_pixel_spec(m0, lcdc, ((x + wx + 256 - 7) % 256) as u8, ((y + wy) % 256) as u8)
            &&& window_pixel_spec(m, lcdc, x, y)
                == tile_map_pixel_spec(m, lcdc, ((x + wx + 256 - 7) % 256) as u8, ((y + wy) % 256) as u8, lcdc.window_tile_map)
        }),
{
    let m0 = m.write_spec(0xFF4A, 0).write_spec(0xFF4B, 7);
    assert(m0.read_spec(0xFF4A) == 0);
    assert(m0.read_spec(0xFF4B) == 7);
    assert(m0.tile_ram == m.tile_ram);
    assert(m0.background_map == m.background_map);
    let x1 = ((x + m.read_spec(0xFF4B) + 256 - 7) % 256) as u8;
    let y1 = ((y + m.read_spec(0xFF4A)) % 256) as u8;
    assert(((x1 + 7u8 + 256 - 7) % 256) as u8 == x1);
    assert(((y1 + 0u8) % 256) as u8 == y1);
    assert(tile_map_pixel_spec(m0, lcdc, x1, y1, lcdc.window_tile_map) == tile_map_pixel_spec(m, lcdc, x1, y1, lcdc.window_tile_map));
}

/// A tile row is two bytes: the colour index of pixel `x` has as its low bit bit 7 - `x` of the
/// row's first byte and as its high bit bit 7 - `x` of the second byte.
pub proof fn lemma_pixel_in_tile_bits(m: Memory, x: u8, y: u8, tile_start: u16)
    requires
        x < 8,
    ensures
        ({
            let lo = m.read_spec((tile_start + 2 * y) as u16);
            let hi = m.read_spec((tile_start + 2 * y + 1) as u16);
            let px = pixel_in_tile_spec(m, x, y, tile_start);
            &&& px < 4
            &&& (px % 2 == 1) == bit(lo, (7 - x) as u8)
            &&& (px / 2 == 1) == bit(hi, (7 - x) as u8)
        }),
{
    let lo = m.read_spec((tile_start + 2 * y) as u16);
    let hi = m.read_spec((tile_start + 2 * y + 1) as u16);
    let sh = (7 - x) as u8;
    assert((lo >> sh) & 1u8 <= 1u8) by (bit_vector);
    assert((hi >> sh) & 1u8 <= 1u8) by (bit_vector);
    lemma_bit_test(lo, sh);
    lemma_bit_test(hi, sh);
}

} // verus!
