//! Whole-picture views of the display's memories for a debugger: a
//! background map, the tiles of a character block, and the palette. Each
//! drawn pixel has bit 15 set, to mark it opaque.
use vstd::prelude::*;
use super::{le16, screen_block, tile_color, PPU};
use super::registers::{BGMode, BGCNT};

verus! {

/// The width and height in pixels of a background map of size
/// `screen_size`, text or affine.
pub open spec fn map_size(screen_size: u8, affine: bool) -> (int, int) {
    if !affine {
        if screen_size == 0 {
            (256, 256)
        } else if screen_size == 1 {
            (512, 256)
        } else if screen_size == 2 {
            (256, 512)
        } else {
            (512, 512)
        }
    } else {
        if screen_size == 0 {
            (128, 128)
        } else if screen_size == 1 {
            (256, 256)
        } else if screen_size == 2 {
            (512, 512)
        } else {
            (1024, 1024)
        }
    }
}

/// The first byte of the tiles of character block `block`; the blocks past
/// the fourth all show the object tiles.
pub open spec fn tiles_start(block: int) -> int {
    if block > 3 {
        0x10000
    } else {
        block * 0x4000
    }
}

impl PPU {
    /// Whether the display mode draws background `bg` as an affine one.
    pub open spec fn bg_is_affine(&self, bg: int) -> bool {
        self.regs.dispcnt.mode == BGMode::Mode2 || (self.regs.dispcnt.mode == BGMode::Mode1 && bg == 2)
    }

    /// Pixel (`x`, `y`) of the map of background `bg`. An affine map holds
    /// one byte per tile of 8-bit tiles, a row of `width / 8` tiles per 8
    /// lines; a text map holds halfword entries (tile, flips, palette), 32
    /// per row, in screen blocks of 0x800 bytes. Colour 0 leaves the pixel 0.
    pub open spec fn map_pixel(&self, bg: int, x: int, y: int) -> u16 {
        let cnt = self.regs.bgcnt_of(bg);
        let width = map_size(cnt.screen_size, self.bg_is_affine(bg)).0;
        let tile_start = cnt.tile_block * 0x4000;
        let map_start = cnt.map_block * 0x800;
        let map_x = x / 8;
        let map_y = y / 8;
        if self.bg_is_affine(bg) {
            let tile_num = self.vram@[map_start + map_y * width / 8 + map_x] as int;
            let (p, c) = tile_color(self.vram@, tile_start, tile_num, false, false, 8, x % 8, y % 8, 0);
            if c == 0 {
                0
            } else {
                self.bg_palettes@[c] | 0x8000u16
            }
        } else {
            let addr = map_start + screen_block(cnt.screen_size, map_x, map_y) + map_y * 64 + map_x * 2;
            let entry = le16(self.vram@[addr], self.vram@[addr + 1]) as int;
            let (p, c) = tile_color(
                self.vram@,
                tile_start,
                entry % 1024,
                (entry / 1024) % 2 == 1,
                (entry / 2048) % 2 == 1,
                if cnt.bpp8 { 8 } else { 4 },
                x % 8,
                y % 8,
                (entry / 4096) % 16,
            );
            if c == 0 {
                0
            } else {
                self.bg_palettes@[p * 16 + c] | 0x8000u16
            }
        }
    }

    /// Pixel (`x`, `y`) of the view of the tiles of character block
    /// `block`, laid out in rows of 32 tiles (16 when 8 bits per pixel),
    /// in palette `palette` (ignored at 8 bits per pixel).
    pub open spec fn tiles_pixel(&self, palette: int, block: int, bpp8: bool, x: int, y: int) -> u16 {
        let per_row: int = if bpp8 { 16 } else { 32 };
        let (p, c) = tile_color(
            self.vram@,
            tiles_start(block),
            (y / 8) * per_row + x / 8,
            false,
            false,
            if bpp8 { 8 } else { 4 },
            x % 8,
            y % 8,
            palette,
        );
        self.bg_palettes@[p * 16 + c] | 0x8000u16
    }

    /// Pixel (`x`, `y`) of the view of the background palette: 16 by 16
    /// squares of 8 pixels, one per colour, row by row.
    pub open spec fn palettes_pixel(&self, x: int, y: int) -> u16 {
        self.bg_palettes@[(y / 8) * 16 + x / 8] | 0x8000u16
    }

    /// The map of background `bg_i`, with its width and height: the pixels
    /// row by row.
    pub fn render_map(&self, bg_i: usize) -> (r: (Vec<u16>, usize, usize))
        requires
            self.wf(),
            bg_i < 4,
        ensures
            (r.1 as int, r.2 as int) == map_size(self.regs.bgcnt_of(bg_i as int).screen_size, self.bg_is_affine(bg_i as int)),
            r.0@.len() == r.1 * r.2,
            forall|i: int| 0 <= i < r.0@.len() ==> #[trigger] r.0@[i] == self.map_pixel(bg_i as int, i % r.1 as int, i / r.1 as int),
    {
        let bgcnt: BGCNT = if bg_i == 0 {
            self.regs.bgcnt0
        } else if bg_i == 1 {
            self.regs.bgcnt1
        } else if bg_i == 2 {
            self.regs.bgcnt2
        } else {
            self.regs.bgcnt3
        };
        let affine = self.regs.dispcnt.mode == BGMode::Mode2 || (self.regs.dispcnt.mode == BGMode::Mode1 && bg_i == 2);
        let (width, height): (usize, usize) = if !affine {
            if bgcnt.screen_size == 0 {
                (256, 256)
            } else if bgcnt.screen_size == 1 {
                (512, 256)
            } else if bgcnt.screen_size == 2 {
                (256, 512)
            } else {
                (512, 512)
            }
        } else {
            if bgcnt.screen_size == 0 {
                (128, 128)
            } else if bgcnt.screen_size == 1 {
                (256, 256)
            } else if bgcnt.screen_size == 2 {
                (512, 512)
            } else {
                (1024, 1024)
            }
        };
        let tile_start_addr = bgcnt.tile_block as usize * 0x4000;
        let map_start_addr = bgcnt.map_block as usize * 0x800;
        let bit_depth: usize = if bgcnt.bpp8 { 8 } else { 4 };
        let total = width * height;
        let mut pixels: Vec<u16> = Vec::new();
        let mut i: usize = 0;
        while i < total
            invariant
                self.wf(),
                bg_i < 4,
                bgcnt == self.regs.bgcnt_of(bg_i as int),
                affine == self.bg_is_affine(bg_i as int),
                (width as int, height as int) == map_size(bgcnt.screen_size, affine),
                total == width * height,
                tile_start_addr == bgcnt.tile_block * 0x4000,
                map_start_addr == bgcnt.map_block * 0x800,
                bit_depth == (if bgcnt.bpp8 { 8int } else { 4 }),
                i <= total,
                pixels@.len() == i,
                forall|j: int| 0 <= j < i ==> #[trigger] pixels@[j] == self.map_pixel(bg_i as int, j % width as int, j / width as int),
            decreases total - i,
        {
            let x = i % width;
            let y = i / width;
            assert(y < height) by (nonlinear_arith)
                requires
                    i < width * height,
                    y == i / width,
                    width > 0,
            ;
            let map_x = x / 8;
            let map_y = y / 8;
            let pixel: u16 = if affine {
                let addr = map_start_addr + map_y * width / 8 + map_x;
                let tile_num = self.vram[addr] as usize;
                let (_, color_num) = self.get_color_from_tile(tile_start_addr, tile_num, false, false, 8, x % 8, y % 8, 0);
                if color_num == 0 {
                    0
                } else {
                    self.bg_palettes[color_num] | 0x8000
                }
            } else {
                let x_overflowed = (map_x / 32) % 2 == 1;
                let y_overflowed = (map_y / 32) % 2 == 1;
                let block: usize = if bgcnt.screen_size == 0 {
                    0
                } else if bgcnt.screen_size == 1 {
                    if x_overflowed { 0x800 } else { 0 }
                } else if bgcnt.screen_size == 2 {
                    if y_overflowed { 0x800 } else { 0 }
                } else if x_overflowed && y_overflowed {
                    0x1800
                } else if y_overflowed {
                    0x1000
                } else if x_overflowed {
                    0x800
                } else {
                    0
                };
                let addr = map_start_addr + block + map_y * 64 + map_x * 2;
                let screen_entry = self.vram[addr] as usize + self.vram[addr + 1] as usize * 256;
                let (palette_num, color_num) = self.get_color_from_tile(
                    tile_start_addr,
                    screen_entry % 1024,
                    (screen_entry / 1024) % 2 == 1,
                    (screen_entry / 2048) % 2 == 1,
                    bit_depth,
                    x % 8,
                    y % 8,
                    (screen_entry / 4096) % 16,
                );
                proof {
                    assert(screen_entry == le16(self.vram@[addr as int], self.vram@[addr as int + 1]) as int);
                }
                if color_num == 0 {
                    0
                } else {
                    self.bg_palettes[palette_num * 16 + color_num] | 0x8000
                }
            };
            pixels.push(pixel);
            i = i + 1;
        }
        (pixels, width, height)
    }

    /// The tiles of character block `block` in palette `palette`, with the
    /// view's width and height.
    pub fn render_tiles(&self, palette: usize, block: usize, bpp8: bool) -> (r: (Vec<u16>, usize, usize))
        requires
            self.wf(),
            bpp8 || palette < 16,
        ensures
            r.1 == (if bpp8 { 128usize } else { 256usize }),
            r.2 == r.1,
            r.0@.len() == r.1 * r.2,
            forall|i: int| 0 <= i < r.0@.len() ==> #[trigger] r.0@[i] == self.tiles_pixel(palette as int, block as int, bpp8, i % r.1 as int, i / r.1 as int),
    {
        let tile_start_addr: usize = if block > 3 { 0x10000 } else { block * 0x4000 };
        let tiles_size: usize = if bpp8 { 16 } else { 32 };
        let size = tiles_size * 8;
        let bit_depth: usize = if bpp8 { 8 } else { 4 };
        assert(size * size <= 65536) by (nonlinear_arith)
            requires
                size <= 256,
        ;
        let total = size * size;
        let mut pixels: Vec<u16> = Vec::new();
        let mut i: usize = 0;
        while i < total
            invariant
                self.wf(),
                bpp8 || palette < 16,
                tile_start_addr == tiles_start(block as int),
                tiles_size == (if bpp8 { 16usize } else { 32usize }),
                size == tiles_size * 8,
                total == size * size,
                bit_depth == (if bpp8 { 8usize } else { 4usize }),
                i <= total,
                pixels@.len() == i,
                forall|j: int| 0 <= j < i ==> #[trigger] pixels@[j] == self.tiles_pixel(palette as int, block as int, bpp8, j % size as int, j / size as int),
            decreases total - i,
        {
            let x = i % size;
            let y = i / size;
            assert(y < size) by (nonlinear_arith)
                requires
                    i < size * size,
                    y == i / size,
                    size > 0,
            ;
            let tile_num = (y / 8) * tiles_size + x / 8;
            let (palette_num, color_num) = self.get_color_from_tile(
                tile_start_addr,
                tile_num,
                false,
                false,
                bit_depth,
                x % 8,
                y % 8,
                palette,
            );
            pixels.push(self.bg_palettes[palette_num * 16 + color_num] | 0x8000);
            i = i + 1;
        }
        (pixels, size, size)
    }

    /// The background palette as 16 by 16 squares, with the view's width
    /// and height.
    pub fn render_palettes(&self) -> (r: (Vec<u16>, usize, usize))
        requires
            self.wf(),
        ensures
            r.1 == 128 && r.2 == 128,
            r.0@.len() == 128 * 128,
            forall|i: int| 0 <= i < r.0@.len() ==> #[trigger] r.0@[i] == self.palettes_pixel(i % 128, i / 128),
    {
        let size: usize = 128;
        let mut pixels: Vec<u16> = Vec::new();
        let mut i: usize = 0;
        while i < size * size
            invariant
                self.wf(),
                size == 128,
                i <= size * size,
                pixels@.len() == i,
                forall|j: int| 0 <= j < i ==> #[trigger] pixels@[j] == self.palettes_pixel(j % 128, j / 128),
            decreases size * size - i,
        {
            let x = i % size;
            let y = i / size;
            pixels.push(self.bg_palettes[(y / 8) * 16 + x / 8] | 0x8000);
            i = i + 1;
        }
        (pixels, size, size)
    }
}

} // verus!
